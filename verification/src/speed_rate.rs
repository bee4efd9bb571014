//! The two rate texts that are currently shown.

use vstd::prelude::*;
use crate::rate::{format_bytes_speed, rate_text};

verus! {

/// The text shown for a rate of which no sample has arrived yet.
pub open spec fn placeholder_text() -> Seq<char> {
    "0KB/s"@
}

/// The latest upload and download rates as texts. A text is absent until the
/// first sample has arrived.
#[derive(Debug)]
pub struct SpeedRate {
    pub up_text: Option<String>,
    pub down_text: Option<String>,
}

/// What a [`SpeedRate`] holds, as plain values.
pub struct SpeedRateView {
    pub up_text: Option<Seq<char>>,
    pub down_text: Option<Seq<char>>,
}

/// A text as a plain value.
pub open spec fn text_view(text: Option<String>) -> Option<Seq<char>> {
    match text {
        Some(text) => Some(text@),
        None => None,
    }
}

/// The text to show for a rate: the text itself, or the placeholder where
/// there is none yet.
pub open spec fn shown_text(text: Option<Seq<char>>) -> Seq<char> {
    match text {
        Some(text) => text,
        None => placeholder_text(),
    }
}

impl View for SpeedRate {
    type V = SpeedRateView;

    open spec fn view(&self) -> SpeedRateView {
        SpeedRateView { up_text: text_view(self.up_text), down_text: text_view(self.down_text) }
    }
}

impl SpeedRateView {
    /// The state before any sample: both texts absent.
    pub open spec fn empty() -> SpeedRateView {
        SpeedRateView { up_text: None, down_text: None }
    }

    /// The state after a sample of `up` and `down` bytes per second.
    pub open spec fn of_sample(up: u64, down: u64) -> SpeedRateView {
        SpeedRateView {
            up_text: Some(rate_text(up as nat)),
            down_text: Some(rate_text(down as nat)),
        }
    }
}

/// The placeholder as a `String` of its own.
pub fn placeholder() -> (text: String)
    ensures
        text@ == placeholder_text(),
{
    "0KB/s".to_owned()
}

impl SpeedRate {
    /// A state in which no sample has arrived: both texts are absent.
    pub fn new() -> (rate: SpeedRate)
        ensures
            rate@ == SpeedRateView::empty(),
    {
        SpeedRate { up_text: None, down_text: None }
    }

    /// Takes in a sample: both texts are replaced, each by its rate as
    /// [`format_bytes_speed`] writes it.
    pub fn update_traffic(&mut self, up: u64, down: u64)
        ensures
            final(self)@ == SpeedRateView::of_sample(up, down),
    {
        self.up_text = Some(format_bytes_speed(up));
        self.down_text = Some(format_bytes_speed(down));
    }

    /// The upload rate to show: the latest text, or the placeholder.
    pub fn up_speed(&self) -> (text: String)
        ensures
            text@ == shown_text(self@.up_text),
    {
        match &self.up_text {
            Some(text) => text.clone(),
            None => placeholder(),
        }
    }

    /// The download rate to show: the latest text, or the placeholder.
    pub fn down_speed(&self) -> (text: String)
        ensures
            text@ == shown_text(self@.down_text),
    {
        match &self.down_text {
            Some(text) => text.clone(),
            None => placeholder(),
        }
    }
}

} // verus!
