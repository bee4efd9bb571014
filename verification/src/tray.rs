//! The tray's traffic subscription.
//!
//! The tray owns the rate texts and decides which listening task may write
//! them. Every subscription gets a number of its own; the tray remembers the
//! number of the one that is active, hands it to the task that is started
//! for it, and takes a sample only from that task. Starting a subscription
//! ends the one before it, so there is never more than one writer.

use vstd::prelude::*;
use crate::rate::rate_text;
use crate::speed_rate::{placeholder, placeholder_text, shown_text, SpeedRate, SpeedRateView};
use crate::traffic::Traffic;

verus! {

/// The number of the subscription that follows number `generation`.
pub open spec fn next_generation(generation: u64) -> u64 {
    if generation == u64::MAX {
        0
    } else {
        (generation + 1) as u64
    }
}

/// The tray's share in the traffic overlay: the shown rates and the active
/// subscription.
#[derive(Debug)]
pub struct Tray {
    speed_rate: Option<SpeedRate>,
    listening: bool,
    generation: u64,
}

/// What a [`Tray`] holds, as plain values.
pub struct TrayView {
    /// The rate texts, if there are any.
    pub speed_rate: Option<SpeedRateView>,
    /// Whether a subscription is active.
    pub listening: bool,
    /// The number of the latest subscription.
    pub generation: u64,
}

/// What starting a subscription asks of the caller.
#[derive(Clone, Copy, Debug, PartialEq, Eq, Structural)]
pub struct Subscription {
    /// The number of the new subscription: the task to start carries it.
    pub listener: u64,
    /// The number of the subscription that was ended, if one was active:
    /// its task is to be cancelled.
    pub cancelled: Option<u64>,
}

impl TrayView {
    /// The number of the active subscription, if there is one.
    pub open spec fn listener(self) -> Option<u64> {
        if self.listening {
            Some(self.generation)
        } else {
            None
        }
    }

    /// The state after the rate texts were set up anew.
    pub open spec fn initialised(self) -> TrayView {
        TrayView { speed_rate: Some(SpeedRateView::empty()), ..self }
    }

    /// The state after a subscription was started: it is the active one, and
    /// the rate texts are absent again.
    pub open spec fn subscribed(self) -> TrayView {
        TrayView {
            speed_rate: Some(SpeedRateView::empty()),
            listening: true,
            generation: next_generation(self.generation),
        }
    }

    /// The state after the subscription was ended.
    pub open spec fn unsubscribed(self) -> TrayView {
        TrayView { listening: false, ..self }
    }

    /// Whether a sample from the task of subscription `listener` is taken.
    pub open spec fn accepts(self, listener: u64) -> bool {
        self.listener() == Some(listener) && self.speed_rate is Some
    }

    /// The state after the task of subscription `listener` delivered
    /// `traffic`.
    pub open spec fn delivered(self, listener: u64, traffic: Traffic) -> TrayView {
        if self.accepts(listener) {
            TrayView { speed_rate: Some(SpeedRateView::of_sample(traffic.up, traffic.down)), ..self }
        } else {
            self
        }
    }

    /// The upload rate to show.
    pub open spec fn up_speed(self) -> Seq<char> {
        match self.speed_rate {
            Some(rate) => shown_text(rate.up_text),
            None => shown_text(None),
        }
    }

    /// The download rate to show.
    pub open spec fn down_speed(self) -> Seq<char> {
        match self.speed_rate {
            Some(rate) => shown_text(rate.down_text),
            None => shown_text(None),
        }
    }
}

/// The rate texts as a plain value.
pub open spec fn speed_rate_view(rate: Option<SpeedRate>) -> Option<SpeedRateView> {
    match rate {
        Some(rate) => Some(rate@),
        None => None,
    }
}

impl View for Tray {
    type V = TrayView;

    closed spec fn view(&self) -> TrayView {
        TrayView {
            speed_rate: speed_rate_view(self.speed_rate),
            listening: self.listening,
            generation: self.generation,
        }
    }
}

impl Tray {
    /// A tray without rate texts and without a subscription.
    pub fn new() -> (tray: Tray)
        ensures
            tray@ == (TrayView { speed_rate: None, listening: false, generation: 0 }),
    {
        Tray { speed_rate: None, listening: false, generation: 0 }
    }

    /// The rate texts; absent until the tray is initialised or subscribed.
    pub fn speed_rate(&self) -> (rate: &Option<SpeedRate>)
        ensures
            speed_rate_view(*rate) == self@.speed_rate,
    {
        &self.speed_rate
    }

    /// Sets up the rate texts anew, both absent.
    pub fn init(&mut self)
        ensures
            final(self)@ == old(self)@.initialised(),
    {
        self.speed_rate = Some(SpeedRate::new());
    }

    /// The number of the active subscription, if there is one.
    pub fn listener(&self) -> (listener: Option<u64>)
        ensures
            listener == self@.listener(),
    {
        if self.listening {
            Some(self.generation)
        } else {
            None
        }
    }

    /// Starts a subscription. One that was active is ended first, and the
    /// rate texts start out absent again, so that nothing of an earlier
    /// connection is shown. The caller cancels the task of the subscription
    /// that was ended and starts one for the new number.
    pub fn subscribe_traffic(&mut self) -> (subscription: Subscription)
        ensures
            final(self)@ == old(self)@.subscribed(),
            subscription.listener == next_generation(old(self)@.generation),
            subscription.cancelled == old(self)@.listener(),
    {
        let cancelled = self.listener();
        let listener = if self.generation == u64::MAX {
            0
        } else {
            self.generation + 1
        };
        self.speed_rate = Some(SpeedRate::new());
        self.listening = true;
        self.generation = listener;
        Subscription { listener, cancelled }
    }

    /// Ends the active subscription and returns its number, whose task the
    /// caller cancels. Without an active subscription nothing changes.
    pub fn unsubscribe_traffic(&mut self) -> (cancelled: Option<u64>)
        ensures
            final(self)@ == old(self)@.unsubscribed(),
            cancelled == old(self)@.listener(),
    {
        let cancelled = self.listener();
        self.listening = false;
        cancelled
    }

    /// Takes in a sample from the task of subscription `listener`. The sample
    /// is written to the rate texts if that subscription is the active one;
    /// from any other task it is dropped. Returns whether it was written.
    pub fn deliver(&mut self, listener: u64, traffic: Traffic) -> (taken: bool)
        ensures
            final(self)@ == old(self)@.delivered(listener, traffic),
            taken == old(self)@.accepts(listener),
    {
        if self.listening && self.generation == listener {
            match &mut self.speed_rate {
                Some(rate) => {
                    rate.update_traffic(traffic.up, traffic.down);
                    true
                },
                None => false,
            }
        } else {
            false
        }
    }

    /// The upload rate to show: the latest text, or the placeholder.
    pub fn get_up_speed(&self) -> (text: String)
        ensures
            text@ == self@.up_speed(),
    {
        match &self.speed_rate {
            Some(rate) => rate.up_speed(),
            None => placeholder(),
        }
    }

    /// The download rate to show: the latest text, or the placeholder.
    pub fn get_down_speed(&self) -> (text: String)
        ensures
            text@ == self@.down_speed(),
    {
        match &self.speed_rate {
            Some(rate) => rate.down_speed(),
            None => placeholder(),
        }
    }
}

/// Ending the subscription when none is active changes nothing.
pub proof fn lemma_unsubscribe_idle(tray: TrayView)
    requires
        tray.listener() is None,
    ensures
        tray.unsubscribed() == tray,
{
}

/// Ending the subscription twice is the same as ending it once.
pub proof fn lemma_unsubscribe_idempotent(tray: TrayView)
    ensures
        tray.unsubscribed().listener() is None,
        tray.unsubscribed().unsubscribed() == tray.unsubscribed(),
{
}

/// There is never more than one writer: two tasks whose samples the tray
/// would both take are one and the same.
pub proof fn lemma_single_writer(tray: TrayView, first: u64, second: u64)
    requires
        tray.accepts(first),
        tray.accepts(second),
    ensures
        first == second,
{
}

/// After two starts in a row exactly one subscription is active, the second.
/// The second start cancels the first subscription, and a sample that its
/// task still delivers is dropped.
pub proof fn lemma_restart_leaves_one_listener(tray: TrayView, traffic: Traffic)
    ensures
        ({
            let first = tray.subscribed();
            let second = first.subscribed();
            &&& first.listener() is Some
            &&& second.listener() is Some
            &&& second.listener() != first.listener()
            &&& !second.accepts(first.listener()->0)
            &&& second.accepts(second.listener()->0)
            &&& second.delivered(first.listener()->0, traffic) == second
        }),
{
}

/// Once the subscription is ended no sample is taken any more, whichever
/// task delivers it.
pub proof fn lemma_no_delivery_after_unsubscribe(tray: TrayView, listener: u64, traffic: Traffic)
    ensures
        !tray.unsubscribed().accepts(listener),
        tray.unsubscribed().delivered(listener, traffic) == tray.unsubscribed(),
{
}

/// A new subscription shows nothing of the one before it: both rates read as
/// the placeholder until its first sample arrives.
pub proof fn lemma_subscribe_forgets(tray: TrayView)
    ensures
        tray.subscribed().speed_rate == Some(SpeedRateView::empty()),
        tray.subscribed().up_speed() == placeholder_text(),
        tray.subscribed().down_speed() == placeholder_text(),
{
}

/// A sample that is taken is what is shown next: each rate reads as the
/// sample's rate, formatted. A sample leaves the subscription as it is.
pub proof fn lemma_delivery_shows(tray: TrayView, listener: u64, traffic: Traffic)
    requires
        tray.accepts(listener),
    ensures
        tray.delivered(listener, traffic).up_speed() == rate_text(traffic.up as nat),
        tray.delivered(listener, traffic).down_speed() == rate_text(traffic.down as nat),
        tray.delivered(listener, traffic).listener() == tray.listener(),
{
}

/// The state after `count` subscriptions were started, one after another.
pub open spec fn after_subscriptions(tray: TrayView, count: nat) -> TrayView
    decreases count,
{
    if count == 0 {
        tray
    } else {
        after_subscriptions(tray, (count - 1) as nat).subscribed()
    }
}

/// The numbers of subscriptions count upwards and start again at zero after
/// the largest: the number after `count` further subscriptions is `count`
/// more, modulo 2 to the power 64.
pub proof fn lemma_numbers_count_up(tray: TrayView, count: nat)
    ensures
        after_subscriptions(tray, count).generation == (tray.generation + count)
            % 0x1_0000_0000_0000_0000,
        count > 0 ==> after_subscriptions(tray, count).listener() == Some(
            after_subscriptions(tray, count).generation,
        ),
    decreases count,
{
    if count > 0 {
        lemma_numbers_count_up(tray, (count - 1) as nat);
    }
}

/// A number is not given out again before 2 to the power 64 further
/// subscriptions were started: until then the task of an earlier
/// subscription is never taken for the active one.
pub proof fn lemma_numbers_are_not_reused(tray: TrayView, count: nat)
    requires
        0 < count < 0x1_0000_0000_0000_0000,
    ensures
        after_subscriptions(tray, count).generation != tray.generation,
        !after_subscriptions(tray, count).accepts(tray.generation),
{
    lemma_numbers_count_up(tray, count);
}

} // verus!
