//! Live traffic-rate overlay for a proxy client's tray icon.
//!
//! The crate holds the rules of the pipeline that turns the proxy core's
//! traffic feed into the text drawn beside the tray icon:
//!
//! * [`decimal`] writes numbers in decimal notation;
//! * [`rate`] formats a byte rate as a short text such as `1.5KB/s`;
//! * [`traffic`] decodes one message of the feed into a [`Traffic`] sample;
//! * [`stream`] is the reconnecting source of samples, as a state machine;
//! * [`speed_rate`] holds the two texts that are currently shown;
//! * [`tray`] owns the lifecycle of the one listening task;
//! * [`icon`] builds the widened icon canvas that the texts are drawn on;
//! * [`controls`] says what a click on the tray or its menu asks for.

pub mod controls;
pub mod decimal;
pub mod icon;
pub mod rate;
pub mod speed_rate;
pub mod stream;
pub mod traffic;
pub mod tray;

pub use crate::rate::format_bytes_speed;
pub use crate::stream::{traffic_ws_url, StreamAction, StreamEvent, StreamState, TrafficStream};
pub use crate::speed_rate::SpeedRate;
pub use crate::traffic::Traffic;
pub use crate::tray::{Subscription, Tray};
