use tray_traffic::speed_rate::{placeholder, SpeedRate};
use tray_traffic::stream::{StreamEvent, TrafficStream};
use tray_traffic::traffic::Traffic;
use tray_traffic::tray::{Subscription, Tray};

#[test]
fn new_speed_rate_has_no_texts() {
    let rate = SpeedRate::new();
    assert_eq!(rate.up_text, None);
    assert_eq!(rate.down_text, None);
}

#[test]
fn update_sets_both_texts() {
    let mut rate = SpeedRate::new();
    rate.update_traffic(2048, 0);
    assert_eq!(rate.up_text, Some("2.0KB/s".to_string()));
    assert_eq!(rate.down_text, Some("0B/s".to_string()));
}

#[test]
fn update_replaces_earlier_texts() {
    let mut rate = SpeedRate::new();
    rate.update_traffic(2048, 0);
    rate.update_traffic(1, 5 * 1024 * 1024);
    assert_eq!(rate.up_text, Some("1B/s".to_string()));
    assert_eq!(rate.down_text, Some("5.0MB/s".to_string()));
}

#[test]
fn absent_text_is_shown_as_placeholder() {
    assert_eq!(placeholder(), "0KB/s");
    let mut rate = SpeedRate::new();
    assert_eq!(rate.up_speed(), "0KB/s");
    assert_eq!(rate.down_speed(), "0KB/s");
    rate.update_traffic(7, 1024);
    assert_eq!(rate.up_speed(), "7B/s");
    assert_eq!(rate.down_speed(), "1.0KB/s");
}

#[test]
fn new_tray_shows_placeholders() {
    let tray = Tray::new();
    assert!(tray.speed_rate().is_none());
    assert_eq!(tray.listener(), None);
    assert_eq!(tray.get_up_speed(), "0KB/s");
    assert_eq!(tray.get_down_speed(), "0KB/s");
}

#[test]
fn init_sets_up_empty_texts() {
    let mut tray = Tray::new();
    tray.init();
    let rate = tray.speed_rate().as_ref().expect("texts after init");
    assert_eq!(rate.up_text, None);
    assert_eq!(rate.down_text, None);
    assert_eq!(tray.listener(), None);
    assert_eq!(tray.get_up_speed(), "0KB/s");
}

#[test]
fn unsubscribe_before_subscribe_does_nothing() {
    let mut tray = Tray::new();
    tray.init();
    assert_eq!(tray.unsubscribe_traffic(), None);
    assert_eq!(tray.unsubscribe_traffic(), None);
    assert_eq!(tray.listener(), None);
    assert!(tray.speed_rate().is_some());
    assert_eq!(tray.get_up_speed(), "0KB/s");
}

#[test]
fn subscribe_makes_one_listener() {
    let mut tray = Tray::new();
    let first = tray.subscribe_traffic();
    assert_eq!(first.cancelled, None);
    assert_eq!(tray.listener(), Some(first.listener));
    assert!(tray.speed_rate().is_some());
}

#[test]
fn second_subscribe_cancels_the_first() {
    let mut tray = Tray::new();
    let first = tray.subscribe_traffic();
    let second = tray.subscribe_traffic();
    assert_eq!(
        second,
        Subscription { listener: second.listener, cancelled: Some(first.listener) }
    );
    assert_ne!(first.listener, second.listener);
    assert_eq!(tray.listener(), Some(second.listener));

    assert!(!tray.deliver(first.listener, Traffic { up: 1, down: 1 }));
    assert_eq!(tray.get_up_speed(), "0KB/s");
    assert!(tray.deliver(second.listener, Traffic { up: 2, down: 3 }));
    assert_eq!(tray.get_up_speed(), "2B/s");
    assert_eq!(tray.get_down_speed(), "3B/s");
}

#[test]
fn subscribe_forgets_earlier_texts() {
    let mut tray = Tray::new();
    let first = tray.subscribe_traffic();
    assert!(tray.deliver(first.listener, Traffic { up: 4096, down: 10 }));
    assert_eq!(tray.get_up_speed(), "4.0KB/s");
    tray.subscribe_traffic();
    assert_eq!(tray.get_up_speed(), "0KB/s");
    assert_eq!(tray.get_down_speed(), "0KB/s");
}

#[test]
fn unsubscribe_returns_the_listener_once() {
    let mut tray = Tray::new();
    let subscription = tray.subscribe_traffic();
    assert_eq!(tray.unsubscribe_traffic(), Some(subscription.listener));
    assert_eq!(tray.unsubscribe_traffic(), None);
    assert_eq!(tray.listener(), None);
}

#[test]
fn subscribe_after_unsubscribe_cancels_nothing() {
    let mut tray = Tray::new();
    let first = tray.subscribe_traffic();
    tray.unsubscribe_traffic();
    let second = tray.subscribe_traffic();
    assert_eq!(second.cancelled, None);
    assert_ne!(second.listener, first.listener);
    assert!(!tray.deliver(first.listener, Traffic { up: 1, down: 1 }));
}

#[test]
fn sample_from_unknown_listener_is_dropped() {
    let mut tray = Tray::new();
    let subscription = tray.subscribe_traffic();
    assert!(!tray.deliver(subscription.listener + 1, Traffic { up: 1, down: 1 }));
    assert_eq!(tray.get_up_speed(), "0KB/s");
}

#[test]
fn samples_flow_from_source_to_texts_until_unsubscribed() {
    let mut tray = Tray::new();
    tray.init();
    let subscription = tray.subscribe_traffic();
    let mut source = Traffic::get_traffic_stream();
    assert_eq!(source.step(StreamEvent::Connected), None);

    let frame = StreamEvent::Message("{\"up\": 100, \"down\": 200000}".to_string());
    let sample = source.step(frame).expect("a sample for every frame");
    assert!(tray.deliver(subscription.listener, sample));
    assert_eq!(tray.get_up_speed(), "100B/s");
    assert_eq!(tray.get_down_speed(), "195.3KB/s");

    assert_eq!(tray.unsubscribe_traffic(), Some(subscription.listener));
    let late = StreamEvent::Message("{\"up\": 5, \"down\": 6}".to_string());
    let sample = source.step(late).expect("the orphaned source still yields");
    assert_eq!(sample, Traffic { up: 5, down: 6 });
    assert!(!tray.deliver(subscription.listener, sample));
    assert_eq!(tray.get_up_speed(), "100B/s");
    assert_eq!(tray.get_down_speed(), "195.3KB/s");
}

#[test]
fn restart_keeps_only_the_new_source_writing() {
    let mut tray = Tray::new();
    let old = tray.subscribe_traffic();
    let mut old_source = TrafficStream::new();
    old_source.step(StreamEvent::Connected);
    let new = tray.subscribe_traffic();
    let mut new_source = TrafficStream::new();
    new_source.step(StreamEvent::Connected);

    let stale = old_source
        .step(StreamEvent::Message("{\"up\": 1, \"down\": 1}".to_string()))
        .expect("a sample");
    assert!(!tray.deliver(old.listener, stale));
    let fresh = new_source
        .step(StreamEvent::Message("{\"up\": 2048, \"down\": 0}".to_string()))
        .expect("a sample");
    assert!(tray.deliver(new.listener, fresh));
    assert_eq!(tray.get_up_speed(), "2.0KB/s");
    assert_eq!(tray.get_down_speed(), "0B/s");
}
