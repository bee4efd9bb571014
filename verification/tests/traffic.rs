use tray_traffic::traffic::Traffic;

#[test]
fn message_with_both_members() {
    let sample = Traffic::decode("{\"up\": 100, \"down\": 200000}");
    assert_eq!(sample, Traffic { up: 100, down: 200000 });
}

#[test]
fn members_in_any_order_and_others_ignored() {
    let sample = Traffic::decode("{\"down\":7,\"total\":99,\"up\":3,\"note\":\"x\"}");
    assert_eq!(sample, Traffic { up: 3, down: 7 });
}

#[test]
fn missing_member_counts_as_zero() {
    assert_eq!(Traffic::decode("{\"up\": 12}"), Traffic { up: 12, down: 0 });
    assert_eq!(Traffic::decode("{\"down\": 34}"), Traffic { up: 0, down: 34 });
    assert_eq!(Traffic::decode("{}"), Traffic { up: 0, down: 0 });
}

#[test]
fn member_that_is_no_number_counts_as_zero() {
    assert_eq!(
        Traffic::decode("{\"up\": \"12\", \"down\": 5}"),
        Traffic { up: 0, down: 5 }
    );
    assert_eq!(
        Traffic::decode("{\"up\": null, \"down\": true}"),
        Traffic { up: 0, down: 0 }
    );
    assert_eq!(
        Traffic::decode("{\"up\": [1], \"down\": {\"down\": 1}}"),
        Traffic { up: 0, down: 0 }
    );
}

#[test]
fn member_that_is_no_unsigned_integer_counts_as_zero() {
    assert_eq!(
        Traffic::decode("{\"up\": -1, \"down\": 1.5}"),
        Traffic { up: 0, down: 0 }
    );
    assert_eq!(
        Traffic::decode("{\"up\": 18446744073709551616, \"down\": 2}"),
        Traffic { up: 0, down: 2 }
    );
}

#[test]
fn largest_count() {
    assert_eq!(
        Traffic::decode("{\"up\": 18446744073709551615, \"down\": 0}"),
        Traffic { up: u64::MAX, down: 0 }
    );
}

#[test]
fn text_that_is_no_json_gives_the_zero_sample() {
    assert_eq!(Traffic::decode(""), Traffic { up: 0, down: 0 });
    assert_eq!(Traffic::decode("up=1&down=2"), Traffic { up: 0, down: 0 });
    assert_eq!(Traffic::decode("{\"up\": 1, \"down\": 2"), Traffic { up: 0, down: 0 });
    assert_eq!(Traffic::decode("{\"up\": 1} trailing"), Traffic { up: 0, down: 0 });
}

#[test]
fn json_that_is_no_object_gives_the_zero_sample() {
    assert_eq!(Traffic::decode("[1, 2]"), Traffic { up: 0, down: 0 });
    assert_eq!(Traffic::decode("42"), Traffic { up: 0, down: 0 });
    assert_eq!(Traffic::decode("\"up\""), Traffic { up: 0, down: 0 });
    assert_eq!(Traffic::decode("null"), Traffic { up: 0, down: 0 });
}

#[test]
fn sample_from_members() {
    assert_eq!(
        Traffic::from_members(Some(5), Some(6)),
        Traffic { up: 5, down: 6 }
    );
    assert_eq!(Traffic::from_members(None, Some(6)), Traffic { up: 0, down: 6 });
    assert_eq!(Traffic::from_members(Some(5), None), Traffic { up: 5, down: 0 });
    assert_eq!(Traffic::from_members(None, None), Traffic { up: 0, down: 0 });
}
