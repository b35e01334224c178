//! The example trace and the correlation behaviour, run end to end
//! through the real JSON decoding.

use api_weights::tracker::{LogEvent, WeightTracker};

#[test]
fn spot_first_observation_emits_absolute_ten() {
    let mut t = WeightTracker::new();
    assert!(t.intercept("spot_depth").is_none());
    let rec = t.intercept("{\"x-mbx-used-weight\":\"10\"}").expect("usage record");
    assert_eq!(rec.key, "spot_depth");
    assert_eq!(rec.value, 10);
    assert_eq!(rec.delta, 10);
}

#[test]
fn spot_decrease_emits_reset_value() {
    let mut t = WeightTracker::new();
    t.intercept("spot_depth");
    t.intercept("{\"x-mbx-used-weight\":\"10\"}");
    t.intercept("spot_price");
    let rec = t.intercept("{\"x-mbx-used-weight\":\"5\"}").expect("usage record");
    assert_eq!(rec.key, "spot_price");
    assert_eq!(rec.value, 5);
    assert_eq!(rec.delta, 5);
}

#[test]
fn futures_counter_is_independent_of_spot() {
    let mut t = WeightTracker::new();
    t.intercept("spot_depth");
    t.intercept("{\"x-mbx-used-weight\":\"10\"}");
    t.intercept("spot_price");
    t.intercept("{\"x-mbx-used-weight\":\"5\"}");
    t.intercept("futures_trades");
    let rec = t.intercept("{\"x-mbx-used-weight-1m\":\"3\"}").expect("usage record");
    assert_eq!(rec.key, "futures_trades");
    assert_eq!(rec.value, 3);
    assert_eq!(rec.delta, 3);
    // The spot counter still holds 5: the next spot observation is a delta
    // against 5, not against 3.
    t.intercept("spot_depth");
    let rec = t.intercept("{\"x-mbx-used-weight\":\"12\"}").expect("usage record");
    assert_eq!(rec.delta, 7);
}

#[test]
fn unrecognized_payload_changes_nothing() {
    let mut t = WeightTracker::new();
    t.intercept("spot_depth");
    t.intercept("{\"x-mbx-used-weight\":\"10\"}");
    t.intercept("noise");
    assert!(t.intercept("{\"unrelated\":\"x\"}").is_none());
    // The spot counter still holds 10.
    t.intercept("spot_depth");
    let rec = t.intercept("{\"x-mbx-used-weight\":\"13\"}").expect("usage record");
    assert_eq!(rec.delta, 3);
}

#[test]
fn nondecreasing_run_persists_last_usage() {
    let mut t = WeightTracker::new();
    t.intercept("spot_klines");
    let r1 = t.intercept("{\"x-mbx-used-weight\":\"3\"}").expect("usage record");
    let r2 = t.intercept("{\"x-mbx-used-weight\":\"7\"}").expect("usage record");
    let r3 = t.intercept("{\"x-mbx-used-weight\":\"7\"}").expect("usage record");
    assert_eq!((r1.value, r1.delta), (3, 3));
    assert_eq!((r2.value, r2.delta), (7, 4));
    assert_eq!((r3.value, r3.delta), (7, 0));
    // The last persisted value and the in-memory counter agree: a usage of
    // 9 is a delta of 2 against the persisted 7.
    let r4 = t.intercept("{\"x-mbx-used-weight\":\"9\"}").expect("usage record");
    assert_eq!(r4.delta, 2);
}

#[test]
fn payload_is_attributed_to_most_recent_label() {
    let mut t = WeightTracker::new();
    t.intercept("spot_depth");
    t.intercept("futures_open_interest");
    let rec = t.intercept("{\"x-mbx-used-weight\":\"4\"}").expect("usage record");
    assert_eq!(rec.key, "futures_open_interest");
    // It fed the futures counter, not the spot one: the next spot
    // observation is still measured against zero.
    t.intercept("spot_depth");
    let rec = t.intercept("{\"x-mbx-used-weight\":\"6\"}").expect("usage record");
    assert_eq!(rec.delta, 6);
}

#[test]
fn label_overwrites_key_unconditionally() {
    let mut t = WeightTracker::new();
    t.intercept("anything at all, even ?!* punctuation");
    let rec = t.intercept("{\"x-mbx-used-weight\":\"2\"}").expect("usage record");
    assert_eq!(rec.key, "anything at all, even ?!* punctuation");
}

#[test]
fn payload_without_label_uses_sentinel_key() {
    let mut t = WeightTracker::new();
    let rec = t.intercept("{\"x-mbx-used-weight\":\"8\"}").expect("usage record");
    // No label was ever seen: the sentinel is used, and it classifies as
    // futures (it does not begin with "spot").
    assert_eq!(rec.key, "empty");
    t.intercept("spot_depth");
    let rec = t.intercept("{\"x-mbx-used-weight\":\"8\"}").expect("usage record");
    assert_eq!(rec.delta, 8);
}

#[test]
fn primary_header_wins_over_fallback() {
    let mut t = WeightTracker::new();
    t.intercept("futures_price");
    let rec = t
        .intercept("{\"x-mbx-used-weight\":\"11\",\"x-mbx-used-weight-1m\":\"99\"}")
        .expect("usage record");
    assert_eq!(rec.value, 11);
}

#[test]
fn non_string_primary_falls_back() {
    // The primary header is present but holds a JSON number, not a
    // string: the lookup falls through to the fallback header.
    let mut t = WeightTracker::new();
    t.intercept("futures_price");
    let rec = t
        .intercept("{\"x-mbx-used-weight\":11,\"x-mbx-used-weight-1m\":\"3\"}")
        .expect("usage record");
    assert_eq!(rec.value, 3);
}

#[test]
fn non_numeric_weight_is_ignored() {
    let mut t = WeightTracker::new();
    t.intercept("spot_depth");
    assert!(t.intercept("{\"x-mbx-used-weight\":\"fast\"}").is_none());
    // And the counter was not moved.
    let rec = t.intercept("{\"x-mbx-used-weight\":\"4\"}").expect("usage record");
    assert_eq!(rec.delta, 4);
}

#[test]
fn classify_separates_labels_from_payloads() {
    match api_weights::tracker::classify("spot_depth") {
        LogEvent::Label(t) => assert_eq!(t, "spot_depth"),
        LogEvent::Payload(_) => panic!("a bare word is not JSON"),
    }
    match api_weights::tracker::classify("{\"a\":\"b\"}") {
        LogEvent::Label(_) => panic!("an object is JSON"),
        LogEvent::Payload(_) => {}
    }
}

#[test]
fn handle_event_routes_like_intercept() {
    let mut t = WeightTracker::new();
    let ev = api_weights::tracker::classify("spot_depth");
    assert!(t.handle_event(ev).is_none());
    let ev = api_weights::tracker::classify("{\"x-mbx-used-weight\":\"10\"}");
    let rec = t.handle_event(ev).expect("usage record");
    assert_eq!((rec.value, rec.delta), (10, 10));
    assert_eq!(rec.key, "spot_depth");
}
