use event_gateway::{delay_per_worker_ns, measured_rate_centi, response_status, Failure, HandlerOutcome};

#[test]
fn ten_workers_at_one_hundred_per_second_wait_a_tenth_of_a_second() {
    assert_eq!(delay_per_worker_ns(100, 10), 100_000_000);
}

#[test]
fn zero_rate_saturates_the_delay() {
    assert_eq!(delay_per_worker_ns(0, 10), u64::MAX);
    assert_eq!(delay_per_worker_ns(0, 0), u64::MAX);
}

#[test]
fn delay_is_at_least_one_nanosecond() {
    assert_eq!(delay_per_worker_ns(u64::MAX, 1), 1);
}

#[test]
fn delay_saturates_when_too_long() {
    assert_eq!(delay_per_worker_ns(1, u64::MAX), u64::MAX);
}

#[test]
fn measured_rate_over_two_seconds() {
    assert_eq!(measured_rate_centi(200, 2_000_000_000), Some(10_000));
    assert_eq!(measured_rate_centi(201, 2_000_000_000), Some(10_050));
    assert_eq!(measured_rate_centi(5, 0), None);
}

#[test]
fn statuses_by_outcome() {
    assert_eq!(response_status(HandlerOutcome::Published), 200);
    assert_eq!(response_status(HandlerOutcome::Failed(Failure::MalformedRequest)), 400);
    assert_eq!(response_status(HandlerOutcome::Failed(Failure::SerializationError)), 500);
    assert_eq!(response_status(HandlerOutcome::Failed(Failure::DeliveryFailed)), 500);
}

use event_gateway::{
    action_count, action_name, event_type, kind_from_index, partition_key, publish_plan, random_shape,
    DeliverySettings, EventKind, KIND_COUNT, USER_ID_HIGH, USER_ID_LOW,
};

#[test]
fn partition_key_is_the_user_id_in_decimal() {
    assert_eq!(partition_key(42), "42");
    assert_eq!(partition_key(0), "0");
    assert_eq!(partition_key(10), "10");
    assert_eq!(partition_key(u64::MAX), "18446744073709551615");
}

#[test]
fn plan_for_a_decoded_and_encoded_event_publishes_under_its_key() {
    assert_eq!(publish_plan(Some(42), true), Ok("42".to_string()));
}

#[test]
fn plan_for_a_malformed_body_never_publishes() {
    assert_eq!(publish_plan(None, true), Err(HandlerOutcome::Failed(Failure::MalformedRequest)));
    assert_eq!(publish_plan(None, false), Err(HandlerOutcome::Failed(Failure::MalformedRequest)));
}

#[test]
fn plan_for_a_failed_encoding_is_a_server_error() {
    let r = publish_plan(Some(7), false);
    assert_eq!(r, Err(HandlerOutcome::Failed(Failure::SerializationError)));
    assert_eq!(response_status(r.unwrap_err()), 500);
}

#[test]
fn same_user_same_key() {
    assert_eq!(publish_plan(Some(9), true), publish_plan(Some(9), true));
    assert_ne!(publish_plan(Some(9), true), publish_plan(Some(90), true));
}

#[test]
fn kinds_and_their_actions() {
    let tags: Vec<&str> = (0..KIND_COUNT).map(|i| event_type(kind_from_index(i))).collect();
    assert_eq!(tags, vec!["click", "page_view", "add_to_cart", "purchase", "scroll"]);
    assert_eq!(action_count(EventKind::Click), 4);
    assert_eq!(action_name(EventKind::Click, 3), "button");
    assert_eq!(action_name(EventKind::Purchase, 0), "checkout_complete");
    assert_eq!(action_name(EventKind::Scroll, 1), "element_visible");
}

#[test]
fn random_shapes_stay_in_the_closed_set() {
    for _ in 0..200 {
        let s = random_shape();
        assert!(USER_ID_LOW <= s.user_id && s.user_id < USER_ID_HIGH);
        let names: Vec<&str> = (0..action_count(s.kind)).map(|i| action_name(s.kind, i)).collect();
        assert!(names.contains(&s.action));
    }
}

#[test]
fn durable_delivery_settings() {
    let s = DeliverySettings::durable("localhost:29092".to_string());
    assert_eq!(s.brokers, "localhost:29092");
    assert_eq!(s.topic, "user-events");
    assert_eq!(s.acks, "all");
    assert_eq!(s.compression, "snappy");
    assert_eq!((s.linger_ms, s.batch_bytes, s.max_retries), (10, 65536, 5));
    assert!(s.idempotent);
    assert_eq!((s.message_timeout_ms, s.publish_timeout_ms), (5000, 2000));
}

#[test]
fn rate_report_bounded_over_the_two_second_run() {
    assert_eq!(measured_rate_centi(210, 2_000_000_000), Some(10_500));
    assert!(measured_rate_centi(205, 2_100_000_000).unwrap() <= 10_500);
}

use event_gateway::{enrich, enrich_now, EventPayload};

fn click_payload() -> EventPayload {
    let mut info = serde_json::Map::new();
    info.insert("element_id".to_string(), serde_json::Value::String("btn-7".to_string()));
    EventPayload {
        user_id: 42,
        event_type: "click".to_string(),
        action: "button".to_string(),
        info: serde_json::Value::Object(info),
    }
}

#[test]
fn enrich_keeps_the_client_fields_and_sets_the_time() {
    let e = enrich(click_payload(), 1_700_000_000_123);
    assert_eq!(e.user_id, 42);
    assert_eq!(e.event_type, "click");
    assert_eq!(e.action, "button");
    assert_eq!(e.info, click_payload().info);
    assert_eq!(e.event_ts, 1_700_000_000_123);
    assert_eq!(partition_key(e.user_id), "42");
}

#[test]
fn enrich_now_stamps_a_plausible_receipt_time() {
    let millis = || {
        std::time::SystemTime::now()
            .duration_since(std::time::UNIX_EPOCH)
            .unwrap()
            .as_millis() as i64
    };
    let before = millis();
    let e = enrich_now(click_payload());
    let after = millis();
    assert!(before <= e.event_ts && e.event_ts <= after);
    assert_eq!(e.info, click_payload().info);
}
