use vstd::prelude::*;

verus! {

/// The document an event carries in `info`, passed through untouched.
#[verifier::external_type_specification]
#[verifier::external_body]
pub struct ExJsonValue(serde_json::Value);

/// An event as a client submits it.
pub struct EventPayload {
    pub user_id: u64,
    pub event_type: String,
    pub action: String,
    pub info: serde_json::Value,
}

/// An event as it is published: the client's fields and the time of receipt,
/// in milliseconds since the epoch.
pub struct EnrichedEvent {
    pub user_id: u64,
    pub event_ts: i64,
    pub event_type: String,
    pub action: String,
    pub info: serde_json::Value,
}

/// Relies on chrono's `Utc::now` and `DateTime::timestamp_millis`: the wall
/// clock in milliseconds since the epoch. Nothing is promised of its value.
#[verifier::external_body]
fn now_millis() -> (r: i64) {
    chrono::Utc::now().timestamp_millis()
}

/// Stamps an event with the given receipt time, keeping every client field as it came.
pub fn enrich(p: EventPayload, now_ms: i64) -> (r: EnrichedEvent)
    ensures
        r.user_id == p.user_id,
        r.event_type@ == p.event_type@,
        r.action@ == p.action@,
        r.info == p.info,
        r.event_ts == now_ms,
{
    EnrichedEvent {
        user_id: p.user_id,
        event_ts: now_ms,
        event_type: p.event_type,
        action: p.action,
        info: p.info,
    }
}

/// Stamps an event with the server's clock at receipt; the client never sets the time.
pub fn enrich_now(p: EventPayload) -> (r: EnrichedEvent)
    ensures
        r.user_id == p.user_id,
        r.event_type@ == p.event_type@,
        r.action@ == p.action@,
        r.info == p.info,
{
    let now = now_millis();
    enrich(p, now)
}

} // verus!
