//! Delivery decisions of the event ingestion gateway and rate control of its load driver.

mod event;
mod gateway;
mod load;
mod synthetic;

pub use gateway::{partition_key, DeliverySettings, publish_plan, response_status, Failure, HandlerOutcome, STATUS_CLIENT_ERROR, STATUS_OK, STATUS_SERVER_ERROR};
pub use load::{delay_per_worker_ns, measured_rate_centi, NANOS_PER_SEC};
pub use synthetic::{action_count, action_name, event_type, kind_from_index, random_shape, EventKind, EventShape, KIND_COUNT, USER_ID_HIGH, USER_ID_LOW};
pub use event::{enrich, enrich_now, EnrichedEvent, EventPayload};
