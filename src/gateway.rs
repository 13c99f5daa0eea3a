use vstd::prelude::*;
use vstd::string::StringExecFns;

verus! {

pub const STATUS_OK: u16 = 200;
pub const STATUS_CLIENT_ERROR: u16 = 400;
pub const STATUS_SERVER_ERROR: u16 = 500;

/// Why a request did not end in a durably stored record.
#[derive(Clone, Copy, Debug, PartialEq, Eq, Structural)]
pub enum Failure {
    /// The body did not decode to a complete, correctly typed event.
    MalformedRequest,
    /// The enriched event could not be encoded.
    SerializationError,
    /// The broker did not acknowledge within the retry budget and timeout.
    DeliveryFailed,
}

/// What one request came to.
#[derive(Clone, Copy, Debug, PartialEq, Eq, Structural)]
pub enum HandlerOutcome {
    Published,
    Failed(Failure),
}

/// The HTTP status owed for an outcome.
pub open spec fn status_of(o: HandlerOutcome) -> u16 {
    match o {
        HandlerOutcome::Published => STATUS_OK,
        HandlerOutcome::Failed(Failure::MalformedRequest) => STATUS_CLIENT_ERROR,
        HandlerOutcome::Failed(_) => STATUS_SERVER_ERROR,
    }
}

/// Translates the outcome of one request into its response status: success
/// only for an acknowledged record, a client error for a malformed body, a
/// server error for every other failure.
pub fn response_status(o: HandlerOutcome) -> (r: u16)
    ensures
        r == status_of(o),
        r == STATUS_OK <==> o == HandlerOutcome::Published,
        r == STATUS_CLIENT_ERROR <==> o == HandlerOutcome::Failed(Failure::MalformedRequest),
{
    match o {
        HandlerOutcome::Published => STATUS_OK,
        HandlerOutcome::Failed(Failure::MalformedRequest) => STATUS_CLIENT_ERROR,
        HandlerOutcome::Failed(_) => STATUS_SERVER_ERROR,
    }
}

/// The delivery configuration of the publish client.
pub struct DeliverySettings {
    /// Comma-separated broker endpoints.
    pub brokers: String,
    /// The stream every event is published to.
    pub topic: String,
    /// Acknowledgement level.
    pub acks: String,
    /// Batch compression algorithm.
    pub compression: String,
    pub linger_ms: u64,
    pub batch_bytes: u64,
    /// Retries before a record is reported as failed.
    pub max_retries: u64,
    pub idempotent: bool,
    /// How long the broker client keeps a record before giving up on it.
    pub message_timeout_ms: u64,
    /// How long one publish call waits for the acknowledgement.
    pub publish_timeout_ms: u64,
}

impl DeliverySettings {
    /// The most durable settings: acknowledgement by all in-sync replicas,
    /// idempotent retries, five of them, 64 KiB batches lingering 10 ms,
    /// Snappy compression and a two-second publish timeout.
    pub fn durable(brokers: String) -> (r: DeliverySettings)
        ensures
            r.brokers@ == brokers@,
            r.topic@ == "user-events"@,
            r.acks@ == "all"@,
            r.compression@ == "snappy"@,
            r.linger_ms == 10,
            r.batch_bytes == 65536,
            r.max_retries == 5,
            r.idempotent,
            r.message_timeout_ms == 5000,
            r.publish_timeout_ms == 2000,
    {
        DeliverySettings {
            brokers,
            topic: String::from_str("user-events"),
            acks: String::from_str("all"),
            compression: String::from_str("snappy"),
            linger_ms: 10,
            batch_bytes: 65536,
            max_retries: 5,
            idempotent: true,
            message_timeout_ms: 5000,
            publish_timeout_ms: 2000,
        }
    }
}

/// The character of a decimal digit.
pub open spec fn digit_char(d: nat) -> char {
    if d < 10 {
        ((d + 48) as u8) as char
    } else {
        '?'
    }
}

/// The decimal digits of n, most significant first, without leading zeros.
pub open spec fn decimal(n: nat) -> Seq<char>
    decreases n,
{
    if n < 10 {
        seq![digit_char(n)]
    } else {
        decimal(n / 10).push(digit_char(n % 10))
    }
}

fn digit_str(d: u64) -> (r: &'static str)
    requires
        d < 10,
    ensures
        r@ == seq![digit_char(d as nat)],
{
    proof {
        reveal_strlit("0");
        reveal_strlit("1");
        reveal_strlit("2");
        reveal_strlit("3");
        reveal_strlit("4");
        reveal_strlit("5");
        reveal_strlit("6");
        reveal_strlit("7");
        reveal_strlit("8");
        reveal_strlit("9");
    }
    let r = match d {
        0 => "0",
        1 => "1",
        2 => "2",
        3 => "3",
        4 => "4",
        5 => "5",
        6 => "6",
        7 => "7",
        8 => "8",
        _ => "9",
    };
    assert(r@ =~= seq![digit_char(d as nat)]);
    r
}

fn append_decimal(s: &mut String, n: u64)
    ensures
        final(s)@ == old(s)@ + decimal(n as nat),
    decreases n,
{
    if n >= 10 {
        append_decimal(s, n / 10);
    }
    let d = digit_str(n % 10);
    s.append(d);
    assert(s@ =~= old(s)@ + decimal(n as nat));
}

/// The partition key of an event: its user id in decimal. Events of one user
/// share it, so the log keeps them in the order they were submitted.
pub fn partition_key(user_id: u64) -> (r: String)
    ensures
        r@ == decimal(user_id as nat),
{
    let mut s = String::new();
    append_decimal(&mut s, user_id);
    assert(s@ =~= decimal(user_id as nat));
    s
}

/// Distinct user ids have distinct keys, and equal ones equal keys.
pub proof fn lemma_decimal_injective(a: nat, b: nat)
    ensures
        decimal(a) == decimal(b) <==> a == b,
    decreases a + b,
{
    if a != b && decimal(a) == decimal(b) {
        lemma_digit_char_injective(a % 10, b % 10);
        if a < 10 && b < 10 {
            assert(decimal(a)[0] == decimal(b)[0]);
            lemma_digit_char_injective(a, b);
        } else if a < 10 {
            lemma_decimal_nonempty(b / 10);
            assert(decimal(b).len() >= 2);
        } else if b < 10 {
            lemma_decimal_nonempty(a / 10);
            assert(decimal(a).len() >= 2);
        } else {
            assert(decimal(a).drop_last() == decimal(a / 10));
            assert(decimal(b).drop_last() == decimal(b / 10));
            assert(decimal(a).last() == digit_char(a % 10));
            assert(decimal(b).last() == digit_char(b % 10));
            lemma_decimal_injective(a / 10, b / 10);
            assert(a == (a / 10) * 10 + a % 10);
            assert(b == (b / 10) * 10 + b % 10);
        }
    }
}

proof fn lemma_decimal_nonempty(n: nat)
    ensures
        decimal(n).len() >= 1,
    decreases n,
{
    if n >= 10 {
        lemma_decimal_nonempty(n / 10);
    }
}

proof fn lemma_digit_char_injective(a: nat, b: nat)
    requires
        a < 10,
        b < 10,
    ensures
        digit_char(a) == digit_char(b) ==> a == b,
{
}

/// What a request comes to before the broker is reached: the key to publish
/// under, or the outcome that ends it without publishing.
pub open spec fn plan_of(decoded_user_id: Option<u64>, encoded: bool) -> Result<Seq<char>, HandlerOutcome> {
    match decoded_user_id {
        None => Err(HandlerOutcome::Failed(Failure::MalformedRequest)),
        Some(u) => if encoded {
            Ok(decimal(u as nat))
        } else {
            Err(HandlerOutcome::Failed(Failure::SerializationError))
        },
    }
}

/// Decides, once the body has been decoded (`Some(user_id)`) or not and the
/// enriched event encoded or not, whether to publish and under which key. A
/// malformed body or a failed encoding never reaches the broker.
pub fn publish_plan(decoded_user_id: Option<u64>, encoded: bool) -> (r: Result<String, HandlerOutcome>)
    ensures
        decoded_user_id is None ==> r == Err::<String, HandlerOutcome>(
            HandlerOutcome::Failed(Failure::MalformedRequest),
        ),
        decoded_user_id is Some && !encoded ==> r == Err::<String, HandlerOutcome>(
            HandlerOutcome::Failed(Failure::SerializationError),
        ),
        encoded ==> (decoded_user_id matches Some(u) ==> (r matches Ok(k) && k@ == decimal(u as nat))),
{
    match decoded_user_id {
        None => Err(HandlerOutcome::Failed(Failure::MalformedRequest)),
        Some(u) => if encoded {
            Ok(partition_key(u))
        } else {
            Err(HandlerOutcome::Failed(Failure::SerializationError))
        },
    }
}

/// Two events of one user are published under one key, and events of
/// different users under different keys.
pub proof fn lemma_same_user_same_key(a: u64, b: u64)
    ensures
        plan_of(Some(a), true) == plan_of(Some(b), true) <==> a == b,
{
    lemma_decimal_injective(a as nat, b as nat);
}

} // verus!
