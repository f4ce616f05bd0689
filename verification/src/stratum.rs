//! Stratum messages: the ones the miner sends, the newline framing of the wire, and the
//! decisions taken on the ones the pool sends.
use vstd::prelude::*;

use crate::hexcode::{hex_encode, hex_text};
use crate::json::{json_int, read_str_at, read_u64_at, str_at, u64_at, JsonNumber, JsonValue};

verus! {

/// A stratum (JSON-RPC) message, in either direction.
#[derive(Debug, PartialEq)]
pub struct StratumMessage {
    pub id: Option<JsonValue>,
    pub method: Option<String>,
    pub params: Option<JsonValue>,
    pub result: Option<JsonValue>,
    pub error: Option<JsonValue>,
}

/// `v` is the JSON string with text `text`.
pub open spec fn is_json_text(v: JsonValue, text: Seq<char>) -> bool {
    v.spec_str() == Some(text)
}

/// `m` is a request with id `id`, method `method` and, as params, an array of strings with
/// the texts `args`.
pub open spec fn is_request(m: StratumMessage, id: u64, method: Seq<char>, args: Seq<Seq<char>>) -> bool {
    &&& m.id == Some(json_int(id))
    &&& m.method matches Some(s) && s@ == method
    &&& m.params matches Some(JsonValue::Array(items)) && items@.len() == args.len() && forall|
        i: int,
    | 0 <= i < args.len() ==> is_json_text(#[trigger] items@[i], args[i])
    &&& m.result is None
    &&& m.error is None
}

/// The `mining.subscribe` request, with id 1 and no arguments.
pub fn subscribe_message() -> (m: StratumMessage)
    ensures
        is_request(m, 1, "mining.subscribe"@, seq![]),
{
    StratumMessage {
        id: Some(JsonValue::Number(JsonNumber::PosInt(1))),
        method: Some("mining.subscribe".to_owned()),
        params: Some(JsonValue::Array(Vec::new())),
        result: None,
        error: None,
    }
}

/// The `mining.authorize` request, with id 2 and the worker's name and password.
pub fn authorize_message(username: &str, password: &str) -> (m: StratumMessage)
    ensures
        is_request(m, 2, "mining.authorize"@, seq![username@, password@]),
{
    let mut args: Vec<JsonValue> = Vec::new();
    args.push(JsonValue::String(username.to_owned()));
    args.push(JsonValue::String(password.to_owned()));
    let m = StratumMessage {
        id: Some(JsonValue::Number(JsonNumber::PosInt(2))),
        method: Some("mining.authorize".to_owned()),
        params: Some(JsonValue::Array(args)),
        result: None,
        error: None,
    };
    proof {
        let expected = seq![username@, password@];
        assert(expected[0] == username@ && expected[1] == password@);
    }
    m
}

/// The `mining.submit` request, with id 3, for a found nonce: the worker's name, the job and
/// the nonce as lowercase hex.
pub fn submit_message(username: &str, job_id: &str, nonce: &[u8]) -> (m: StratumMessage)
    ensures
        is_request(m, 3, "mining.submit"@, seq![username@, job_id@, hex_text(nonce@)]),
{
    let mut args: Vec<JsonValue> = Vec::new();
    args.push(JsonValue::String(username.to_owned()));
    args.push(JsonValue::String(job_id.to_owned()));
    args.push(JsonValue::String(hex_encode(nonce)));
    let m = StratumMessage {
        id: Some(JsonValue::Number(JsonNumber::PosInt(3))),
        method: Some("mining.submit".to_owned()),
        params: Some(JsonValue::Array(args)),
        result: None,
        error: None,
    };
    proof {
        let expected = seq![username@, job_id@, hex_text(nonce@)];
        assert(expected[0] == username@ && expected[1] == job_id@ && expected[2] == hex_text(
            nonce@,
        ));
    }
    m
}

/// One line of the wire: a serialized message followed by a newline.
pub fn frame_message(serialized: &str) -> (line: String)
    ensures
        line@ == serialized@.push('\n'),
{
    let mut line = serialized.to_owned();
    line.append("\n");
    proof {
        reveal_strlit("\n");
        assert(line@ =~= serialized@.push('\n'));
    }
    line
}

/// What a pool reply to a request of the miner tells.
#[derive(Debug, Clone, Copy, PartialEq, Eq, Structural)]
pub enum Verdict {
    /// The message answers none of the requests whose outcome the miner watches.
    Informational,
    /// The reply to `mining.authorize` is `true`: the worker may mine.
    Authorized,
    /// The reply to `mining.authorize` is anything but `true`: the miner gives up.
    Unauthorized,
    /// The reply to a share is `true`.
    ShareAccepted,
    /// The reply to a share is anything but `true`.
    ShareRejected,
}

/// Where a message from the pool goes.
#[derive(Debug, Clone, Copy, PartialEq, Eq, Structural)]
pub enum Route {
    /// The message carries an error: it is reported and goes no further.
    PoolError,
    /// The message goes on to the miner's job handling; before that, when
    /// `notify_subscriber` holds, its result is handed to whoever waits for the reply to
    /// `mining.subscribe`, and `verdict` says what it answers.
    Deliver { notify_subscriber: bool, verdict: Verdict },
}

/// The id of `m` is the JSON integer `n`.
pub open spec fn has_id(m: StratumMessage, n: u64) -> bool {
    m.id == Some(json_int(n))
}

/// The result of `m` is JSON `true`.
pub open spec fn result_is_true(m: StratumMessage) -> bool {
    m.result == Some(JsonValue::Bool(true))
}

/// The route of a message from the pool.
pub open spec fn route_of(m: StratumMessage) -> Route {
    if m.error is Some {
        Route::PoolError
    } else {
        Route::Deliver {
            notify_subscriber: has_id(m, 1) && m.result is Some,
            verdict: if has_id(m, 2) {
                if result_is_true(m) {
                    Verdict::Authorized
                } else {
                    Verdict::Unauthorized
                }
            } else if has_id(m, 4) {
                if result_is_true(m) {
                    Verdict::ShareAccepted
                } else {
                    Verdict::ShareRejected
                }
            } else {
                Verdict::Informational
            },
        }
    }
}

/// Decides where a message from the pool goes.
pub fn route_message(msg: &StratumMessage) -> (r: Route)
    ensures
        r == route_of(*msg),
{
    if msg.error.is_some() {
        return Route::PoolError;
    }
    let id = match &msg.id {
        Some(JsonValue::Number(JsonNumber::PosInt(n))) => Some(*n),
        _ => None,
    };
    let result_true = match &msg.result {
        Some(JsonValue::Bool(b)) => *b,
        _ => false,
    };
    let notify_subscriber = id == Some(1u64) && msg.result.is_some();
    let verdict = if id == Some(2u64) {
        if result_true {
            Verdict::Authorized
        } else {
            Verdict::Unauthorized
        }
    } else if id == Some(4u64) {
        if result_true {
            Verdict::ShareAccepted
        } else {
            Verdict::ShareRejected
        }
    } else {
        Verdict::Informational
    };
    Route::Deliver { notify_subscriber, verdict }
}

/// The message handed to whoever waits for the reply to `mining.subscribe`: the id and the
/// result of the pool's reply, nothing else.
pub fn subscription_reply(reply: StratumMessage) -> (m: StratumMessage)
    ensures
        m.id == reply.id,
        m.result == reply.result,
        m.method is None,
        m.params is None,
        m.error is None,
{
    StratumMessage { id: reply.id, method: None, params: None, error: None, result: reply.result }
}

/// What went wrong while reading the reply to `mining.subscribe`; the miner goes on with
/// defaults.
#[derive(Debug, Clone, Copy, PartialEq, Eq, Structural)]
pub enum SubscriptionProblem {
    /// The reply has no result.
    NoResult,
    /// The result is not an array.
    ResultNotArray,
    /// The result array has fewer than three elements.
    ResultTooShort,
    /// Element 1 is not a string: extra nonce 1 stays empty.
    ExtraNonce1NotString,
    /// Element 2 is not a non-negative integer: the size of extra nonce 2 stays 0.
    ExtraNonce2SizeNotNumber,
}

/// The extra nonce that the pool assigns to this connection, and the number of bytes the
/// miner may choose itself.
#[derive(Debug)]
pub struct SubscriptionDetails {
    /// Extra nonce 1, as hex text.
    pub extra_nonce_1: String,
    /// The size in bytes of extra nonce 2.
    pub extra_nonce_2_size: usize,
    /// What could not be read, in the order met.
    pub problems: Vec<SubscriptionProblem>,
}

/// The text of extra nonce 1 read from a subscription result.
pub open spec fn subscribed_extra_nonce_1(result: Option<JsonValue>) -> Seq<char> {
    match result {
        Some(JsonValue::Array(items)) => if items@.len() >= 3 {
            match str_at(result, 1) {
                Some(s) => s,
                None => Seq::empty(),
            }
        } else {
            Seq::empty()
        },
        _ => Seq::empty(),
    }
}

/// The size of extra nonce 2 read from a subscription result.
pub open spec fn subscribed_extra_nonce_2_size(result: Option<JsonValue>) -> usize {
    match result {
        Some(JsonValue::Array(items)) => if items@.len() >= 3 {
            match u64_at(result, 2) {
                Some(n) => n as usize,
                None => 0,
            }
        } else {
            0
        },
        _ => 0,
    }
}

/// The problems met reading a subscription result, in order.
pub open spec fn subscription_problems(result: Option<JsonValue>) -> Seq<SubscriptionProblem> {
    match result {
        None => seq![SubscriptionProblem::NoResult],
        Some(JsonValue::Array(items)) => if items@.len() >= 3 {
            (if str_at(result, 1) is None {
                seq![SubscriptionProblem::ExtraNonce1NotString]
            } else {
                Seq::empty()
            }) + (if u64_at(result, 2) is None {
                seq![SubscriptionProblem::ExtraNonce2SizeNotNumber]
            } else {
                Seq::empty()
            })
        } else {
            seq![SubscriptionProblem::ResultTooShort]
        },
        Some(_) => seq![SubscriptionProblem::ResultNotArray],
    }
}

/// Reads extra nonce 1 and the size of extra nonce 2 from the reply to `mining.subscribe`
/// (a result array whose elements 1 and 2 hold them).
pub fn read_subscription(reply: &StratumMessage) -> (d: SubscriptionDetails)
    ensures
        d.extra_nonce_1@ == subscribed_extra_nonce_1(reply.result),
        d.extra_nonce_2_size == subscribed_extra_nonce_2_size(reply.result),
        d.problems@ == subscription_problems(reply.result),
{
    let mut extra_nonce_1 = String::new();
    let mut extra_nonce_2_size: usize = 0;
    let mut problems: Vec<SubscriptionProblem> = Vec::new();
    match &reply.result {
        None => {
            problems.push(SubscriptionProblem::NoResult);
        },
        Some(JsonValue::Array(items)) => {
            if items.len() >= 3 {
                match read_str_at(&reply.result, 1) {
                    Some(s) => {
                        extra_nonce_1 = s;
                    },
                    None => {
                        problems.push(SubscriptionProblem::ExtraNonce1NotString);
                    },
                }
                match read_u64_at(&reply.result, 2) {
                    Some(n) => {
                        extra_nonce_2_size = n as usize;
                    },
                    None => {
                        problems.push(SubscriptionProblem::ExtraNonce2SizeNotNumber);
                    },
                }
            } else {
                problems.push(SubscriptionProblem::ResultTooShort);
            }
        },
        Some(_) => {
            problems.push(SubscriptionProblem::ResultNotArray);
        },
    }
    proof {
        assert(problems@ =~= subscription_problems(reply.result));
    }
    SubscriptionDetails { extra_nonce_1, extra_nonce_2_size, problems }
}

/// Seconds to wait before connecting to the pool again after a failed attempt.
pub const RECONNECT_DELAY_SECS: u64 = 10;

/// Seconds to wait for the pool's reply to `mining.subscribe`.
pub const SUBSCRIBE_TIMEOUT_SECS: u64 = 10;

/// What happened while the miner connects to the pool.
#[derive(Debug)]
pub enum HandshakeEvent {
    /// The connection to the pool could not be made.
    ConnectFailed,
    /// The connection is made.
    Connected,
    /// The pool replied to `mining.subscribe`.
    SubscriptionReply(StratumMessage),
    /// No reply to `mining.subscribe` came in time.
    ReplyTimedOut,
}

/// What the miner does next while it connects to the pool.
#[derive(Debug)]
pub enum HandshakeStep {
    /// Wait `delay_secs` seconds, then connect again.
    Reconnect { delay_secs: u64 },
    /// Send `request` and wait at most `timeout_secs` seconds for its reply.
    Subscribe { request: StratumMessage, timeout_secs: u64 },
    /// Send `request`; the connection is ready, with the extra nonce of `details`.
    Authorize { request: StratumMessage, details: SubscriptionDetails },
    /// The connection attempt fails.
    Fail,
}

/// The next step of connecting to the pool: retry a failed connection after a pause, subscribe
/// once connected, authorize once the subscription reply is read, and fail when it does not come
/// in time.
pub fn handshake_step(event: HandshakeEvent, username: &str, password: &str) -> (step: HandshakeStep)
    ensures
        match event {
            HandshakeEvent::ConnectFailed => step == (HandshakeStep::Reconnect {
                delay_secs: RECONNECT_DELAY_SECS,
            }),
            HandshakeEvent::Connected => step matches HandshakeStep::Subscribe {
                request,
                timeout_secs,
            } && is_request(request, 1, "mining.subscribe"@, seq![]) && timeout_secs
                == SUBSCRIBE_TIMEOUT_SECS,
            HandshakeEvent::SubscriptionReply(reply) => step matches HandshakeStep::Authorize {
                request,
                details,
            } && is_request(request, 2, "mining.authorize"@, seq![username@, password@])
                && details.extra_nonce_1@ == subscribed_extra_nonce_1(reply.result)
                && details.extra_nonce_2_size == subscribed_extra_nonce_2_size(reply.result)
                && details.problems@ == subscription_problems(reply.result),
            HandshakeEvent::ReplyTimedOut => step is Fail,
        },
{
    match event {
        HandshakeEvent::ConnectFailed => HandshakeStep::Reconnect { delay_secs: RECONNECT_DELAY_SECS },
        HandshakeEvent::Connected => HandshakeStep::Subscribe {
            request: subscribe_message(),
            timeout_secs: SUBSCRIBE_TIMEOUT_SECS,
        },
        HandshakeEvent::SubscriptionReply(reply) => {
            let details = read_subscription(&reply);
            HandshakeStep::Authorize { request: authorize_message(username, password), details }
        },
        HandshakeEvent::ReplyTimedOut => HandshakeStep::Fail,
    }
}

/// A subscription result array of at least three elements whose element 1 is a string and
/// element 2 a non-negative integer gives exactly that extra nonce 1 and that size, with no
/// problem, whatever element 0 and any later elements hold.
pub proof fn lemma_subscription_reads_elements_one_and_two(
    items: Vec<JsonValue>,
    extra_nonce_1: String,
    size: u64,
)
    requires
        items@.len() >= 3,
        items@[1] == JsonValue::String(extra_nonce_1),
        items@[2] == json_int(size),
    ensures
        subscribed_extra_nonce_1(Some(JsonValue::Array(items))) == extra_nonce_1@,
        subscribed_extra_nonce_2_size(Some(JsonValue::Array(items))) == size as usize,
        subscription_problems(Some(JsonValue::Array(items))).len() == 0,
{
    assert(subscription_problems(Some(JsonValue::Array(items))) =~= Seq::empty());
}

/// A subscription reply that cannot be read leaves extra nonce 1 empty and the size 0, and
/// names what is missing: no result, a result that is no array, or an array of fewer than three
/// elements.
pub proof fn lemma_unreadable_subscription(result: Option<JsonValue>)
    requires
        !(result matches Some(JsonValue::Array(items)) && items@.len() >= 3),
    ensures
        subscribed_extra_nonce_1(result) == Seq::<char>::empty(),
        subscribed_extra_nonce_2_size(result) == 0,
        subscription_problems(result).len() == 1,
        result is None ==> subscription_problems(result)[0] == SubscriptionProblem::NoResult,
        result matches Some(JsonValue::Array(items)) ==> subscription_problems(result)[0]
            == SubscriptionProblem::ResultTooShort,
        (result is Some && !(result matches Some(JsonValue::Array(_)))) ==> subscription_problems(
            result,
        )[0] == SubscriptionProblem::ResultNotArray,
{
}

/// A reply with id 4 and no error answers a share: it is accepted exactly when its result is
/// JSON `true`, and rejected for any other result, `false` and a missing one included.
pub proof fn lemma_share_verdict(m: StratumMessage)
    requires
        m.error is None,
        m.id == Some(JsonValue::Number(JsonNumber::PosInt(4))),
    ensures
        m.result == Some(JsonValue::Bool(true)) ==> route_of(m) == (Route::Deliver {
            notify_subscriber: false,
            verdict: Verdict::ShareAccepted,
        }),
        m.result != Some(JsonValue::Bool(true)) ==> route_of(m) == (Route::Deliver {
            notify_subscriber: false,
            verdict: Verdict::ShareRejected,
        }),
{
}

/// A reply with id 2 and no error answers the authorization: the worker is authorized exactly
/// when the result is JSON `true`, and refused for any other result or none.
pub proof fn lemma_authorization_verdict(m: StratumMessage)
    requires
        m.error is None,
        m.id == Some(JsonValue::Number(JsonNumber::PosInt(2))),
    ensures
        m.result == Some(JsonValue::Bool(true)) ==> route_of(m) == (Route::Deliver {
            notify_subscriber: false,
            verdict: Verdict::Authorized,
        }),
        m.result != Some(JsonValue::Bool(true)) ==> route_of(m) == (Route::Deliver {
            notify_subscriber: false,
            verdict: Verdict::Unauthorized,
        }),
{
}

/// A reply carrying an error goes no further, whatever else it holds; a reply with id 1, no
/// error and a result is handed to whoever waits for the subscription.
pub proof fn lemma_errors_stop_and_subscription_replies_pass(m: StratumMessage)
    ensures
        m.error is Some ==> route_of(m) == Route::PoolError,
        (m.error is None && m.id == Some(JsonValue::Number(JsonNumber::PosInt(1))) && m.result is Some)
            ==> route_of(m) == (Route::Deliver {
            notify_subscriber: true,
            verdict: Verdict::Informational,
        }),
{
}

} // verus!
