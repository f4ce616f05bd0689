use fortuna_miner::json::{JsonNumber, JsonValue};
use fortuna_miner::stratum::{
    authorize_message, frame_message, handshake_step, read_subscription, route_message,
    submit_message, subscribe_message, subscription_reply, HandshakeEvent, HandshakeStep, Route,
    StratumMessage, SubscriptionProblem, Verdict,
};

fn num(n: u64) -> JsonValue {
    JsonValue::Number(JsonNumber::PosInt(n))
}

fn text(s: &str) -> JsonValue {
    JsonValue::String(s.to_string())
}

fn reply(id: Option<JsonValue>, result: Option<JsonValue>, error: Option<JsonValue>) -> StratumMessage {
    StratumMessage { id, method: None, params: None, result, error }
}

#[test]
fn subscribe_request() {
    let m = subscribe_message();
    assert_eq!(m.id, Some(num(1)));
    assert_eq!(m.method.as_deref(), Some("mining.subscribe"));
    assert_eq!(m.params, Some(JsonValue::Array(vec![])));
    assert_eq!((m.result, m.error), (None, None));
}

#[test]
fn authorize_request() {
    let m = authorize_message("addr.rig", "x");
    assert_eq!(m.id, Some(num(2)));
    assert_eq!(m.method.as_deref(), Some("mining.authorize"));
    assert_eq!(m.params, Some(JsonValue::Array(vec![text("addr.rig"), text("x")])));
}

#[test]
fn submit_request_hex_encodes_nonce() {
    let m = submit_message("addr.rig", "job1", &[0x00, 0x0f, 0xab, 0x10]);
    assert_eq!(m.id, Some(num(3)));
    assert_eq!(m.method.as_deref(), Some("mining.submit"));
    assert_eq!(
        m.params,
        Some(JsonValue::Array(vec![text("addr.rig"), text("job1"), text("000fab10")]))
    );
}

#[test]
fn frame_appends_newline() {
    assert_eq!(frame_message("{\"id\":1}"), "{\"id\":1}\n");
    assert_eq!(frame_message(""), "\n");
}

#[test]
fn route_error_message_is_not_delivered() {
    let m = reply(Some(num(2)), Some(JsonValue::Bool(true)), Some(text("boom")));
    assert_eq!(route_message(&m), Route::PoolError);
}

#[test]
fn route_subscription_reply_notifies_subscriber() {
    let m = reply(Some(num(1)), Some(JsonValue::Array(vec![])), None);
    assert_eq!(
        route_message(&m),
        Route::Deliver { notify_subscriber: true, verdict: Verdict::Informational }
    );
    let m = reply(Some(num(1)), None, None);
    assert_eq!(
        route_message(&m),
        Route::Deliver { notify_subscriber: false, verdict: Verdict::Informational }
    );
}

#[test]
fn route_authorization_reply() {
    let m = reply(Some(num(2)), Some(JsonValue::Bool(true)), None);
    assert_eq!(route_message(&m), Route::Deliver { notify_subscriber: false, verdict: Verdict::Authorized });
    let m = reply(Some(num(2)), Some(JsonValue::Bool(false)), None);
    assert_eq!(route_message(&m), Route::Deliver { notify_subscriber: false, verdict: Verdict::Unauthorized });
    let m = reply(Some(num(2)), None, None);
    assert_eq!(route_message(&m), Route::Deliver { notify_subscriber: false, verdict: Verdict::Unauthorized });
}

#[test]
fn route_share_reply() {
    let m = reply(Some(num(4)), Some(JsonValue::Bool(true)), None);
    assert_eq!(route_message(&m), Route::Deliver { notify_subscriber: false, verdict: Verdict::ShareAccepted });
    let m = reply(Some(num(4)), Some(text("no")), None);
    assert_eq!(route_message(&m), Route::Deliver { notify_subscriber: false, verdict: Verdict::ShareRejected });
}

#[test]
fn route_other_ids_are_informational() {
    let m = reply(Some(text("2")), Some(JsonValue::Bool(false)), None);
    assert_eq!(route_message(&m), Route::Deliver { notify_subscriber: false, verdict: Verdict::Informational });
    let m = reply(Some(JsonValue::Number(JsonNumber::NegInt(-2))), None, None);
    assert_eq!(route_message(&m), Route::Deliver { notify_subscriber: false, verdict: Verdict::Informational });
    let m = reply(None, None, None);
    assert_eq!(route_message(&m), Route::Deliver { notify_subscriber: false, verdict: Verdict::Informational });
}

#[test]
fn subscription_reply_keeps_id_and_result() {
    let m = StratumMessage {
        id: Some(num(1)),
        method: Some("x".to_string()),
        params: Some(num(5)),
        result: Some(text("r")),
        error: None,
    };
    let r = subscription_reply(m);
    assert_eq!(r, reply(Some(num(1)), Some(text("r")), None));
}

#[test]
fn read_subscription_full() {
    let m = reply(
        Some(num(1)),
        Some(JsonValue::Array(vec![JsonValue::Null, text("a1b2c3d4"), num(12)])),
        None,
    );
    let d = read_subscription(&m);
    assert_eq!(d.extra_nonce_1, "a1b2c3d4");
    assert_eq!(d.extra_nonce_2_size, 12);
    assert!(d.problems.is_empty());
}

#[test]
fn read_subscription_problems() {
    let d = read_subscription(&reply(Some(num(1)), None, None));
    assert_eq!((d.extra_nonce_1.as_str(), d.extra_nonce_2_size), ("", 0));
    assert_eq!(d.problems, vec![SubscriptionProblem::NoResult]);

    let d = read_subscription(&reply(Some(num(1)), Some(text("x")), None));
    assert_eq!(d.problems, vec![SubscriptionProblem::ResultNotArray]);

    let d = read_subscription(&reply(Some(num(1)), Some(JsonValue::Array(vec![num(1), num(2)])), None));
    assert_eq!(d.problems, vec![SubscriptionProblem::ResultTooShort]);

    let d = read_subscription(&reply(
        Some(num(1)),
        Some(JsonValue::Array(vec![JsonValue::Null, num(3), text("12")])),
        None,
    ));
    assert_eq!((d.extra_nonce_1.as_str(), d.extra_nonce_2_size), ("", 0));
    assert_eq!(
        d.problems,
        vec![SubscriptionProblem::ExtraNonce1NotString, SubscriptionProblem::ExtraNonce2SizeNotNumber]
    );

    let d = read_subscription(&reply(
        Some(num(1)),
        Some(JsonValue::Array(vec![JsonValue::Null, text("ff"), JsonValue::Number(JsonNumber::Float("12.0".to_string()))])),
        None,
    ));
    assert_eq!((d.extra_nonce_1.as_str(), d.extra_nonce_2_size), ("ff", 0));
    assert_eq!(d.problems, vec![SubscriptionProblem::ExtraNonce2SizeNotNumber]);
}

#[test]
fn handshake_retries_failed_connection() {
    assert!(matches!(
        handshake_step(HandshakeEvent::ConnectFailed, "u", "p"),
        HandshakeStep::Reconnect { delay_secs: 10 }
    ));
}

#[test]
fn handshake_subscribes_when_connected() {
    match handshake_step(HandshakeEvent::Connected, "u", "p") {
        HandshakeStep::Subscribe { request, timeout_secs } => {
            assert_eq!(timeout_secs, 10);
            assert_eq!(request, subscribe_message());
        }
        other => panic!("unexpected step {:?}", other),
    }
}

#[test]
fn handshake_authorizes_after_reply() {
    let r = reply(
        Some(num(1)),
        Some(JsonValue::Array(vec![JsonValue::Null, text("abcd"), num(14)])),
        None,
    );
    match handshake_step(HandshakeEvent::SubscriptionReply(r), "addr.rig", "pw") {
        HandshakeStep::Authorize { request, details } => {
            assert_eq!(request, authorize_message("addr.rig", "pw"));
            assert_eq!(details.extra_nonce_1, "abcd");
            assert_eq!(details.extra_nonce_2_size, 14);
            assert!(details.problems.is_empty());
        }
        other => panic!("unexpected step {:?}", other),
    }
}

#[test]
fn handshake_fails_on_timeout() {
    assert!(matches!(handshake_step(HandshakeEvent::ReplyTimedOut, "u", "p"), HandshakeStep::Fail));
}

#[test]
fn subscription_reply_carries_fractional_numbers() {
    let fraction = JsonValue::Number(JsonNumber::Float("0.25".to_string()));
    let m = reply(Some(num(1)), Some(JsonValue::Array(vec![fraction])), None);
    let r = subscription_reply(m);
    assert_eq!(
        r.result,
        Some(JsonValue::Array(vec![JsonValue::Number(JsonNumber::Float("0.25".to_string()))]))
    );
}
