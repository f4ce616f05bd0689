use fortuna_miner::job::MiningState;
use fortuna_miner::json::{JsonNumber, JsonValue};
use fortuna_miner::stratum::StratumMessage;

fn num(n: u64) -> JsonValue {
    JsonValue::Number(JsonNumber::PosInt(n))
}

fn text(s: &str) -> JsonValue {
    JsonValue::String(s.to_string())
}

fn request(method: &str, params: Vec<JsonValue>) -> StratumMessage {
    StratumMessage {
        id: None,
        method: Some(method.to_string()),
        params: Some(JsonValue::Array(params)),
        result: None,
        error: None,
    }
}

#[test]
fn new_state_uses_default_difficulty() {
    let s = MiningState::new(5);
    assert_eq!((s.zero_difficulty, s.network_leading_zeros, s.network_difficulty), (5, 5, 5));
    assert!(s.job_id.is_none() && s.block_data.is_none() && !s.refresh);
}

#[test]
fn notify_with_refresh_launches_workers_once() {
    let mut s = MiningState::new(5);
    let notify = request(
        "mining.notify",
        vec![text("job1"), text("abcd"), num(7), num(300), JsonValue::Bool(true)],
    );
    let order = s.handle_message(&notify, false).expect("work order");
    assert_eq!(order.job_id, "job1");
    assert_eq!(order.block_data, "abcd");
    assert_eq!(order.network_difficulty, 44); // 300 keeps its low eight bits
    assert_eq!(order.zero_difficulty, 5);
    assert_eq!(s.network_leading_zeros, 7);
    assert!(!s.refresh);
    let other = StratumMessage { id: Some(num(9)), method: None, params: None, result: None, error: None };
    assert!(s.handle_message(&other, false).is_none());
}

#[test]
fn notify_without_refresh_waits() {
    let mut s = MiningState::new(5);
    let notify = request("mining.notify", vec![text("job1"), text("abcd"), num(7), num(3), JsonValue::Bool(false)]);
    assert!(s.handle_message(&notify, false).is_none());
    assert_eq!(s.job_id.as_deref(), Some("job1"));
    let notify = request("mining.notify", vec![text("job2")]);
    assert!(s.handle_message(&notify, false).is_none());
    assert_eq!(s.job_id.as_deref(), Some("job2"));
    assert_eq!(s.block_data.as_deref(), Some("abcd"));
}

#[test]
fn refresh_without_block_data_waits() {
    let mut s = MiningState::new(5);
    let notify = request("mining.notify", vec![text("job1"), num(1), num(7), num(3), JsonValue::Bool(true)]);
    assert!(s.handle_message(&notify, false).is_none());
    assert!(s.refresh);
    let notify = request("mining.notify", vec![text("job1"), text("beef")]);
    let order = s.handle_message(&notify, false).expect("work order");
    assert_eq!(order.block_data, "beef");
}

#[test]
fn set_difficulty_changes_share_target() {
    let mut s = MiningState::new(5);
    assert!(s.handle_message(&request("mining.set_difficulty", vec![num(9)]), false).is_none());
    assert_eq!(s.zero_difficulty, 9);
    s.handle_message(&request("mining.set_difficulty", vec![text("9")]), false);
    assert_eq!(s.zero_difficulty, 9);
}

#[test]
fn set_difficulty_is_ignored_under_override() {
    let mut s = MiningState::new(5);
    s.handle_message(&request("mining.set_difficulty", vec![num(9)]), true);
    assert_eq!(s.zero_difficulty, 5);
}

#[test]
fn order_carries_new_share_target() {
    let mut s = MiningState::new(5);
    s.handle_message(&request("mining.set_difficulty", vec![num(6)]), false);
    let order = s
        .handle_message(&request("mining.notify", vec![text("j"), text("00"), num(1), num(2), JsonValue::Bool(true)]), false)
        .unwrap();
    assert_eq!((order.zero_difficulty, order.network_difficulty), (6, 2));
}

#[test]
fn unknown_methods_change_nothing() {
    let mut s = MiningState::new(5);
    s.handle_message(&request("mining.ping", vec![num(9)]), false);
    assert_eq!(s.zero_difficulty, 5);
    assert!(s.job_id.is_none());
}
