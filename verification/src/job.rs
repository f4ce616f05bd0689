//! The miner's view of the current job, updated by each message from the pool, and the
//! decision to (re)start the workers.
use vstd::prelude::*;

use crate::json::{
    bool_at, json_int, read_bool_at, read_str_at, read_u64_at, str_at, u64_at, JsonValue,
};
use crate::stratum::StratumMessage;

verus! {

/// What the miner knows of the job to mine.
#[derive(Debug)]
pub struct MiningState {
    /// The job id of the last `mining.notify`.
    pub job_id: Option<String>,
    /// The block data (hex) of the last `mining.notify`.
    pub block_data: Option<String>,
    /// The workers must restart on the current job.
    pub refresh: bool,
    /// Leading zero digits that a share needs.
    pub zero_difficulty: u8,
    /// Leading zero digits that the network asks for.
    pub network_leading_zeros: u8,
    /// Difficulty number under which a hash with exactly `zero_difficulty` leading zero
    /// digits is a share.
    pub network_difficulty: u8,
}

/// The state as plain values.
pub struct MiningView {
    pub job_id: Option<Seq<char>>,
    pub block_data: Option<Seq<char>>,
    pub refresh: bool,
    pub zero_difficulty: u8,
    pub network_leading_zeros: u8,
    pub network_difficulty: u8,
}

/// The text of an optional string.
pub open spec fn text_of(s: Option<String>) -> Option<Seq<char>> {
    match s {
        Some(t) => Some(t@),
        None => None,
    }
}

impl View for MiningState {
    type V = MiningView;

    open spec fn view(&self) -> MiningView {
        MiningView {
            job_id: text_of(self.job_id),
            block_data: text_of(self.block_data),
            refresh: self.refresh,
            zero_difficulty: self.zero_difficulty,
            network_leading_zeros: self.network_leading_zeros,
            network_difficulty: self.network_difficulty,
        }
    }
}

/// Work for the workers: a job, its block data, and the target.
#[derive(Debug)]
pub struct WorkOrder {
    pub job_id: String,
    pub block_data: String,
    /// Difficulty number bound handed to the workers.
    pub network_difficulty: u8,
    /// Leading zero digits handed to the workers.
    pub zero_difficulty: u8,
}

/// The message's method is `name`.
pub open spec fn has_method(m: StratumMessage, name: Seq<char>) -> bool {
    m.method matches Some(s) && s@ == name
}

/// The message is a `mining.notify` or a `mining.set_difficulty`, whose params the miner reads.
pub open spec fn needs_params(m: StratumMessage) -> bool {
    has_method(m, "mining.notify"@) || has_method(m, "mining.set_difficulty"@)
}

/// The low eight bits of a number that the pool sent for an eight-bit setting.
pub open spec fn low_byte(n: u64) -> u8 {
    (n % 256) as u8
}

/// `new` where the pool sent a value, else `old`.
pub open spec fn or_keep<T>(new: Option<T>, old: T) -> T {
    match new {
        Some(v) => v,
        None => old,
    }
}

/// The state after taking in a message, before the restart decision.
pub open spec fn after_message(v: MiningView, m: StratumMessage, override_difficulty: bool) -> MiningView {
    if has_method(m, "mining.notify"@) {
        MiningView {
            job_id: match str_at(m.params, 0) {
                Some(s) => Some(s),
                None => v.job_id,
            },
            block_data: match str_at(m.params, 1) {
                Some(s) => Some(s),
                None => v.block_data,
            },
            network_leading_zeros: match u64_at(m.params, 2) {
                Some(n) => low_byte(n),
                None => v.network_leading_zeros,
            },
            network_difficulty: match u64_at(m.params, 3) {
                Some(n) => low_byte(n),
                None => v.network_difficulty,
            },
            refresh: or_keep(bool_at(m.params, 4), v.refresh),
            zero_difficulty: v.zero_difficulty,
        }
    } else if has_method(m, "mining.set_difficulty"@) {
        MiningView {
            zero_difficulty: match u64_at(m.params, 0) {
                Some(n) => if override_difficulty {
                    v.zero_difficulty
                } else {
                    low_byte(n)
                },
                None => v.zero_difficulty,
            },
            ..v
        }
    } else {
        v
    }
}

/// The workers (re)start when a job and its block data are known and a refresh is pending.
pub open spec fn launches(v: MiningView) -> bool {
    v.job_id is Some && v.block_data is Some && v.refresh
}

/// The state once the restart decision is taken: a launch consumes the pending refresh.
pub open spec fn settled(v: MiningView) -> MiningView {
    if launches(v) {
        MiningView { refresh: false, ..v }
    } else {
        v
    }
}

/// The message's method is `name`.
fn method_is(m: &StratumMessage, name: &str) -> (r: bool)
    ensures
        r == has_method(*m, name@),
{
    match &m.method {
        Some(s) => *s == name.to_owned(),
        None => false,
    }
}

impl MiningState {
    /// The state before any job: nothing known, every difficulty at the miner's default.
    pub fn new(default_difficulty: u8) -> (s: MiningState)
        ensures
            s@ == (MiningView {
                job_id: None,
                block_data: None,
                refresh: false,
                zero_difficulty: default_difficulty,
                network_leading_zeros: default_difficulty,
                network_difficulty: default_difficulty,
            }),
    {
        MiningState {
            job_id: None,
            block_data: None,
            refresh: false,
            zero_difficulty: default_difficulty,
            network_leading_zeros: default_difficulty,
            network_difficulty: default_difficulty,
        }
    }

    /// Takes in a message from the pool: a `mining.notify` sets the job, its block data, the
    /// network targets and the refresh flag from its params (each where present, as text,
    /// non-negative integer or boolean); a `mining.set_difficulty` sets the share target from
    /// its first param unless the miner overrides it. Then, when a job and block data are known
    /// and a refresh is pending, the refresh is consumed and a work order is returned.
    pub fn handle_message(&mut self, msg: &StratumMessage, override_difficulty: bool) -> (order:
        Option<WorkOrder>)
        requires
            needs_params(*msg) ==> msg.params is Some,
        ensures
            final(self)@ == settled(after_message(old(self)@, *msg, override_difficulty)),
            order is Some <==> launches(after_message(old(self)@, *msg, override_difficulty)),
            order matches Some(o) ==> {
                let next = after_message(old(self)@, *msg, override_difficulty);
                &&& next.job_id == Some(o.job_id@)
                &&& next.block_data == Some(o.block_data@)
                &&& o.network_difficulty == next.network_difficulty
                &&& o.zero_difficulty == next.zero_difficulty
            },
    {
        if method_is(msg, "mining.notify") {
            if let Some(s) = read_str_at(&msg.params, 0) {
                self.job_id = Some(s);
            }
            if let Some(s) = read_str_at(&msg.params, 1) {
                self.block_data = Some(s);
            }
            if let Some(n) = read_u64_at(&msg.params, 2) {
                self.network_leading_zeros = (n % 256) as u8;
            }
            if let Some(n) = read_u64_at(&msg.params, 3) {
                self.network_difficulty = (n % 256) as u8;
            }
            if let Some(b) = read_bool_at(&msg.params, 4) {
                self.refresh = b;
            }
        } else if method_is(msg, "mining.set_difficulty") {
            if let Some(n) = read_u64_at(&msg.params, 0) {
                if !override_difficulty {
                    self.zero_difficulty = (n % 256) as u8;
                }
            }
        }
        match (&self.job_id, &self.block_data) {
            (Some(job_id), Some(block_data)) => {
                if self.refresh {
                    let order = WorkOrder {
                        job_id: job_id.clone(),
                        block_data: block_data.clone(),
                        network_difficulty: self.network_difficulty,
                        zero_difficulty: self.zero_difficulty,
                    };
                    self.refresh = false;
                    return Some(order);
                }
            },
            _ => {},
        }
        None
    }
}

/// With the difficulty override on, no message changes the share target.
pub proof fn lemma_override_keeps_share_target(v: MiningView, m: StratumMessage)
    ensures
        settled(after_message(v, m, true)).zero_difficulty == v.zero_difficulty,
{
}

/// A launch consumes the pending refresh: right after it, the state does not launch again.
pub proof fn lemma_launch_consumes_refresh(v: MiningView, m: StratumMessage, override_difficulty: bool)
    requires
        launches(after_message(v, m, override_difficulty)),
    ensures
        !settled(after_message(v, m, override_difficulty)).refresh,
        !launches(settled(after_message(v, m, override_difficulty))),
{
}

/// Only a `mining.notify` can set a refresh: from a state with no refresh pending, any other
/// message launches nothing.
pub proof fn lemma_only_notify_launches(v: MiningView, m: StratumMessage, override_difficulty: bool)
    requires
        !v.refresh,
        !has_method(m, "mining.notify"@),
    ensures
        !launches(after_message(v, m, override_difficulty)),
{
}

/// A `mining.notify` whose params start with the job id and the block data as strings takes
/// both over, whatever job was known before; and when its refresh flag (params 4) is `true`,
/// the workers restart on exactly that job and block data, and no refresh stays pending.
pub proof fn lemma_notify_replaces_job(
    v: MiningView,
    m: StratumMessage,
    override_difficulty: bool,
    job: String,
    block: String,
)
    requires
        m.method matches Some(name) && name@ == "mining.notify"@,
        m.params matches Some(JsonValue::Array(items)) && items@.len() >= 2 && items@[0]
            == JsonValue::String(job) && items@[1] == JsonValue::String(block),
    ensures
        after_message(v, m, override_difficulty).job_id == Some(job@),
        after_message(v, m, override_difficulty).block_data == Some(block@),
        settled(after_message(v, m, override_difficulty)).job_id == Some(job@),
        settled(after_message(v, m, override_difficulty)).block_data == Some(block@),
        m.params matches Some(JsonValue::Array(items)) && items@.len() >= 5 && items@[4]
            == JsonValue::Bool(true) ==> {
            &&& launches(after_message(v, m, override_difficulty))
            &&& !settled(after_message(v, m, override_difficulty)).refresh
        },
        m.params matches Some(JsonValue::Array(items)) && items@.len() >= 5 && items@[4]
            == JsonValue::Bool(false) ==> !launches(after_message(v, m, override_difficulty)),
{
}

/// A `mining.notify` whose params 2 and 3 are non-negative integers sets the network's zero
/// count and difficulty to their low eight bits, and leaves the share target alone.
pub proof fn lemma_notify_sets_network_targets(
    v: MiningView,
    m: StratumMessage,
    override_difficulty: bool,
    zeroes: u64,
    difficulty: u64,
)
    requires
        m.method matches Some(name) && name@ == "mining.notify"@,
        m.params matches Some(JsonValue::Array(items)) && items@.len() >= 4 && items@[2] == json_int(
            zeroes,
        ) && items@[3] == json_int(difficulty),
    ensures
        after_message(v, m, override_difficulty).network_leading_zeros == (zeroes % 256) as u8,
        after_message(v, m, override_difficulty).network_difficulty == (difficulty % 256) as u8,
        after_message(v, m, override_difficulty).zero_difficulty == v.zero_difficulty,
{
}

/// A `mining.set_difficulty` whose first param is a non-negative integer sets the share target
/// to its low eight bits, unless the miner overrides it, and touches nothing else.
pub proof fn lemma_set_difficulty_sets_share_target(v: MiningView, m: StratumMessage, target: u64)
    requires
        m.method matches Some(name) && name@ == "mining.set_difficulty"@,
        m.params matches Some(JsonValue::Array(items)) && items@.len() >= 1 && items@[0] == json_int(
            target,
        ),
    ensures
        after_message(v, m, false).zero_difficulty == (target % 256) as u8,
        after_message(v, m, false).job_id == v.job_id,
        after_message(v, m, false).block_data == v.block_data,
        after_message(v, m, false).refresh == v.refresh,
        after_message(v, m, false).network_difficulty == v.network_difficulty,
        after_message(v, m, true) == v,
{
    reveal_strlit("mining.notify");
    reveal_strlit("mining.set_difficulty");
    assert("mining.notify"@.len() != "mining.set_difficulty"@.len());
    assert(!has_method(m, "mining.notify"@));
}

} // verus!
