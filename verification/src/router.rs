//! Op router: two id-partitioned protocol families, byte-count telemetry,
//! and the minimal protocol's envelope handling.
//!
//! An op id's thousands digit selects the protocol family (1 = minimal,
//! 2 = structured). Registration assigns ids monotonically within a family
//! and never reuses one. Routing an id with no registered handler is a fatal
//! protocol-desynchronization condition; every other failure is re-encoded
//! through the active protocol's error form. Telemetry is recorded twice per
//! call: received bytes once at dispatch entry, before any handler runs, and
//! sent bytes once at completion, enforced by a linear call token.
//!
//! Handlers themselves perform host work (I/O, awaits) and live with the
//! embedder; the router hands it the decoded request and the family, and the
//! embedder hands back the handler's outcome for encoding.

use vstd::prelude::*;
use vstd::string::*;
use vstd::utf8::encode_utf8;
use vstd::slice::slice_to_vec;
use crate::codec::{Record, ErrorRecord, spec_encode_record, spec_error_bytes, spec_decode_record,
    parse_min_record};
use crate::errors::OpError;

verus! {

/// The protocol family an op id belongs to.
#[derive(Copy, Clone, Debug, PartialEq, Eq, Structural)]
pub enum OpFamily {
    /// The fixed 3-int32 binary envelope, for latency-sensitive ops.
    Minimal,
    /// The structured-value envelope, for everything else.
    Structured,
}

/// Protocol desynchronization: the id maps to no registered handler in
/// either family, so the guest and host id tables have diverged and no local
/// recovery is possible.
#[derive(Copy, Clone, Debug, PartialEq, Eq, Structural)]
pub enum DispatchFatal {
    UnknownOp { op_id: u32 },
}

/// First id assigned in the minimal family; 0 is reserved and invalid, and
/// the round thousand itself is never assigned.
pub const MINIMAL_FIRST_OP_ID: u32 = 1001;

/// How many ids the minimal block can hold before it is full: ids 1001
/// through 1999.
pub const MINIMAL_FAMILY_CAPACITY: u32 = 999;

/// First id assigned in the structured family. The published table starts at
/// 2003; 2000 through 2002 are never assigned.
pub const STRUCTURED_FIRST_OP_ID: u32 = 2003;

/// How many ids the structured block can hold before it is full: ids 2003
/// through 2999.
pub const STRUCTURED_FAMILY_CAPACITY: u32 = 997;

/// The family an op id selects, by its thousands digit.
pub open spec fn family_of(op_id: u32) -> Option<OpFamily> {
    if op_id / 1000 == 1 {
        Some(OpFamily::Minimal)
    } else if op_id / 1000 == 2 {
        Some(OpFamily::Structured)
    } else {
        None
    }
}

/// Byte-count telemetry. Counters saturate at the top of their range rather
/// than wrap.
#[derive(Copy, Clone, Debug, PartialEq, Eq, Structural)]
pub struct Metrics {
    pub ops_dispatched: u64,
    pub ops_completed: u64,
    pub bytes_received: u64,
    pub bytes_sent: u64,
}

pub open spec fn sat_add_u64(a: u64, n: int) -> u64 {
    if a + n <= u64::MAX {
        (a + n) as u64
    } else {
        u64::MAX
    }
}

/// The entry-side telemetry transition: one dispatch and `received` bytes
/// recorded, nothing else touched.
pub open spec fn spec_record_dispatch(m: Metrics, received: int) -> Metrics {
    Metrics {
        ops_dispatched: sat_add_u64(m.ops_dispatched, 1),
        ops_completed: m.ops_completed,
        bytes_received: sat_add_u64(m.bytes_received, received),
        bytes_sent: m.bytes_sent,
    }
}

/// The completion-side telemetry transition: one completion and `sent` bytes
/// recorded, nothing else touched.
pub open spec fn spec_record_completion(m: Metrics, sent: int) -> Metrics {
    Metrics {
        ops_dispatched: m.ops_dispatched,
        ops_completed: sat_add_u64(m.ops_completed, 1),
        bytes_received: m.bytes_received,
        bytes_sent: sat_add_u64(m.bytes_sent, sent),
    }
}

fn sat_add(a: u64, b: u64) -> (r: u64)
    ensures
        r == sat_add_u64(a, b as int),
{
    match a.checked_add(b) {
        Some(s) => s,
        None => u64::MAX,
    }
}

/// Witness that one call was routed and its received bytes recorded. It is
/// handed out only by `dispatch` and consumed only by `complete`, so each
/// routed call records its completion exactly once.
#[derive(Debug)]
pub struct CallToken {
    op_id: u32,
}

impl CallToken {
    /// The id of the call this token stands for.
    pub closed spec fn op(self) -> u32 {
        self.op_id
    }
}

/// Registers named handlers under two id-partitioned families, routes
/// incoming calls by id, and records byte-count telemetry once on each side
/// of every call.
pub struct DispatchManager {
    minimal_names: Vec<String>,
    structured_names: Vec<String>,
    metrics: Metrics,
}

impl DispatchManager {
    /// The minimal-family op names, in id order: the name at position `i`
    /// owns id `MINIMAL_FIRST_OP_ID + i`.
    pub closed spec fn minimal_ops(self) -> Seq<Seq<char>> {
        self.minimal_names@.map_values(|s: String| s@)
    }

    /// The structured-family op names, in id order: the name at position `i`
    /// owns id `STRUCTURED_FIRST_OP_ID + i`.
    pub closed spec fn structured_ops(self) -> Seq<Seq<char>> {
        self.structured_names@.map_values(|s: String| s@)
    }

    pub closed spec fn telemetry(self) -> Metrics {
        self.metrics
    }

    /// Each family block holds at most its capacity of names, so every
    /// assigned id stays inside its family's thousand-range. Constructors
    /// establish this and every method preserves it.
    pub closed spec fn wf(self) -> bool {
        &&& self.minimal_names@.len() <= MINIMAL_FAMILY_CAPACITY
        &&& self.structured_names@.len() <= STRUCTURED_FAMILY_CAPACITY
    }

    /// `op_id` is bound to a registered minimal-family op.
    pub open spec fn minimal_registered(self, op_id: u32) -> bool {
        MINIMAL_FIRST_OP_ID <= op_id && op_id - MINIMAL_FIRST_OP_ID < self.minimal_ops().len()
    }

    /// `op_id` is bound to a registered structured-family op.
    pub open spec fn structured_registered(self, op_id: u32) -> bool {
        STRUCTURED_FIRST_OP_ID <= op_id && op_id - STRUCTURED_FIRST_OP_ID
            < self.structured_ops().len()
    }

    /// `op_id` is bound to a registered op in some family.
    pub open spec fn registered(self, op_id: u32) -> bool {
        self.minimal_registered(op_id) || self.structured_registered(op_id)
    }
}

fn contains_name(names: &Vec<String>, name: &str) -> (b: bool)
    ensures
        b == names@.map_values(|s: String| s@).contains(name@),
{
    let target = name.to_owned();
    let ghost views = names@.map_values(|s: String| s@);
    let mut i: usize = 0;
    while i < names.len()
        invariant
            i <= names@.len(),
            target@ == name@,
            views == names@.map_values(|s: String| s@),
            forall|j: int| 0 <= j < i ==> views[j] != name@,
        decreases names@.len() - i,
    {
        if names[i] == target {
            proof {
                assert(views[i as int] == name@);
            }
            return true;
        }
        i = i + 1;
    }
    proof {
        assert(forall|j: int| 0 <= j < views.len() ==> views[j] != name@);
    }
    false
}

/// Assigns the next unused id in the block starting at `first_id`, refusing
/// a duplicate name and a full block.
fn register_op_in(names: &mut Vec<String>, first_id: u32, capacity: u32, name: &str) -> (r:
    Option<u32>)
    requires
        first_id + capacity < u32::MAX,
    ensures
        match r {
            Some(id) => {
                &&& !old(names)@.map_values(|s: String| s@).contains(name@)
                &&& old(names)@.len() < capacity
                &&& id == first_id + old(names)@.len()
                &&& final(names)@.map_values(|s: String| s@) == old(names)@.map_values(
                    |s: String| s@,
                ).push(name@)
                &&& final(names)@.len() == old(names)@.len() + 1
            },
            None => {
                &&& (old(names)@.map_values(|s: String| s@).contains(name@) || old(
                    names,
                )@.len() >= capacity)
                &&& final(names)@ == old(names)@
            },
        },
{
    if contains_name(names, name) {
        return None;
    }
    if names.len() >= capacity as usize {
        return None;
    }
    let id = first_id + (names.len() as u32);
    names.push(name.to_owned());
    proof {
        assert(names@.map_values(|s: String| s@) =~= old(names)@.map_values(
            |s: String| s@,
        ).push(name@));
    }
    Some(id)
}

/// The standard negotiated table's minimal-family op names, in id order.
pub open spec fn standard_minimal_ops() -> Seq<Seq<char>> {
    seq!["read"@, "write"@]
}

/// The standard negotiated table's structured-family op names, in id order.
pub open spec fn standard_structured_ops() -> Seq<Seq<char>> {
    seq![
        "exit"@,
        "is_tty"@,
        "env"@,
        "exec_path"@,
        "utime"@,
        "set_env"@,
        "home_dir"@,
        "start"@,
        "apply_source_map"@,
        "format_error"@,
        "cache"@,
        "fetch_source_file"@,
        "open"@,
        "close"@,
        "seek"@,
        "fetch"@,
        "metrics"@,
        "repl_start"@,
        "repl_readline"@,
        "accept"@,
        "dial"@,
        "shutdown"@,
        "listen"@,
        "resources"@,
        "get_random_values"@,
        "global_timer_stop"@,
        "global_timer"@,
        "now"@,
        "permissions"@,
        "revoke_permission"@,
        "create_worker"@,
        "host_get_worker_closed"@,
        "host_post_message"@,
        "host_get_message"@,
        "worker_post_message"@,
        "worker_get_message"@,
        "run"@,
        "run_status"@,
        "kill"@,
        "chdir"@,
        "mkdir"@,
        "chmod"@,
        "chown"@,
        "remove"@,
        "copy_file"@,
        "stat"@,
        "read_dir"@,
        "rename"@,
        "link"@,
        "symlink"@,
        "read_link"@,
        "truncate"@,
        "make_temp_dir"@,
        "cwd"@,
        "fetch_asset"@,
    ]
}

impl DispatchManager {
    /// A manager holding the standard negotiated op table: the bulk-data ops
    /// read and write at 1001 and 1002, and the 55 host operations of the
    /// structured family at their published ids 2003 through 2057, each name
    /// owning the id at its position. Once a table is published to the
    /// guest, ids must never be renumbered.
    #[verifier::rlimit(60)]
    pub fn new() -> (d: DispatchManager)
        ensures
            d.wf(),
            d.minimal_ops() == standard_minimal_ops(),
            d.structured_ops() == standard_structured_ops(),
            d.telemetry() == (Metrics {
                ops_dispatched: 0,
                ops_completed: 0,
                bytes_received: 0,
                bytes_sent: 0,
            }),
    {
        let mut m: Vec<String> = Vec::new();
        m.push("read".to_owned());
        m.push("write".to_owned());
        let mut s: Vec<String> = Vec::new();
        s.push("exit".to_owned());
        s.push("is_tty".to_owned());
        s.push("env".to_owned());
        s.push("exec_path".to_owned());
        s.push("utime".to_owned());
        s.push("set_env".to_owned());
        s.push("home_dir".to_owned());
        s.push("start".to_owned());
        s.push("apply_source_map".to_owned());
        s.push("format_error".to_owned());
        s.push("cache".to_owned());
        s.push("fetch_source_file".to_owned());
        s.push("open".to_owned());
        s.push("close".to_owned());
        s.push("seek".to_owned());
        s.push("fetch".to_owned());
        s.push("metrics".to_owned());
        s.push("repl_start".to_owned());
        s.push("repl_readline".to_owned());
        s.push("accept".to_owned());
        s.push("dial".to_owned());
        s.push("shutdown".to_owned());
        s.push("listen".to_owned());
        s.push("resources".to_owned());
        s.push("get_random_values".to_owned());
        s.push("global_timer_stop".to_owned());
        s.push("global_timer".to_owned());
        s.push("now".to_owned());
        s.push("permissions".to_owned());
        s.push("revoke_permission".to_owned());
        s.push("create_worker".to_owned());
        s.push("host_get_worker_closed".to_owned());
        s.push("host_post_message".to_owned());
        s.push("host_get_message".to_owned());
        s.push("worker_post_message".to_owned());
        s.push("worker_get_message".to_owned());
        s.push("run".to_owned());
        s.push("run_status".to_owned());
        s.push("kill".to_owned());
        s.push("chdir".to_owned());
        s.push("mkdir".to_owned());
        s.push("chmod".to_owned());
        s.push("chown".to_owned());
        s.push("remove".to_owned());
        s.push("copy_file".to_owned());
        s.push("stat".to_owned());
        s.push("read_dir".to_owned());
        s.push("rename".to_owned());
        s.push("link".to_owned());
        s.push("symlink".to_owned());
        s.push("read_link".to_owned());
        s.push("truncate".to_owned());
        s.push("make_temp_dir".to_owned());
        s.push("cwd".to_owned());
        s.push("fetch_asset".to_owned());
        let d = DispatchManager {
            minimal_names: m,
            structured_names: s,
            metrics: Metrics {
                ops_dispatched: 0,
                ops_completed: 0,
                bytes_received: 0,
                bytes_sent: 0,
            },
        };
        proof {
            assert(d.minimal_ops() =~= standard_minimal_ops());
            assert(d.structured_ops() =~= standard_structured_ops());
        }
        d
    }

    /// Registers a minimal-family handler name and assigns the next unused
    /// id in the family. A duplicate name within the family is refused, an
    /// initialization-time fatal condition for the embedder, as is a full
    /// family block; nothing is changed in either case.
    pub fn register_minimal_op(&mut self, name: &str) -> (r: Option<u32>)
        requires
            old(self).wf(),
        ensures
            final(self).wf(),
            match r {
                Some(id) => {
                    &&& !old(self).minimal_ops().contains(name@)
                    &&& id == MINIMAL_FIRST_OP_ID + old(self).minimal_ops().len()
                    &&& family_of(id) == Some(OpFamily::Minimal)
                    &&& !old(self).registered(id)
                    &&& final(self).registered(id)
                    &&& final(self).minimal_ops() == old(self).minimal_ops().push(name@)
                },
                None => {
                    &&& (old(self).minimal_ops().contains(name@) || old(
                        self,
                    ).minimal_ops().len() >= MINIMAL_FAMILY_CAPACITY)
                    &&& final(self).minimal_ops() == old(self).minimal_ops()
                },
            },
            final(self).structured_ops() == old(self).structured_ops(),
            final(self).telemetry() == old(self).telemetry(),
    {
        register_op_in(&mut self.minimal_names, MINIMAL_FIRST_OP_ID, MINIMAL_FAMILY_CAPACITY, name)
    }

    /// Registers a structured-family handler name; the same contract as the
    /// minimal side, in the structured id block.
    pub fn register_json_op(&mut self, name: &str) -> (r: Option<u32>)
        requires
            old(self).wf(),
        ensures
            final(self).wf(),
            match r {
                Some(id) => {
                    &&& !old(self).structured_ops().contains(name@)
                    &&& id == STRUCTURED_FIRST_OP_ID + old(self).structured_ops().len()
                    &&& family_of(id) == Some(OpFamily::Structured)
                    &&& !old(self).registered(id)
                    &&& final(self).registered(id)
                    &&& final(self).structured_ops() == old(self).structured_ops().push(name@)
                },
                None => {
                    &&& (old(self).structured_ops().contains(name@) || old(
                        self,
                    ).structured_ops().len() >= STRUCTURED_FAMILY_CAPACITY)
                    &&& final(self).structured_ops() == old(self).structured_ops()
                },
            },
            final(self).minimal_ops() == old(self).minimal_ops(),
            final(self).telemetry() == old(self).telemetry(),
    {
        register_op_in(
            &mut self.structured_names,
            STRUCTURED_FIRST_OP_ID,
            STRUCTURED_FAMILY_CAPACITY,
            name,
        )
    }

    /// Routes one incoming call. The family comes from the id's thousands
    /// digit; an id with no registered handler is refused as the fatal
    /// unknown-op condition and records nothing. On success the received
    /// byte count (control plus raw buffers) is recorded exactly once,
    /// before any handler runs, and the returned token must be handed to
    /// `complete` once the outcome is encoded.
    pub fn dispatch(&mut self, op_id: u32, control: &[u8], zero_copy_len: usize) -> (r: Result<
        (OpFamily, CallToken),
        DispatchFatal,
    >)
        requires
            old(self).wf(),
        ensures
            final(self).wf(),
            r is Ok <==> old(self).registered(op_id),
            match r {
                Ok((family, token)) => {
                    &&& family_of(op_id) == Some(family)
                    &&& family == OpFamily::Minimal <==> old(self).minimal_registered(op_id)
                    &&& token.op() == op_id
                    &&& final(self).telemetry() == spec_record_dispatch(
                        old(self).telemetry(),
                        control@.len() + zero_copy_len,
                    )
                },
                Err(e) => {
                    &&& e == (DispatchFatal::UnknownOp { op_id })
                    &&& final(self).telemetry() == old(self).telemetry()
                },
            },
            final(self).minimal_ops() == old(self).minimal_ops(),
            final(self).structured_ops() == old(self).structured_ops(),
    {
        let in_minimal = op_id >= MINIMAL_FIRST_OP_ID && ((op_id - MINIMAL_FIRST_OP_ID) as usize)
            < self.minimal_names.len();
        let in_structured = op_id >= STRUCTURED_FIRST_OP_ID && ((op_id
            - STRUCTURED_FIRST_OP_ID) as usize) < self.structured_names.len();
        if !in_minimal && !in_structured {
            return Err(DispatchFatal::UnknownOp { op_id });
        }
        let family = if in_minimal {
            OpFamily::Minimal
        } else {
            OpFamily::Structured
        };
        let received = sat_add(self.metrics.bytes_received, control.len() as u64);
        let received = sat_add(received, zero_copy_len as u64);
        self.metrics.bytes_received = received;
        self.metrics.ops_dispatched = sat_add(self.metrics.ops_dispatched, 1);
        Ok((family, CallToken { op_id }))
    }

    /// The telemetry recorded so far.
    pub fn metrics(&self) -> (m: Metrics)
        ensures
            m == self.telemetry(),
    {
        self.metrics
    }

    /// Records completion telemetry for one routed call: one completion and
    /// the sent byte count, exactly once, because the consumed token cannot
    /// be duplicated or rebuilt by the embedder.
    pub fn complete(&mut self, token: CallToken, response_len: usize)
        ensures
            final(self).telemetry() == spec_record_completion(
                old(self).telemetry(),
                response_len as int,
            ),
            final(self).minimal_ops() == old(self).minimal_ops(),
            final(self).structured_ops() == old(self).structured_ops(),
            final(self).wf() == old(self).wf(),
    {
        let _consumed = token;
        self.metrics.bytes_sent = sat_add(self.metrics.bytes_sent, response_len as u64);
        self.metrics.ops_completed = sat_add(self.metrics.ops_completed, 1);
    }
}

/// A minimal call is synchronous exactly when its correlation id is 0. This
/// is the one place the sentinel is interpreted; handlers only ever see the
/// result of this check.
pub fn is_sync_call(record: &Record) -> (b: bool)
    ensures
        b == (record.promise_id == 0),
{
    record.promise_id == 0
}

/// The error-kind tag answered for an unparsable control buffer.
pub open spec fn unparsable_kind() -> Seq<char> {
    "TypeError"@
}

/// The message answered for an unparsable control buffer.
pub open spec fn unparsable_message() -> Seq<char> {
    "Unparsable control buffer"@
}

/// Decodes the control bytes of a minimal-family call. Succeeds exactly on a
/// well-formed 12-byte control record; a malformed control buffer is
/// answered immediately with an encoded TypeError record under correlation
/// id 0, never a fault.
pub fn minimal_request(control: &[u8]) -> (r: Result<Record, Vec<u8>>)
    ensures
        r is Ok <==> control@.len() == 12,
        match r {
            Ok(rec) => spec_decode_record(control@) == Some(rec),
            Err(bytes) => bytes@ == spec_error_bytes(
                0i32,
                -1i32,
                9,
                encode_utf8(unparsable_kind()),
                encode_utf8(unparsable_message()),
            ),
        },
{
    match parse_min_record(control) {
        Some(rec) => Ok(rec),
        None => {
            let code = "TypeError";
            let message = "Unparsable control buffer";
            let error_record = ErrorRecord {
                promise_id: 0,
                arg: -1,
                // the byte length of the code tag above
                error_len: 9,
                error_code: slice_to_vec(code.as_bytes()),
                error_message: slice_to_vec(message.as_bytes()),
            };
            Err(error_record.encode())
        },
    }
}

/// Encodes a minimal-family handler outcome, for the synchronous and the
/// asynchronous path alike: on success the control record is echoed with
/// `result` filled in; on failure an error record preserves the original
/// correlation id and carries the exact code and message bytes, padded but
/// never truncated.
pub fn minimal_response(record: Record, outcome: Result<i32, OpError>) -> (r: Vec<u8>)
    requires
        outcome matches Err(e) ==> encode_utf8(e.kind@).len() <= i32::MAX,
    ensures
        match outcome {
            Ok(v) => r@ == spec_encode_record(
                Record { promise_id: record.promise_id, arg: record.arg, result: v },
            ),
            Err(e) => r@ == spec_error_bytes(
                record.promise_id,
                -1i32,
                encode_utf8(e.kind@).len() as i32,
                encode_utf8(e.kind@),
                encode_utf8(e.message@),
            ),
        },
        r@.len() % 4 == 0,
{
    match outcome {
        Ok(v) => {
            let rec = Record { promise_id: record.promise_id, arg: record.arg, result: v };
            rec.encode()
        },
        Err(e) => {
            let code_bytes = slice_to_vec(e.kind.as_str().as_bytes());
            let msg_bytes = slice_to_vec(e.message.as_str().as_bytes());
            let n = code_bytes.len();
            let error_record = ErrorRecord {
                promise_id: record.promise_id,
                arg: -1,
                error_len: n as i32,
                error_code: code_bytes,
                error_message: msg_bytes,
            };
            error_record.encode()
        },
    }
}

/// The two registration ranges are disjoint: an op id reaches a handler in
/// at most one family, so a minimal id can never route into the structured
/// table nor the other way round.
pub proof fn lemma_id_ranges_disjoint(d: DispatchManager, op_id: u32)
    requires
        d.wf(),
    ensures
        !(d.minimal_registered(op_id) && d.structured_registered(op_id)),
{
}

/// Over one full call, each side of the telemetry is recorded exactly once:
/// the dispatched and completed counts each rise by exactly one, and the
/// byte counters absorb exactly the received and sent counts (stated away
/// from counter saturation).
pub proof fn lemma_call_telemetry_once(m0: Metrics, received: int, sent: int)
    requires
        0 <= received,
        0 <= sent,
        m0.ops_dispatched < u64::MAX,
        m0.ops_completed < u64::MAX,
        m0.bytes_received + received <= u64::MAX,
        m0.bytes_sent + sent <= u64::MAX,
    ensures
        ({
            let m2 = spec_record_completion(spec_record_dispatch(m0, received), sent);
            &&& m2.ops_dispatched == m0.ops_dispatched + 1
            &&& m2.ops_completed == m0.ops_completed + 1
            &&& m2.bytes_received == m0.bytes_received + received
            &&& m2.bytes_sent == m0.bytes_sent + sent
        }),
{
}

} // verus!
