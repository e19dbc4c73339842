//! The promise executor: handshake, attribute-schema enforcement and the
//! request-dispatch state machine.
//!
//! A session moves through the phases uninitialized, ready, running and
//! terminated. The handshake makes the session ready; the first request of
//! any kind triggers exactly one call of the promise's init hook; a
//! terminate request ends the session, and nothing is processed after it.
//! Every request is validated against the promise's declared attribute
//! schema before any lifecycle hook runs, and a schema violation is fatal
//! for the run.

use vstd::prelude::*;

verus! {

use crate::attribute::{spec_has_type, AttributeType};
use crate::header::{spec_header_line, spec_parse_header, Header, PROTOCOL_VERSION};
use crate::log::{lines_extended, set_max_level, LevelFilter, LogGate};
use crate::protocol::{
    parse_request, spec_apply_outcome, spec_check_outcome, spec_parse_request, ApplyResult,
    AttributeError, CheckResult, EvaluateOutcome, EvaluateResponse, ProtocolError, ProtocolResult,
    Request, Response, RunError, TerminateResponse, ValidateResponse,
};
use crate::value::{str_eq, AttrMap, Value};
use crate::PromiseType;

/// Where a session stands.
#[derive(Debug, Clone, Copy, PartialEq, Eq, Structural)]
pub enum Phase {
    /// No handshake yet; no record may be processed.
    Uninitialized,
    /// Handshake done; the promise's init hook has not run yet.
    Ready,
    /// Init succeeded; requests are being served.
    Running,
    /// A terminate request was processed or the run ended on an error; no
    /// further record is processed.
    Terminated,
}

/// Mutable state of one session: its phase and its log gate.
#[derive(Debug)]
pub struct RunState {
    /// Where the session stands.
    pub phase: Phase,
    /// Severity threshold and collected side-channel lines.
    pub gate: LogGate,
}

impl RunState {
    /// A fresh session, before the handshake.
    pub fn new() -> (r: RunState)
        ensures
            r.phase == Phase::Uninitialized,
            r.gate.threshold == LevelFilter::Critical,
            r.gate.lines@.len() == 0,
    {
        RunState { phase: Phase::Uninitialized, gate: LogGate::new() }
    }
}

/// Whether `key` is declared by the required or the optional schema.
pub open spec fn spec_declared(
    required: Seq<(String, AttributeType)>,
    optional: Seq<(String, AttributeType)>,
    key: Seq<char>,
) -> bool {
    (exists|i: int| 0 <= i < required.len() && required[i].0@ == key) || (exists|i: int|
        0 <= i < optional.len() && optional[i].0@ == key)
}

/// Whether some declaration in `decls` names `key` and is broken by the
/// value the map supplies under that name.
pub open spec fn spec_type_violation(
    attributes: AttrMap,
    decls: Seq<(String, AttributeType)>,
    key: Seq<char>,
) -> bool {
    exists|i: int|
        0 <= i < decls.len() && decls[i].0@ == key && match attributes.spec_get(key) {
            Some(v) => !spec_has_type(decls[i].1, v),
            None => false,
        }
}

/// Whether an attribute map satisfies a declared schema: every required
/// name is present; every supplied value whose name is declared has its
/// declared type; and, unless unknown attributes are ignored, every
/// supplied name is declared. The `action_policy` name is the protocol's
/// check-only signal, carried inside the map, and is never counted as
/// unknown.
pub open spec fn spec_attributes_ok(
    attributes: AttrMap,
    required: Seq<(String, AttributeType)>,
    optional: Seq<(String, AttributeType)>,
    ignore_unknown: bool,
) -> bool {
    &&& forall|i: int|
        0 <= i < required.len() ==> attributes.spec_contains((#[trigger] required[i]).0@)
    &&& forall|i: int|
        0 <= i < required.len() ==> match attributes.spec_get((#[trigger] required[i]).0@) {
            Some(v) => spec_has_type(required[i].1, v),
            None => true,
        }
    &&& forall|i: int|
        0 <= i < optional.len() ==> match attributes.spec_get((#[trigger] optional[i]).0@) {
            Some(v) => spec_has_type(optional[i].1, v),
            None => true,
        }
    &&& !ignore_unknown ==> forall|j: int|
        0 <= j < attributes.entries@.len() ==> spec_declared(
            required,
            optional,
            (#[trigger] attributes.entries@[j]).0@,
        ) || attributes.entries@[j].0@ == "action_policy"@
}

/// Whether the apply hook is to run after a check with outcome
/// `check_outcome`: only on detected drift (the check reported the promise
/// not kept, or asked to always apply, both of which reduce to the outcome
/// not kept), and never in check-only mode. A check error ends the round
/// as an error: nothing is applied over it.
pub open spec fn spec_must_apply(check_outcome: EvaluateOutcome, check_only: bool) -> bool {
    !check_only && check_outcome == EvaluateOutcome::NotKept
}

/// Decides whether the apply hook runs after a check.
pub fn must_apply(check_outcome: EvaluateOutcome, check_only: bool) -> (r: bool)
    ensures
        r == spec_must_apply(check_outcome, check_only),
{
    !check_only && matches!(check_outcome, EvaluateOutcome::NotKept)
}

/// The final outcome of one evaluate round, given what the two hooks
/// returned: the apply outcome when an apply step is planned, else the
/// check outcome alone.
pub open spec fn spec_evaluate_final(
    check: CheckResult,
    apply: ApplyResult,
    check_only: bool,
) -> EvaluateOutcome {
    if spec_must_apply(spec_check_outcome(check), check_only) {
        spec_apply_outcome(apply)
    } else {
        spec_check_outcome(check)
    }
}

/// If the check hook reports the promise kept, the apply step is never
/// planned and the evaluate outcome is exactly kept, whatever the apply
/// hook would have returned and whether or not the run is check-only.
pub proof fn lemma_kept_skips_apply(
    check: CheckResult,
    apply: ApplyResult,
    check_only: bool,
)
    requires
        check == CheckResult::Kept,
    ensures
        !spec_must_apply(spec_check_outcome(check), check_only),
        spec_evaluate_final(check, apply, check_only) == EvaluateOutcome::Kept,
{
}

/// In check-only mode the apply step is never planned: the check outcome
/// stands as the final outcome, whatever the apply hook would have done,
/// and drift the check hook reports yields exactly the outcome not kept.
pub proof fn lemma_check_only_never_applies(check: CheckResult, apply: ApplyResult)
    ensures
        !spec_must_apply(spec_check_outcome(check), true),
        spec_evaluate_final(check, apply, true) == spec_check_outcome(check),
        check matches CheckResult::NotKept(_) ==> spec_evaluate_final(check, apply, true)
            == EvaluateOutcome::NotKept,
{
}

/// A check error ends the evaluate round as the outcome error: the apply
/// step is never planned over it, in audit mode or not, so an apply result
/// can never mask the error on the wire.
pub proof fn lemma_check_error_is_final(check: CheckResult, apply: ApplyResult, check_only: bool)
    requires
        check matches CheckResult::Error(_),
    ensures
        !spec_must_apply(spec_check_outcome(check), check_only),
        spec_evaluate_final(check, apply, check_only) == EvaluateOutcome::Error,
{
}

/// A schema with a required attribute absent from the map never
/// validates: the run ends with an attribute error before any lifecycle
/// hook is dispatched.
pub proof fn lemma_missing_required_rejects(
    attributes: AttrMap,
    required: Seq<(String, AttributeType)>,
    optional: Seq<(String, AttributeType)>,
    ignore_unknown: bool,
    i: int,
)
    requires
        0 <= i < required.len(),
        !attributes.spec_contains(required[i].0@),
    ensures
        !spec_attributes_ok(attributes, required, optional, ignore_unknown),
{
}

/// A supplied value without the kind its declaration requires never
/// validates, whether the declaration is required or optional.
pub proof fn lemma_type_mismatch_rejects(
    attributes: AttrMap,
    required: Seq<(String, AttributeType)>,
    optional: Seq<(String, AttributeType)>,
    ignore_unknown: bool,
    from_required: bool,
    i: int,
)
    requires
        from_required ==> 0 <= i < required.len() && (match attributes.spec_get(
            required[i].0@,
        ) {
            Some(v) => !spec_has_type(required[i].1, v),
            None => false,
        }),
        !from_required ==> 0 <= i < optional.len() && (match attributes.spec_get(
            optional[i].0@,
        ) {
            Some(v) => !spec_has_type(optional[i].1, v),
            None => false,
        }),
    ensures
        !spec_attributes_ok(attributes, required, optional, ignore_unknown),
{
}

/// Whether some declaration in `decls` names `key`.
fn contains_name(decls: &Vec<(String, AttributeType)>, key: &str) -> (r: bool)
    ensures
        r == exists|i: int| 0 <= i < decls@.len() && decls@[i].0@ == key@,
{
    let n = decls.len();
    let mut i: usize = 0;
    while i < n
        invariant
            n == decls@.len(),
            i <= n,
            forall|j: int| 0 <= j < i ==> decls@[j].0@ != key@,
        decreases n - i,
    {
        if str_eq(decls[i].0.as_str(), key) {
            return true;
        }
        i = i + 1;
    }
    false
}

/// What serving a batch of request records produced.
#[derive(Debug)]
pub struct RunReport {
    /// The response records, one per served request, in order.
    pub responses: Vec<Value>,
    /// Why the run ended early, if it did; the offending record got no
    /// response.
    pub error: Option<RunError>,
    /// How many records were read. Nothing after a terminate record or a
    /// fatal error is ever read.
    pub consumed: usize,
}

/// Promise executor: drives a pluggable promise implementation through the
/// request/response protocol.
pub struct Executor {
    /// Whether attributes outside the declared schema are accepted. The
    /// decision belongs to the executor, not to the promise itself.
    pub ignore_unknown_attributes: bool,
}

impl Executor {
    /// An executor that fails on unexpected attributes.
    pub fn new() -> (r: Executor)
        ensures
            !r.ignore_unknown_attributes,
    {
        Executor { ignore_unknown_attributes: false }
    }

    /// Changes the behaviour on unknown attributes.
    pub fn ignore_unknown_attributes(self, ignore_unknown_attributes: bool) -> (r: Executor)
        ensures
            r.ignore_unknown_attributes == ignore_unknown_attributes,
    {
        Executor { ignore_unknown_attributes }
    }

    /// Checks an attribute map against a declared schema. Returns the first
    /// violation found: a missing required attribute, then a value without
    /// its declared type, then an undeclared attribute name.
    pub fn check_attributes(
        &self,
        attributes: &AttrMap,
        required: &Vec<(String, AttributeType)>,
        optional: &Vec<(String, AttributeType)>,
    ) -> (r: Result<(), AttributeError>)
        ensures
            r is Ok <==> spec_attributes_ok(
                *attributes,
                required@,
                optional@,
                self.ignore_unknown_attributes,
            ),
            match r {
                Ok(_) => true,
                Err(e) => match e {
                    AttributeError::Missing(a) => (exists|i: int|
                        0 <= i < required@.len() && required@[i].0@ == a@)
                        && !attributes.spec_contains(a@),
                    AttributeError::TypeMismatch(a) => spec_type_violation(
                        *attributes,
                        required@,
                        a@,
                    ) || spec_type_violation(*attributes, optional@, a@),
                    AttributeError::Unexpected(a) => !self.ignore_unknown_attributes
                        && attributes.spec_contains(a@) && !spec_declared(required@, optional@, a@)
                        && a@ != "action_policy"@,
                },
            },
    {
        let nr = required.len();
        let mut i: usize = 0;
        while i < nr
            invariant
                nr == required@.len(),
                i <= nr,
                forall|j: int|
                    0 <= j < i ==> attributes.spec_contains((#[trigger] required@[j]).0@),
            decreases nr - i,
        {
            if !attributes.contains_key(required[i].0.as_str()) {
                return Err(AttributeError::Missing(required[i].0.clone()));
            }
            i = i + 1;
        }
        let mut i: usize = 0;
        while i < nr
            invariant
                nr == required@.len(),
                i <= nr,
                forall|j: int|
                    0 <= j < i ==> match attributes.spec_get((#[trigger] required@[j]).0@) {
                        Some(v) => spec_has_type(required@[j].1, v),
                        None => true,
                    },
            decreases nr - i,
        {
            match attributes.get(required[i].0.as_str()) {
                Some(v) => {
                    if !required[i].1.has_type(v) {
                        return Err(AttributeError::TypeMismatch(required[i].0.clone()));
                    }
                },
                None => (),
            }
            i = i + 1;
        }
        let no = optional.len();
        let mut i: usize = 0;
        while i < no
            invariant
                no == optional@.len(),
                i <= no,
                forall|j: int|
                    0 <= j < i ==> match attributes.spec_get((#[trigger] optional@[j]).0@) {
                        Some(v) => spec_has_type(optional@[j].1, v),
                        None => true,
                    },
            decreases no - i,
        {
            match attributes.get(optional[i].0.as_str()) {
                Some(v) => {
                    if !optional[i].1.has_type(v) {
                        return Err(AttributeError::TypeMismatch(optional[i].0.clone()));
                    }
                },
                None => (),
            }
            i = i + 1;
        }
        if !self.ignore_unknown_attributes {
            let na = attributes.entries.len();
            let mut j: usize = 0;
            while j < na
                invariant
                    !self.ignore_unknown_attributes,
                    na == attributes.entries@.len(),
                    j <= na,
                    forall|k: int|
                        0 <= k < j ==> spec_declared(
                            required@,
                            optional@,
                            (#[trigger] attributes.entries@[k]).0@,
                        ) || attributes.entries@[k].0@ == "action_policy"@,
                decreases na - j,
            {
                let known = contains_name(required, attributes.entries[j].0.as_str())
                    || contains_name(optional, attributes.entries[j].0.as_str()) || str_eq(
                    attributes.entries[j].0.as_str(),
                    "action_policy",
                );
                if !known {
                    let key = attributes.entries[j].0.clone();
                    proof {
                        crate::value::lemma_lookup_some(attributes.entries@, key@, j as int);
                        assert(!spec_attributes_ok(
                            *attributes,
                            required@,
                            optional@,
                            self.ignore_unknown_attributes,
                        )) by {
                            assert((#[trigger] attributes.entries@[j as int]).0@ == key@);
                        }
                    }
                    return Err(AttributeError::Unexpected(key));
                }
                j = j + 1;
            }
        }
        Ok(())
    }

    /// Performs the handshake: parses the peer's identity line, enforces
    /// protocol compatibility, and returns this side's own identity line to
    /// send. Runs exactly once, before any request record.
    pub fn negotiate(&self, own: &Header, state: &mut RunState, peer_line: &str) -> (r: Result<
        String,
        ProtocolError,
    >)
        requires
            old(state).phase == Phase::Uninitialized,
        ensures
            final(state).gate == old(state).gate,
            match r {
                Ok(reply) => {
                    &&& final(state).phase == Phase::Ready
                    &&& reply@ == spec_header_line(*own)
                    &&& spec_parse_header(peer_line@) matches Some((n, ver)) && ver
                        == PROTOCOL_VERSION@
                },
                Err(e) => final(state).phase == Phase::Terminated && match e {
                    ProtocolError::HeaderParse => spec_parse_header(peer_line@) is None,
                    ProtocolError::IncompatibleVersion => spec_parse_header(peer_line@) matches Some(
                        (n, ver),
                    ) && ver != PROTOCOL_VERSION@,
                    _ => false,
                },
            },
    {
        let peer = match Header::parse(peer_line) {
            Some(h) => h,
            None => {
                state.phase = Phase::Terminated;
                return Err(ProtocolError::HeaderParse);
            },
        };
        if !peer.compatible() {
            state.phase = Phase::Terminated;
            return Err(ProtocolError::IncompatibleVersion);
        }
        state.phase = Phase::Ready;
        Ok(own.to_line())
    }

    /// Processes one request record: runs the init hook if this is the
    /// first record, parses the record, enforces the attribute schema, sets
    /// the log threshold carried by the request, dispatches to the promise
    /// hooks, and builds the response echoing the request. Any error is
    /// fatal: the session is terminated and no response is produced for the
    /// offending record.
    pub fn handle_record<T: PromiseType>(
        &self,
        promise: &mut T,
        state: &mut RunState,
        record: Value,
    ) -> (r: Result<Response, RunError>)
        requires
            old(state).phase == Phase::Ready || old(state).phase == Phase::Running,
        ensures
            r is Err ==> final(state).phase == Phase::Terminated,
            r matches Ok(Response::Terminate(_)) ==> final(state).phase == Phase::Terminated,
            r is Ok && !(r matches Ok(Response::Terminate(_))) ==> final(state).phase
                == Phase::Running,
            r is Ok ==> spec_parse_request(record) is Some,
            r matches Err(RunError::Protocol(pe)) ==> pe == ProtocolError::BadRequest
                && spec_parse_request(record) is None,
            r matches Err(RunError::Init(_)) ==> old(state).phase == Phase::Ready
                && final(state).gate == old(state).gate,
            r matches Err(RunError::Protocol(_)) ==> final(state).gate == old(state).gate,
            r matches Err(RunError::Attribute(_)) ==> (spec_parse_request(record) matches Some(
                Request::Validate(vr),
            ) && final(state).gate.threshold == vr.log_level) || (spec_parse_request(
                record,
            ) matches Some(Request::Evaluate(er)) && final(state).gate.threshold == er.log_level),
            lines_extended(old(state).gate, final(state).gate),
            r matches Ok(Response::Validate(resp)) ==> spec_parse_request(record) matches Some(
                Request::Validate(vr),
            ) && resp.promiser == vr.promiser && resp.attributes == vr.attributes
                && final(state).gate.threshold == vr.log_level,
            r matches Ok(Response::Evaluate(resp)) ==> spec_parse_request(record) matches Some(
                Request::Evaluate(er),
            ) && resp.promiser == er.promiser && resp.attributes == er.attributes
                && final(state).gate.threshold == er.log_level,
            r matches Ok(Response::Terminate(_)) ==> spec_parse_request(record) == Some(
                Request::Terminate,
            ) && final(state).gate.threshold == old(state).gate.threshold,
    {
        if matches!(state.phase, Phase::Ready) {
            match promise.init() {
                ProtocolResult::Failure(e) => {
                    state.phase = Phase::Terminated;
                    return Err(RunError::Init(e));
                },
                ProtocolResult::Error(e) => {
                    state.phase = Phase::Terminated;
                    return Err(RunError::Init(e));
                },
                ProtocolResult::Success => {
                    state.phase = Phase::Running;
                },
            }
        }
        let req = match parse_request(record) {
            Ok(req) => req,
            Err(e) => {
                state.phase = Phase::Terminated;
                return Err(RunError::Protocol(e));
            },
        };
        match req {
            Request::Validate(vr) => {
                set_max_level(&mut state.gate, vr.log_level);
                let required = promise.required_attributes();
                let optional = promise.optional_attributes();
                match self.check_attributes(&vr.attributes, &required, &optional) {
                    Ok(_) => (),
                    Err(e) => {
                        state.phase = Phase::Terminated;
                        return Err(RunError::Attribute(e));
                    },
                }
                let result = promise.validate(vr.promiser.as_str(), &vr.attributes).outcome(
                    &mut state.gate,
                );
                Ok(Response::Validate(ValidateResponse::new(vr, result)))
            },
            Request::Evaluate(er) => {
                set_max_level(&mut state.gate, er.log_level);
                let required = promise.required_attributes();
                let optional = promise.optional_attributes();
                match self.check_attributes(&er.attributes, &required, &optional) {
                    Ok(_) => (),
                    Err(e) => {
                        state.phase = Phase::Terminated;
                        return Err(RunError::Attribute(e));
                    },
                }
                let mut result = promise.check(er.promiser.as_str(), &er.attributes).outcome(
                    er.check_only,
                    &mut state.gate,
                );
                if must_apply(result, er.check_only) {
                    result = promise.apply(er.promiser.as_str(), &er.attributes).outcome(
                        &mut state.gate,
                    );
                }
                Ok(Response::Evaluate(EvaluateResponse::new(er, result)))
            },
            Request::Terminate => {
                let result = promise.terminate().outcome(&mut state.gate);
                state.phase = Phase::Terminated;
                Ok(Response::Terminate(TerminateResponse::new(result)))
            },
        }
    }

    /// Serves a whole session of already-parsed request records, after the
    /// handshake. Records are read in order; reading stops right after the
    /// first terminate record, or with the record that caused a fatal
    /// error, which gets no response.
    pub fn run_records<T: PromiseType>(
        &self,
        promise: &mut T,
        state: &mut RunState,
        records: Vec<Value>,
    ) -> (r: RunReport)
        requires
            old(state).phase == Phase::Ready,
        ensures
            r.consumed <= records@.len(),
            forall|i: int|
                0 <= i < r.consumed ==> (spec_parse_request(records@[i]) == Some(Request::Terminate)
                    ==> i == r.consumed - 1),
            r.error is None ==> r.responses@.len() == r.consumed,
            r.error is Some ==> r.responses@.len() + 1 == r.consumed,
            r.error is None ==> (r.consumed == records@.len() || (r.consumed >= 1
                && spec_parse_request(records@[r.consumed - 1]) == Some(Request::Terminate))),
            r.error is Some ==> final(state).phase == Phase::Terminated,
            r.error is None && r.consumed >= 1 && spec_parse_request(records@[r.consumed - 1])
                == Some(Request::Terminate) ==> final(state).phase == Phase::Terminated,
            r.error matches Some(RunError::Protocol(_)) ==> r.consumed >= 1 && spec_parse_request(
                records@[r.consumed - 1],
            ) is None,
            r.error matches Some(RunError::Attribute(_)) ==> r.consumed >= 1 && (spec_parse_request(
                records@[r.consumed - 1],
            ) matches Some(Request::Validate(_)) || spec_parse_request(
                records@[r.consumed - 1],
            ) matches Some(Request::Evaluate(_))),
            r.error matches Some(RunError::Init(_)) ==> r.consumed == 1,
            r.error is None ==> forall|i: int|
                0 <= i < r.consumed ==> spec_parse_request(records@[i]) is Some,
            lines_extended(old(state).gate, final(state).gate),
    {
        let ghost original = records@;
        let total: usize = records.len();
        proof {
            assert(original.len() == total as nat);
        }
        let mut records = records;
        let mut responses: Vec<Value> = Vec::new();
        let mut error: Option<RunError> = None;
        let mut consumed: usize = 0;
        let mut done = false;
        proof {
            assert(records@ =~= original.skip(0));
        }
        while !done && error.is_none() && records.len() > 0
            invariant
                original.len() <= usize::MAX,
                consumed <= original.len(),
                consumed + records@.len() == original.len(),
                records@ == original.skip(consumed as int),
                forall|i: int|
                    0 <= i < consumed ==> (spec_parse_request(original[i]) == Some(
                        Request::Terminate,
                    ) ==> i == consumed - 1 && (done || error is Some)),
                error is None ==> responses@.len() == consumed,
                error is Some ==> responses@.len() + 1 == consumed,
                !done && error is None ==> (consumed == 0 && state.phase == Phase::Ready) || (
                consumed > 0 && state.phase == Phase::Running),
                done ==> error is None && consumed >= 1 && spec_parse_request(
                    original[consumed - 1],
                ) == Some(Request::Terminate) && state.phase == Phase::Terminated,
                error is Some ==> state.phase == Phase::Terminated,
                error matches Some(RunError::Protocol(_)) ==> consumed >= 1 && spec_parse_request(
                    original[consumed - 1],
                ) is None,
                error matches Some(RunError::Attribute(_)) ==> consumed >= 1 && (spec_parse_request(
                    original[consumed - 1],
                ) matches Some(Request::Validate(_)) || spec_parse_request(
                    original[consumed - 1],
                ) matches Some(Request::Evaluate(_))),
                error matches Some(RunError::Init(_)) ==> consumed == 1,
                error is None ==> forall|i: int|
                    0 <= i < consumed ==> spec_parse_request(original[i]) is Some,
                lines_extended(old(state).gate, state.gate),
            decreases records@.len(),
        {
            let rec = records.remove(0);
            proof {
                assert(rec == original[consumed as int]);
                assert(records@ =~= original.skip(consumed as int + 1));
            }
            consumed = consumed + 1;
            let ghost gate_before = state.gate;
            match self.handle_record(promise, state, rec) {
                Ok(resp) => {
                    let is_terminate = matches!(resp, Response::Terminate(_));
                    responses.push(resp.into_value());
                    if is_terminate {
                        done = true;
                    }
                },
                Err(e) => {
                    error = Some(e);
                },
            }
            proof {
                crate::log::lemma_lines_extended_trans(old(state).gate, gate_before, state.gate);
            }
        }
        RunReport { responses, error, consumed }
    }

    /// Reads one record from a stream of lines: the content line at `pos`,
    /// which the following line must terminate by being empty. Returns the
    /// content and the position after the record.
    pub fn read_line(lines: &Vec<String>, pos: usize) -> (r: Result<(String, usize), ProtocolError>)
        ensures
            match r {
                Ok((content, next)) => pos + 1 < lines@.len() && lines@[pos as int + 1]@.len() == 0
                    && content == lines@[pos as int] && next == pos + 2,
                Err(e) => e == ProtocolError::Framing && (pos + 1 >= lines@.len() || lines@[pos
                    as int + 1]@.len() != 0),
            },
    {
        if pos >= lines.len() || lines.len() - pos < 2 {
            return Err(ProtocolError::Framing);
        }
        if !lines[pos + 1].as_str().is_empty() {
            return Err(ProtocolError::Framing);
        }
        Ok((lines[pos].clone(), pos + 2))
    }

    /// Appends one framed record to `output`: the payload, its newline, and
    /// the empty separator line. The write is complete before the call
    /// returns, so each record is fully delivered before the next one is
    /// produced.
    pub fn write_line(output: &mut String, line: &str)
        ensures
            final(output)@ == old(output)@ + line@ + "\n\n"@,
    {
        output.append(line);
        output.append("\n\n");
    }
}

} // verus!
