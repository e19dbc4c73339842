//! Messages and outcomes of the request/response protocol.
//!
//! A promise hook computes a rich result (with reasons); the executor
//! reduces it to the coarse wire-visible outcome, dropping the reason into
//! the severity-gated log side channel. Requests arrive as structured
//! [`Value`]s discriminated by an `operation` field; responses mirror the
//! request and add a `result` field.

use vstd::prelude::*;

verus! {

use crate::log::{gate_step, spec_parse_filter, Level, LevelFilter, LogGate};
use crate::value::{lemma_lookup_at, lemma_lookup_none, lookup_entry, str_eq, AttrMap, Value};

/// Violation of the wire protocol itself: fatal, no response is written for
/// the offending record.
#[derive(Debug, Clone, PartialEq, Eq, Structural)]
pub enum ProtocolError {
    /// A record was not terminated by the expected blank line, or input
    /// ended inside a record.
    Framing,
    /// The peer's identity line was not of the form `<name> <version>`.
    HeaderParse,
    /// The peer announced a protocol version this library does not speak.
    IncompatibleVersion,
    /// A record was not one of the known request shapes.
    BadRequest,
}

/// Violation of the declared attribute schema: fatal for the run, raised
/// before any lifecycle hook is invoked for the request.
#[derive(Debug, Clone, PartialEq)]
pub enum AttributeError {
    /// A required attribute is absent; carries its name.
    Missing(String),
    /// A supplied attribute does not have its declared type; carries its
    /// name.
    TypeMismatch(String),
    /// An attribute outside the declared schema was supplied while unknown
    /// attributes are not ignored; carries its name.
    Unexpected(String),
}

/// Why a run ended before a terminate request.
#[derive(Debug, Clone, PartialEq)]
pub enum RunError {
    /// The wire protocol was violated.
    Protocol(ProtocolError),
    /// A request broke the declared attribute schema.
    Attribute(AttributeError),
    /// The init hook reported failure; carries its reason. No request is
    /// dispatched in such a run.
    Init(String),
}

/// Wire-visible outcome of a validate request.
#[derive(Debug, Clone, Copy, PartialEq, Eq, Structural)]
pub enum ValidateOutcome {
    /// Validation successful.
    Valid,
    /// Validation failed: an error in the supplied policy.
    Invalid,
    /// Unexpected error.
    Error,
}

/// Wire-visible outcome of an evaluate request.
#[derive(Debug, Clone, Copy, PartialEq, Eq, Structural)]
pub enum EvaluateOutcome {
    /// Satisfied already, no change.
    Kept,
    /// Not satisfied before, but fixed.
    Repaired,
    /// Not satisfied before, not fixed.
    NotKept,
    /// Unexpected error.
    Error,
}

/// Wire-visible outcome of a terminate request.
#[derive(Debug, Clone, Copy, PartialEq, Eq, Structural)]
pub enum ProtocolOutcome {
    /// Success.
    Success,
    /// The hook reported failure.
    Failure,
    /// Unexpected error.
    Error,
}

/// Result of the validate hook.
#[derive(Debug, Clone, PartialEq)]
pub enum ValidateResult {
    /// Validation successful.
    Valid,
    /// Validation failed: an error in the supplied policy. The reason is
    /// logged at error severity.
    Invalid(String),
    /// Unexpected error. The reason is logged at error severity.
    Error(String),
}

/// Result of the check hook.
#[derive(Debug, Clone, PartialEq)]
pub enum CheckResult {
    /// Satisfied already, no change needed.
    Kept,
    /// The promise is an action without a sensible test and should always
    /// be applied.
    AlwaysApply,
    /// Not satisfied. The reason is logged at error severity in check-only
    /// mode (drift found but left alone), at info severity otherwise (a fix
    /// is about to be attempted).
    NotKept(String),
    /// Unexpected error. The reason is logged at error severity.
    Error(String),
}

/// Result of the apply hook.
#[derive(Debug, Clone, PartialEq)]
pub enum ApplyResult {
    /// Satisfied already, no change made.
    Kept,
    /// Not satisfied before, but fixed. The reason is logged at info
    /// severity.
    Repaired(String),
    /// Not satisfied before, not fixed. The reason is logged at error
    /// severity.
    NotKept(String),
    /// Unexpected error. The reason is logged at error severity.
    Error(String),
    /// The promise may only be checked, never applied.
    AuditOnly,
}

/// Result of the init and terminate hooks.
#[derive(Debug, Clone, PartialEq)]
pub enum ProtocolResult {
    /// Success.
    Success,
    /// The hook failed. The reason is logged at error severity.
    Failure(String),
    /// Unexpected error. The reason is logged at error severity.
    Error(String),
}

/// Outcome a validate result reduces to.
pub open spec fn spec_validate_outcome(r: ValidateResult) -> ValidateOutcome {
    match r {
        ValidateResult::Valid => ValidateOutcome::Valid,
        ValidateResult::Invalid(_) => ValidateOutcome::Invalid,
        ValidateResult::Error(_) => ValidateOutcome::Error,
    }
}

/// Log event a validate result emits.
pub open spec fn spec_validate_log(r: ValidateResult) -> Option<(Level, Seq<char>)> {
    match r {
        ValidateResult::Valid => None,
        ValidateResult::Invalid(e) => Some((Level::Error, e@)),
        ValidateResult::Error(e) => Some((Level::Error, e@)),
    }
}

/// Outcome a check result reduces to.
pub open spec fn spec_check_outcome(r: CheckResult) -> EvaluateOutcome {
    match r {
        CheckResult::Kept => EvaluateOutcome::Kept,
        CheckResult::AlwaysApply => EvaluateOutcome::NotKept,
        CheckResult::NotKept(_) => EvaluateOutcome::NotKept,
        CheckResult::Error(_) => EvaluateOutcome::Error,
    }
}

/// Log event a check result emits; drift found in check-only mode is an
/// error (it will not be fixed), otherwise informational.
pub open spec fn spec_check_log(r: CheckResult, is_check_only: bool) -> Option<(Level, Seq<char>)> {
    match r {
        CheckResult::Kept => None,
        CheckResult::AlwaysApply => Some((Level::Info, "This promise needs to be applied"@)),
        CheckResult::NotKept(e) => Some(
            (if is_check_only { Level::Error } else { Level::Info }, e@),
        ),
        CheckResult::Error(e) => Some((Level::Error, e@)),
    }
}

/// Outcome an apply result reduces to.
pub open spec fn spec_apply_outcome(r: ApplyResult) -> EvaluateOutcome {
    match r {
        ApplyResult::Kept => EvaluateOutcome::Kept,
        ApplyResult::Repaired(_) => EvaluateOutcome::Repaired,
        ApplyResult::NotKept(_) => EvaluateOutcome::NotKept,
        ApplyResult::Error(_) => EvaluateOutcome::Error,
        ApplyResult::AuditOnly => EvaluateOutcome::Error,
    }
}

/// Log event an apply result emits.
pub open spec fn spec_apply_log(r: ApplyResult) -> Option<(Level, Seq<char>)> {
    match r {
        ApplyResult::Kept => None,
        ApplyResult::Repaired(m) => Some((Level::Info, m@)),
        ApplyResult::NotKept(e) => Some((Level::Error, e@)),
        ApplyResult::Error(e) => Some((Level::Error, e@)),
        ApplyResult::AuditOnly => Some(
            (Level::Error, "Should not be applied, audit only promise"@),
        ),
    }
}

/// Outcome an init or terminate result reduces to.
pub open spec fn spec_protocol_outcome(r: ProtocolResult) -> ProtocolOutcome {
    match r {
        ProtocolResult::Success => ProtocolOutcome::Success,
        ProtocolResult::Failure(_) => ProtocolOutcome::Failure,
        ProtocolResult::Error(_) => ProtocolOutcome::Error,
    }
}

/// Log event an init or terminate result emits.
pub open spec fn spec_protocol_log(r: ProtocolResult) -> Option<(Level, Seq<char>)> {
    match r {
        ProtocolResult::Success => None,
        ProtocolResult::Failure(e) => Some((Level::Error, e@)),
        ProtocolResult::Error(e) => Some((Level::Error, e@)),
    }
}

impl ValidateResult {
    /// Reduces this result to its wire outcome, logging the reason.
    pub fn outcome(&self, gate: &mut LogGate) -> (o: ValidateOutcome)
        ensures
            o == spec_validate_outcome(*self),
            gate_step(*old(gate), *final(gate), spec_validate_log(*self)),
    {
        match self {
            ValidateResult::Valid => ValidateOutcome::Valid,
            ValidateResult::Invalid(e) => {
                gate.emit(Level::Error, e.as_str());
                ValidateOutcome::Invalid
            },
            ValidateResult::Error(e) => {
                gate.emit(Level::Error, e.as_str());
                ValidateOutcome::Error
            },
        }
    }
}

impl CheckResult {
    /// Reduces this result to its wire outcome, logging the reason. Drift
    /// found in check-only mode is logged as an error, otherwise as info.
    pub fn outcome(&self, is_check_only: bool, gate: &mut LogGate) -> (o: EvaluateOutcome)
        ensures
            o == spec_check_outcome(*self),
            gate_step(*old(gate), *final(gate), spec_check_log(*self, is_check_only)),
    {
        match self {
            CheckResult::Kept => EvaluateOutcome::Kept,
            CheckResult::AlwaysApply => {
                gate.emit(Level::Info, "This promise needs to be applied");
                EvaluateOutcome::NotKept
            },
            CheckResult::NotKept(e) => {
                if is_check_only {
                    gate.emit(Level::Error, e.as_str());
                } else {
                    gate.emit(Level::Info, e.as_str());
                }
                EvaluateOutcome::NotKept
            },
            CheckResult::Error(e) => {
                gate.emit(Level::Error, e.as_str());
                EvaluateOutcome::Error
            },
        }
    }
}

impl ApplyResult {
    /// Reduces this result to its wire outcome, logging the reason.
    pub fn outcome(&self, gate: &mut LogGate) -> (o: EvaluateOutcome)
        ensures
            o == spec_apply_outcome(*self),
            gate_step(*old(gate), *final(gate), spec_apply_log(*self)),
    {
        match self {
            ApplyResult::Kept => EvaluateOutcome::Kept,
            ApplyResult::Repaired(m) => {
                gate.emit(Level::Info, m.as_str());
                EvaluateOutcome::Repaired
            },
            ApplyResult::NotKept(e) => {
                gate.emit(Level::Error, e.as_str());
                EvaluateOutcome::NotKept
            },
            ApplyResult::Error(e) => {
                gate.emit(Level::Error, e.as_str());
                EvaluateOutcome::Error
            },
            ApplyResult::AuditOnly => {
                gate.emit(Level::Error, "Should not be applied, audit only promise");
                EvaluateOutcome::Error
            },
        }
    }
}

impl ProtocolResult {
    /// Reduces this result to its wire outcome, logging the reason.
    pub fn outcome(&self, gate: &mut LogGate) -> (o: ProtocolOutcome)
        ensures
            o == spec_protocol_outcome(*self),
            gate_step(*old(gate), *final(gate), spec_protocol_log(*self)),
    {
        match self {
            ProtocolResult::Success => ProtocolOutcome::Success,
            ProtocolResult::Failure(e) => {
                gate.emit(Level::Error, e.as_str());
                ProtocolOutcome::Failure
            },
            ProtocolResult::Error(e) => {
                gate.emit(Level::Error, e.as_str());
                ProtocolOutcome::Error
            },
        }
    }
}

/// A validate request: check the attributes against the promise's own
/// rules, beyond the declared schema.
#[derive(Debug, PartialEq)]
pub struct ValidateRequest {
    /// Severity threshold to set before dispatching.
    pub log_level: LevelFilter,
    /// Subject the promise applies to.
    pub promiser: String,
    /// Named parameters of this invocation.
    pub attributes: AttrMap,
}

/// An evaluate request: check the promised state and, unless in check-only
/// mode, repair detected drift.
#[derive(Debug, PartialEq)]
pub struct EvaluateRequest {
    /// Severity threshold to set before dispatching.
    pub log_level: LevelFilter,
    /// Subject the promise applies to.
    pub promiser: String,
    /// Named parameters of this invocation.
    pub attributes: AttrMap,
    /// Whether the request carries the check-only signal: evaluate and
    /// report drift without mutating state. On the wire the signal is the
    /// presence of an `action_policy` attribute.
    pub check_only: bool,
}

/// A request record, discriminated by its `operation` field.
#[derive(Debug, PartialEq)]
pub enum Request {
    /// Check attribute validity.
    Validate(ValidateRequest),
    /// Check the promised state and possibly repair it.
    Evaluate(EvaluateRequest),
    /// End the session.
    Terminate,
}

/// The fields shared by validate and evaluate requests, as the lookup of
/// `log_level`, `promiser` and `attributes` in a request object yields
/// them, if all three are present and well typed.
pub open spec fn spec_promise_fields(entries: Seq<(String, Value)>) -> Option<
    (LevelFilter, String, AttrMap),
> {
    match (
        lookup_entry(entries, "log_level"@),
        lookup_entry(entries, "promiser"@),
        lookup_entry(entries, "attributes"@),
    ) {
        (Some(Value::Str(ll)), Some(Value::Str(p)), Some(Value::Object(m))) => match spec_parse_filter(
            ll@,
        ) {
            Some(f) => Some((f, p, AttrMap { entries: m })),
            None => None,
        },
        _ => None,
    }
}

/// The request a record denotes, if it is one of the known request shapes.
pub open spec fn spec_parse_request(v: Value) -> Option<Request> {
    match v {
        Value::Object(entries) => match lookup_entry(entries@, "operation"@) {
            Some(Value::Str(op)) => if op@ == "validate_promise"@ {
                match spec_promise_fields(entries@) {
                    Some((f, p, m)) => Some(
                        Request::Validate(
                            ValidateRequest { log_level: f, promiser: p, attributes: m },
                        ),
                    ),
                    None => None,
                }
            } else if op@ == "evaluate_promise"@ {
                match spec_promise_fields(entries@) {
                    Some((f, p, m)) => Some(
                        Request::Evaluate(
                            EvaluateRequest {
                                log_level: f,
                                promiser: p,
                                attributes: m,
                                check_only: m.spec_contains("action_policy"@),
                            },
                        ),
                    ),
                    None => None,
                }
            } else if op@ == "terminate"@ {
                Some(Request::Terminate)
            } else {
                None
            },
            _ => None,
        },
        _ => None,
    }
}

/// The wire word for a validate outcome.
pub open spec fn spec_validate_outcome_str(o: ValidateOutcome) -> Seq<char> {
    match o {
        ValidateOutcome::Valid => "valid"@,
        ValidateOutcome::Invalid => "invalid"@,
        ValidateOutcome::Error => "error"@,
    }
}

/// The wire word for an evaluate outcome.
pub open spec fn spec_evaluate_outcome_str(o: EvaluateOutcome) -> Seq<char> {
    match o {
        EvaluateOutcome::Kept => "kept"@,
        EvaluateOutcome::Repaired => "repaired"@,
        EvaluateOutcome::NotKept => "not_kept"@,
        EvaluateOutcome::Error => "error"@,
    }
}

/// The wire word for a terminate outcome.
pub open spec fn spec_protocol_outcome_str(o: ProtocolOutcome) -> Seq<char> {
    match o {
        ProtocolOutcome::Success => "success"@,
        ProtocolOutcome::Failure => "failure"@,
        ProtocolOutcome::Error => "error"@,
    }
}

impl ValidateOutcome {
    /// The wire word for this outcome.
    pub fn as_str(&self) -> (r: &'static str)
        ensures
            r@ == spec_validate_outcome_str(*self),
    {
        match self {
            ValidateOutcome::Valid => "valid",
            ValidateOutcome::Invalid => "invalid",
            ValidateOutcome::Error => "error",
        }
    }
}

impl EvaluateOutcome {
    /// The wire word for this outcome.
    pub fn as_str(&self) -> (r: &'static str)
        ensures
            r@ == spec_evaluate_outcome_str(*self),
    {
        match self {
            EvaluateOutcome::Kept => "kept",
            EvaluateOutcome::Repaired => "repaired",
            EvaluateOutcome::NotKept => "not_kept",
            EvaluateOutcome::Error => "error",
        }
    }
}

impl ProtocolOutcome {
    /// The wire word for this outcome.
    pub fn as_str(&self) -> (r: &'static str)
        ensures
            r@ == spec_protocol_outcome_str(*self),
    {
        match self {
            ProtocolOutcome::Success => "success",
            ProtocolOutcome::Failure => "failure",
            ProtocolOutcome::Error => "error",
        }
    }
}

/// Response to a validate request, echoing its promiser and attributes.
#[derive(Debug, PartialEq)]
pub struct ValidateResponse {
    /// The subject of the request, echoed.
    pub promiser: String,
    /// The attributes of the request, echoed.
    pub attributes: AttrMap,
    /// The outcome.
    pub result: ValidateOutcome,
}

impl ValidateResponse {
    /// A response echoing `request` with the given outcome.
    pub fn new(request: ValidateRequest, result: ValidateOutcome) -> (r: ValidateResponse)
        ensures
            r.promiser == request.promiser,
            r.attributes == request.attributes,
            r.result == result,
    {
        ValidateResponse { promiser: request.promiser, attributes: request.attributes, result }
    }
}

/// Response to an evaluate request, echoing its promiser and attributes.
#[derive(Debug, PartialEq)]
pub struct EvaluateResponse {
    /// The subject of the request, echoed.
    pub promiser: String,
    /// The attributes of the request, echoed.
    pub attributes: AttrMap,
    /// The outcome.
    pub result: EvaluateOutcome,
}

impl EvaluateResponse {
    /// A response echoing `request` with the given outcome.
    pub fn new(request: EvaluateRequest, result: EvaluateOutcome) -> (r: EvaluateResponse)
        ensures
            r.promiser == request.promiser,
            r.attributes == request.attributes,
            r.result == result,
    {
        EvaluateResponse { promiser: request.promiser, attributes: request.attributes, result }
    }
}

/// Response to a terminate request.
#[derive(Debug, Clone, PartialEq)]
pub struct TerminateResponse {
    /// The outcome.
    pub result: ProtocolOutcome,
}

impl TerminateResponse {
    /// A response with the given outcome.
    pub fn new(result: ProtocolOutcome) -> (r: TerminateResponse)
        ensures
            r.result == result,
    {
        TerminateResponse { result }
    }
}

/// A response record, mirroring the request it answers.
#[derive(Debug, PartialEq)]
pub enum Response {
    /// Answer to a validate request.
    Validate(ValidateResponse),
    /// Answer to an evaluate request.
    Evaluate(EvaluateResponse),
    /// Answer to a terminate request.
    Terminate(TerminateResponse),
}

/// Whether entry `e` binds `key` to exactly `val`.
pub open spec fn spec_entry_is(e: (String, Value), key: Seq<char>, val: Value) -> bool {
    e.0@ == key && e.1 == val
}

/// Whether entry `e` binds `key` to a string reading `s`.
pub open spec fn spec_entry_is_str(e: (String, Value), key: Seq<char>, s: Seq<char>) -> bool {
    e.0@ == key && (e.1 matches Value::Str(x) && x@ == s)
}

/// Whether `v` is the record a validate response sends: operation,
/// echoed promiser and attributes, and the result word.
pub open spec fn spec_validate_response_value(r: ValidateResponse, v: Value) -> bool {
    match v {
        Value::Object(es) => {
            &&& es@.len() == 4
            &&& spec_entry_is_str(es@[0], "operation"@, "validate_promise"@)
            &&& spec_entry_is(es@[1], "promiser"@, Value::Str(r.promiser))
            &&& spec_entry_is(es@[2], "attributes"@, Value::Object(r.attributes.entries))
            &&& spec_entry_is_str(es@[3], "result"@, spec_validate_outcome_str(r.result))
        },
        _ => false,
    }
}

/// Whether `v` is the record an evaluate response sends.
pub open spec fn spec_evaluate_response_value(r: EvaluateResponse, v: Value) -> bool {
    match v {
        Value::Object(es) => {
            &&& es@.len() == 4
            &&& spec_entry_is_str(es@[0], "operation"@, "evaluate_promise"@)
            &&& spec_entry_is(es@[1], "promiser"@, Value::Str(r.promiser))
            &&& spec_entry_is(es@[2], "attributes"@, Value::Object(r.attributes.entries))
            &&& spec_entry_is_str(es@[3], "result"@, spec_evaluate_outcome_str(r.result))
        },
        _ => false,
    }
}

/// Whether `v` is the record a terminate response sends.
pub open spec fn spec_terminate_response_value(r: TerminateResponse, v: Value) -> bool {
    match v {
        Value::Object(es) => {
            &&& es@.len() == 2
            &&& spec_entry_is_str(es@[0], "operation"@, "terminate"@)
            &&& spec_entry_is_str(es@[1], "result"@, spec_protocol_outcome_str(r.result))
        },
        _ => false,
    }
}

/// Whether `v` is the record `r` sends.
pub open spec fn spec_response_value(r: Response, v: Value) -> bool {
    match r {
        Response::Validate(x) => spec_validate_response_value(x, v),
        Response::Evaluate(x) => spec_evaluate_response_value(x, v),
        Response::Terminate(x) => spec_terminate_response_value(x, v),
    }
}

impl Response {
    /// The record this response sends.
    pub fn into_value(self) -> (v: Value)
        ensures
            spec_response_value(self, v),
    {
        match self {
            Response::Validate(x) => {
                let mut es: Vec<(String, Value)> = Vec::new();
                es.push(
                    (
                        String::from_str("operation"),
                        Value::Str(String::from_str("validate_promise")),
                    ),
                );
                es.push((String::from_str("promiser"), Value::Str(x.promiser)));
                es.push((String::from_str("attributes"), Value::Object(x.attributes.entries)));
                es.push(
                    (String::from_str("result"), Value::Str(String::from_str(x.result.as_str()))),
                );
                Value::Object(es)
            },
            Response::Evaluate(x) => {
                let mut es: Vec<(String, Value)> = Vec::new();
                es.push(
                    (
                        String::from_str("operation"),
                        Value::Str(String::from_str("evaluate_promise")),
                    ),
                );
                es.push((String::from_str("promiser"), Value::Str(x.promiser)));
                es.push((String::from_str("attributes"), Value::Object(x.attributes.entries)));
                es.push(
                    (String::from_str("result"), Value::Str(String::from_str(x.result.as_str()))),
                );
                Value::Object(es)
            },
            Response::Terminate(x) => {
                let mut es: Vec<(String, Value)> = Vec::new();
                es.push(
                    (String::from_str("operation"), Value::Str(String::from_str("terminate"))),
                );
                es.push(
                    (String::from_str("result"), Value::Str(String::from_str(x.result.as_str()))),
                );
                Value::Object(es)
            },
        }
    }
}

/// Returns the value of the first entry named `key`, if any.
pub fn get_entry<'a>(entries: &'a Vec<(String, Value)>, key: &str) -> (r: Option<&'a Value>)
    ensures
        match r {
            Some(v) => lookup_entry(entries@, key@) == Some(*v),
            None => lookup_entry(entries@, key@) is None,
        },
{
    let n = entries.len();
    let mut i: usize = 0;
    while i < n
        invariant
            n == entries@.len(),
            i <= n,
            forall|j: int| 0 <= j < i ==> entries@[j].0@ != key@,
        decreases n - i,
    {
        if str_eq(entries[i].0.as_str(), key) {
            proof {
                lemma_lookup_at(entries@, key@, i as int);
            }
            return Some(&entries[i].1);
        }
        i = i + 1;
    }
    proof {
        lemma_lookup_none(entries@, key@);
    }
    None
}

/// Removes and returns the value of the first entry named `key`, if any.
fn take_entry(entries: &mut Vec<(String, Value)>, key: &str) -> (r: Option<Value>)
    ensures
        match r {
            Some(v) => lookup_entry(old(entries)@, key@) == Some(v),
            None => lookup_entry(old(entries)@, key@) is None,
        },
{
    let n = entries.len();
    let mut i: usize = 0;
    while i < n
        invariant
            n == entries@.len(),
            i <= n,
            entries@ == old(entries)@,
            forall|j: int| 0 <= j < i ==> entries@[j].0@ != key@,
        decreases n - i,
    {
        if str_eq(entries[i].0.as_str(), key) {
            proof {
                lemma_lookup_at(entries@, key@, i as int);
            }
            let pair = entries.remove(i);
            return Some(pair.1);
        }
        i = i + 1;
    }
    proof {
        lemma_lookup_none(entries@, key@);
    }
    None
}

/// Parses the fields shared by validate and evaluate requests, taking the
/// attribute object out of the record.
fn parse_promise_fields(entries: &mut Vec<(String, Value)>) -> (r: Option<
    (LevelFilter, String, AttrMap),
>)
    ensures
        r == spec_promise_fields(old(entries)@),
{
    let level = match get_entry(entries, "log_level") {
        Some(Value::Str(ll)) => match LevelFilter::parse(ll.as_str()) {
            Some(f) => f,
            None => {
                return None;
            },
        },
        _ => {
            return None;
        },
    };
    let promiser = match get_entry(entries, "promiser") {
        Some(Value::Str(p)) => p.clone(),
        _ => {
            return None;
        },
    };
    match take_entry(entries, "attributes") {
        Some(Value::Object(m)) => Some((level, promiser, AttrMap { entries: m })),
        _ => None,
    }
}

/// Parses a record into a request. A record that is not one of the known
/// request shapes is a fatal protocol error.
pub fn parse_request(v: Value) -> (r: Result<Request, ProtocolError>)
    ensures
        match r {
            Ok(req) => spec_parse_request(v) == Some(req),
            Err(e) => spec_parse_request(v) is None && e == ProtocolError::BadRequest,
        },
{
    let mut entries = match v {
        Value::Object(entries) => entries,
        _ => {
            return Err(ProtocolError::BadRequest);
        },
    };
    let ghost entries0 = entries@;
    let is_validate: bool;
    match get_entry(&entries, "operation") {
        Some(Value::Str(op)) => {
            if str_eq(op.as_str(), "validate_promise") {
                is_validate = true;
            } else if str_eq(op.as_str(), "evaluate_promise") {
                is_validate = false;
            } else if str_eq(op.as_str(), "terminate") {
                return Ok(Request::Terminate);
            } else {
                return Err(ProtocolError::BadRequest);
            }
        },
        _ => {
            return Err(ProtocolError::BadRequest);
        },
    }
    match parse_promise_fields(&mut entries) {
        Some((log_level, promiser, attributes)) => if is_validate {
            Ok(Request::Validate(ValidateRequest { log_level, promiser, attributes }))
        } else {
            let check_only = attributes.contains_key("action_policy");
            Ok(
                Request::Evaluate(
                    EvaluateRequest { log_level, promiser, attributes, check_only },
                ),
            )
        },
        None => Err(ProtocolError::BadRequest),
    }
}

} // verus!
