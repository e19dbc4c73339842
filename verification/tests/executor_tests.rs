use cfengine_promise::attribute::AttributeType;
use cfengine_promise::executor::{Executor, Phase, RunState};
use cfengine_promise::log::LevelFilter;
use cfengine_promise::protocol::{
    ApplyResult, AttributeError, CheckResult, EvaluateOutcome, ProtocolError, ProtocolOutcome,
    ProtocolResult, Response, RunError, ValidateOutcome, ValidateResult,
};
use cfengine_promise::value::{AttrMap, Value};
use cfengine_promise::PromiseType;

/// A directory-like promise over an in-memory target: `state` must be
/// `present` or `absent`, and apply flips the target to the wanted state.
struct FakeDirectory {
    exists: bool,
    init_calls: usize,
    check_calls: usize,
    apply_calls: usize,
    terminate_calls: usize,
    fail_init: bool,
    fail_check: bool,
}

impl FakeDirectory {
    fn new(exists: bool) -> FakeDirectory {
        FakeDirectory {
            exists,
            init_calls: 0,
            check_calls: 0,
            apply_calls: 0,
            terminate_calls: 0,
            fail_init: false,
            fail_check: false,
        }
    }

    fn wants_present(attributes: &AttrMap) -> bool {
        match attributes.get("state") {
            Some(Value::Str(s)) => s == "present",
            _ => false,
        }
    }
}

impl PromiseType for FakeDirectory {
    fn name(&self) -> &'static str {
        "directory_module"
    }

    fn version(&self) -> &'static str {
        "0.0.1"
    }

    fn init(&mut self) -> ProtocolResult {
        self.init_calls += 1;
        if self.fail_init {
            ProtocolResult::Failure("could not set up".to_string())
        } else {
            ProtocolResult::Success
        }
    }

    fn required_attributes(&self) -> Vec<(String, AttributeType)> {
        vec![(
            "state".to_string(),
            AttributeType::StringEnum(vec!["present".to_string(), "absent".to_string()]),
        )]
    }

    fn optional_attributes(&self) -> Vec<(String, AttributeType)> {
        vec![]
    }

    fn validate(&self, _promiser: &str, _attributes: &AttrMap) -> ValidateResult {
        ValidateResult::Valid
    }

    fn check(&mut self, _promiser: &str, attributes: &AttrMap) -> CheckResult {
        self.check_calls += 1;
        if self.fail_check {
            CheckResult::Error("could not look at the target".to_string())
        } else if FakeDirectory::wants_present(attributes) == self.exists {
            CheckResult::Kept
        } else {
            CheckResult::NotKept("target is not in the wanted state".to_string())
        }
    }

    fn apply(&mut self, _promiser: &str, attributes: &AttrMap) -> ApplyResult {
        self.apply_calls += 1;
        self.exists = FakeDirectory::wants_present(attributes);
        ApplyResult::Repaired("target brought to the wanted state".to_string())
    }

    fn terminate(&mut self) -> ProtocolResult {
        self.terminate_calls += 1;
        ProtocolResult::Success
    }
}

// Dispatch to `validate` is counted through an &self method, so the count
// lives outside the promise value.
struct CountingValidate {
    inner: FakeDirectory,
    validate_calls: std::cell::Cell<usize>,
}

impl PromiseType for CountingValidate {
    fn name(&self) -> &'static str {
        self.inner.name()
    }

    fn version(&self) -> &'static str {
        self.inner.version()
    }

    fn init(&mut self) -> ProtocolResult {
        self.inner.init()
    }

    fn required_attributes(&self) -> Vec<(String, AttributeType)> {
        self.inner.required_attributes()
    }

    fn optional_attributes(&self) -> Vec<(String, AttributeType)> {
        self.inner.optional_attributes()
    }

    fn validate(&self, promiser: &str, attributes: &AttrMap) -> ValidateResult {
        self.validate_calls.set(self.validate_calls.get() + 1);
        self.inner.validate(promiser, attributes)
    }

    fn check(&mut self, promiser: &str, attributes: &AttrMap) -> CheckResult {
        self.inner.check(promiser, attributes)
    }

    fn apply(&mut self, promiser: &str, attributes: &AttrMap) -> ApplyResult {
        self.inner.apply(promiser, attributes)
    }

    fn terminate(&mut self) -> ProtocolResult {
        self.inner.terminate()
    }
}

fn evaluate_record(state: &str) -> Value {
    Value::Object(vec![
        ("operation".to_string(), Value::Str("evaluate_promise".to_string())),
        ("log_level".to_string(), Value::Str("info".to_string())),
        ("promiser".to_string(), Value::Str("/tmp/target".to_string())),
        (
            "attributes".to_string(),
            Value::Object(vec![(
                "state".to_string(),
                Value::Str(state.to_string()),
            )]),
        ),
    ])
}

fn evaluate_record_check_only(state: &str) -> Value {
    Value::Object(vec![
        ("operation".to_string(), Value::Str("evaluate_promise".to_string())),
        ("log_level".to_string(), Value::Str("info".to_string())),
        ("promiser".to_string(), Value::Str("/tmp/target".to_string())),
        (
            "attributes".to_string(),
            Value::Object(vec![
                ("state".to_string(), Value::Str(state.to_string())),
                ("action_policy".to_string(), Value::Str("warn".to_string())),
            ]),
        ),
    ])
}

fn terminate_record() -> Value {
    Value::Object(vec![(
        "operation".to_string(),
        Value::Str("terminate".to_string()),
    )])
}

fn ready_state() -> RunState {
    let mut state = RunState::new();
    let executor = Executor::new();
    let own = cfengine_promise::header::Header::new("directory_module".to_string(), "v1".to_string());
    let reply = executor
        .negotiate(&own, &mut state, "cf-agent v1")
        .expect("handshake must succeed");
    assert_eq!(reply, "directory_module v1");
    state
}

#[test]
fn repairs_a_missing_target() {
    // Scenario: state "present" wanted, target absent, enforce mode.
    let mut promise = FakeDirectory::new(false);
    let mut state = ready_state();
    let executor = Executor::new();
    let response = executor
        .handle_record(&mut promise, &mut state, evaluate_record("present"))
        .expect("evaluate must be served");
    match response {
        Response::Evaluate(r) => {
            assert_eq!(r.result, EvaluateOutcome::Repaired);
            assert_eq!(r.promiser, "/tmp/target");
        }
        other => panic!("expected an evaluate response, got {:?}", other),
    }
    assert_eq!(promise.check_calls, 1);
    assert_eq!(promise.apply_calls, 1);
    assert!(promise.exists);
    // The drift and the repair were logged on the side channel, gated at
    // the request's info threshold.
    assert_eq!(
        state.gate.lines,
        vec![
            "log_info=target is not in the wanted state".to_string(),
            "log_info=target brought to the wanted state".to_string(),
        ]
    );
}

#[test]
fn keeps_an_existing_target_without_applying() {
    // Scenario: state "present" wanted, target already there.
    let mut promise = FakeDirectory::new(true);
    let mut state = ready_state();
    let executor = Executor::new();
    let response = executor
        .handle_record(&mut promise, &mut state, evaluate_record("present"))
        .expect("evaluate must be served");
    match response {
        Response::Evaluate(r) => assert_eq!(r.result, EvaluateOutcome::Kept),
        other => panic!("expected an evaluate response, got {:?}", other),
    }
    assert_eq!(promise.check_calls, 1);
    assert_eq!(promise.apply_calls, 0);
}

#[test]
fn rejects_a_value_outside_the_enum_before_dispatch() {
    // Scenario: "partial" is not a declared variant.
    let mut promise = FakeDirectory::new(false);
    let mut state = ready_state();
    let executor = Executor::new();
    let r = executor.handle_record(&mut promise, &mut state, evaluate_record("partial"));
    match r {
        Err(RunError::Attribute(AttributeError::TypeMismatch(name))) => {
            assert_eq!(name, "state");
        }
        other => panic!("expected an attribute error, got {:?}", other),
    }
    assert_eq!(promise.check_calls, 0);
    assert_eq!(promise.apply_calls, 0);
    assert_eq!(state.phase, Phase::Terminated);
}

#[test]
fn missing_required_attribute_stops_before_any_hook() {
    let mut promise = CountingValidate {
        inner: FakeDirectory::new(false),
        validate_calls: std::cell::Cell::new(0),
    };
    let mut state = ready_state();
    let executor = Executor::new();
    let record = Value::Object(vec![
        ("operation".to_string(), Value::Str("validate_promise".to_string())),
        ("log_level".to_string(), Value::Str("info".to_string())),
        ("promiser".to_string(), Value::Str("/tmp/target".to_string())),
        ("attributes".to_string(), Value::Object(vec![])),
    ]);
    let r = executor.handle_record(&mut promise, &mut state, record);
    match r {
        Err(RunError::Attribute(AttributeError::Missing(name))) => assert_eq!(name, "state"),
        other => panic!("expected a missing-attribute error, got {:?}", other),
    }
    assert_eq!(promise.validate_calls.get(), 0);
    assert_eq!(promise.inner.check_calls, 0);
    assert_eq!(promise.inner.apply_calls, 0);
}

#[test]
fn check_only_drift_is_reported_and_never_applied() {
    let mut promise = FakeDirectory::new(false);
    let mut state = ready_state();
    let executor = Executor::new();
    let response = executor
        .handle_record(&mut promise, &mut state, evaluate_record_check_only("present"))
        .expect("evaluate must be served");
    match response {
        Response::Evaluate(r) => assert_eq!(r.result, EvaluateOutcome::NotKept),
        other => panic!("expected an evaluate response, got {:?}", other),
    }
    assert_eq!(promise.check_calls, 1);
    assert_eq!(promise.apply_calls, 0);
    assert!(!promise.exists, "audit mode must not mutate");
}

#[test]
fn terminate_ends_the_loop_and_later_records_are_not_read() {
    let mut promise = FakeDirectory::new(true);
    let mut state = ready_state();
    let executor = Executor::new();
    let records = vec![
        evaluate_record("present"),
        terminate_record(),
        evaluate_record("absent"),
    ];
    let report = executor.run_records(&mut promise, &mut state, records);
    assert!(report.error.is_none());
    assert_eq!(report.consumed, 2);
    assert_eq!(report.responses.len(), 2);
    assert_eq!(state.phase, Phase::Terminated);
    assert_eq!(promise.terminate_calls, 1);
    // The record after the terminate was never served.
    assert_eq!(promise.check_calls, 1);
}

#[test]
fn init_runs_once_and_before_the_first_request() {
    let mut promise = FakeDirectory::new(true);
    let mut state = ready_state();
    let executor = Executor::new();
    let records = vec![evaluate_record("present"), evaluate_record("present")];
    let report = executor.run_records(&mut promise, &mut state, records);
    assert!(report.error.is_none());
    assert_eq!(report.consumed, 2);
    assert_eq!(promise.init_calls, 1);
}

#[test]
fn init_failure_aborts_the_run_without_dispatch() {
    let mut promise = FakeDirectory::new(true);
    promise.fail_init = true;
    let mut state = ready_state();
    let executor = Executor::new();
    let records = vec![evaluate_record("present")];
    let report = executor.run_records(&mut promise, &mut state, records);
    match report.error {
        Some(RunError::Init(reason)) => assert_eq!(reason, "could not set up"),
        other => panic!("expected an init error, got {:?}", other),
    }
    assert_eq!(report.consumed, 1);
    assert_eq!(report.responses.len(), 0);
    assert_eq!(promise.check_calls, 0);
    assert_eq!(state.phase, Phase::Terminated);
}

#[test]
fn a_check_error_is_final_and_never_applied() {
    // A failing check ends the round as an error; apply must not run over
    // it, so its result cannot mask the error on the wire.
    let mut promise = FakeDirectory::new(false);
    promise.fail_check = true;
    let mut state = ready_state();
    let executor = Executor::new();
    let response = executor
        .handle_record(&mut promise, &mut state, evaluate_record("present"))
        .expect("evaluate must be served");
    match response {
        Response::Evaluate(r) => assert_eq!(r.result, EvaluateOutcome::Error),
        other => panic!("expected an evaluate response, got {:?}", other),
    }
    assert_eq!(promise.check_calls, 1);
    assert_eq!(promise.apply_calls, 0);
    assert!(!promise.exists);
}

#[test]
fn a_fatal_record_stops_the_loop_at_once() {
    // The record after the malformed one is never read.
    let mut promise = FakeDirectory::new(false);
    let mut state = ready_state();
    let executor = Executor::new();
    let records = vec![
        Value::Object(vec![(
            "operation".to_string(),
            Value::Str("reticulate".to_string()),
        )]),
        evaluate_record("present"),
    ];
    let report = executor.run_records(&mut promise, &mut state, records);
    assert_eq!(report.error, Some(RunError::Protocol(ProtocolError::BadRequest)));
    assert_eq!(report.consumed, 1);
    assert_eq!(report.responses.len(), 0);
    assert_eq!(promise.check_calls, 0);
    assert_eq!(promise.apply_calls, 0);
    assert_eq!(state.phase, Phase::Terminated);
}

/// A promise that leaves every hook to its default and only names itself.
struct BareAction {}

impl PromiseType for BareAction {
    fn name(&self) -> &'static str {
        "bare_action"
    }

    fn version(&self) -> &'static str {
        "0.0.1"
    }
}

#[test]
fn default_hooks_always_apply_and_refuse_to_be_applied() {
    // With every hook left to its default, a check says always-apply, and
    // the default apply is audit-only: the round ends as an error.
    let mut promise = BareAction {};
    let mut state = ready_state();
    let executor = Executor::new();
    let record = Value::Object(vec![
        ("operation".to_string(), Value::Str("evaluate_promise".to_string())),
        ("log_level".to_string(), Value::Str("info".to_string())),
        ("promiser".to_string(), Value::Str("/tmp/target".to_string())),
        ("attributes".to_string(), Value::Object(vec![])),
    ]);
    let response = executor
        .handle_record(&mut promise, &mut state, record)
        .expect("evaluate must be served");
    match response {
        Response::Evaluate(r) => assert_eq!(r.result, EvaluateOutcome::Error),
        other => panic!("expected an evaluate response, got {:?}", other),
    }
    assert_eq!(
        state.gate.lines,
        vec![
            "log_info=This promise needs to be applied".to_string(),
            "log_error=Should not be applied, audit only promise".to_string(),
        ]
    );
}

#[test]
fn an_unknown_record_shape_is_fatal() {
    let mut promise = FakeDirectory::new(true);
    let mut state = ready_state();
    let executor = Executor::new();
    let record = Value::Object(vec![(
        "operation".to_string(),
        Value::Str("reticulate".to_string()),
    )]);
    let r = executor.handle_record(&mut promise, &mut state, record);
    match r {
        Err(RunError::Protocol(ProtocolError::BadRequest)) => (),
        other => panic!("expected a protocol error, got {:?}", other),
    }
    assert_eq!(state.phase, Phase::Terminated);
}

#[test]
fn unknown_attributes_fail_unless_ignored() {
    let promise = FakeDirectory::new(true);
    let executor = Executor::new();
    let mut attributes = AttrMap::new();
    attributes.insert("state".to_string(), Value::Str("present".to_string()));
    attributes.insert("color".to_string(), Value::Str("blue".to_string()));
    let required = promise.required_attributes();
    let optional = promise.optional_attributes();
    match executor.check_attributes(&attributes, &required, &optional) {
        Err(AttributeError::Unexpected(name)) => assert_eq!(name, "color"),
        other => panic!("expected an unexpected-attribute error, got {:?}", other),
    }
    let lenient = Executor::new().ignore_unknown_attributes(true);
    assert!(lenient
        .check_attributes(&attributes, &required, &optional)
        .is_ok());
}

#[test]
fn the_check_only_signal_is_not_an_unknown_attribute() {
    let promise = FakeDirectory::new(true);
    let executor = Executor::new();
    let mut attributes = AttrMap::new();
    attributes.insert("state".to_string(), Value::Str("present".to_string()));
    attributes.insert("action_policy".to_string(), Value::Str("warn".to_string()));
    let required = promise.required_attributes();
    let optional = promise.optional_attributes();
    assert!(executor
        .check_attributes(&attributes, &required, &optional)
        .is_ok());
}

#[test]
fn validate_is_answered_with_the_hook_outcome() {
    let mut promise = FakeDirectory::new(true);
    let mut state = ready_state();
    let executor = Executor::new();
    let record = Value::Object(vec![
        ("operation".to_string(), Value::Str("validate_promise".to_string())),
        ("log_level".to_string(), Value::Str("info".to_string())),
        ("promiser".to_string(), Value::Str("/tmp/target".to_string())),
        (
            "attributes".to_string(),
            Value::Object(vec![(
                "state".to_string(),
                Value::Str("absent".to_string()),
            )]),
        ),
    ]);
    let response = executor
        .handle_record(&mut promise, &mut state, record)
        .expect("validate must be served");
    match response {
        Response::Validate(r) => {
            assert_eq!(r.result, ValidateOutcome::Valid);
            assert_eq!(r.promiser, "/tmp/target");
            assert_eq!(r.attributes.entries.len(), 1);
        }
        other => panic!("expected a validate response, got {:?}", other),
    }
    assert_eq!(state.gate.threshold, LevelFilter::Info);
}

#[test]
fn handshake_rejects_a_malformed_identity_line() {
    let mut state = RunState::new();
    let executor = Executor::new();
    let own = cfengine_promise::header::Header::new("m".to_string(), "v1".to_string());
    let r = executor.negotiate(&own, &mut state, "no-space-here");
    assert_eq!(r, Err(ProtocolError::HeaderParse));
    assert_eq!(state.phase, Phase::Terminated);
}

#[test]
fn handshake_rejects_an_incompatible_version() {
    let mut state = RunState::new();
    let executor = Executor::new();
    let own = cfengine_promise::header::Header::new("m".to_string(), "v1".to_string());
    let r = executor.negotiate(&own, &mut state, "cf-agent v2");
    assert_eq!(r, Err(ProtocolError::IncompatibleVersion));
    assert_eq!(state.phase, Phase::Terminated);
}

#[test]
fn records_are_framed_with_a_blank_line() {
    let mut output = String::new();
    Executor::write_line(&mut output, "{\"operation\":\"terminate\"}");
    assert_eq!(output, "{\"operation\":\"terminate\"}\n\n");

    let lines = vec!["payload".to_string(), "".to_string()];
    let (content, next) = Executor::read_line(&lines, 0).expect("well-framed record");
    assert_eq!(content, "payload");
    assert_eq!(next, 2);

    let bad = vec!["payload".to_string(), "not empty".to_string()];
    assert_eq!(Executor::read_line(&bad, 0), Err(ProtocolError::Framing));
    let short = vec!["payload".to_string()];
    assert_eq!(Executor::read_line(&short, 0), Err(ProtocolError::Framing));
}

#[test]
fn terminate_response_reports_the_hook_outcome() {
    let mut promise = FakeDirectory::new(true);
    let mut state = ready_state();
    let executor = Executor::new();
    let response = executor
        .handle_record(&mut promise, &mut state, terminate_record())
        .expect("terminate must be served");
    match response {
        Response::Terminate(r) => assert_eq!(r.result, ProtocolOutcome::Success),
        other => panic!("expected a terminate response, got {:?}", other),
    }
}
