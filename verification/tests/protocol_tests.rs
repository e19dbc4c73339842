use cfengine_promise::log::{LevelFilter, LogGate};
use cfengine_promise::protocol::{
    parse_request, ApplyResult, CheckResult, EvaluateOutcome, ProtocolError, ProtocolOutcome,
    ProtocolResult, Request, Response, TerminateResponse, ValidateResult,
};
use cfengine_promise::value::Value;

fn entry(key: &str, value: Value) -> (String, Value) {
    (key.to_string(), value)
}

fn s(text: &str) -> Value {
    Value::Str(text.to_string())
}

#[test]
fn it_parses_requests() {
    let val = Value::Object(vec![
        entry(
            "attributes",
            Value::Object(vec![entry("repo", s("https://github.com/cfengine/masterfiles"))]),
        ),
        entry("log_level", s("info")),
        entry("operation", s("validate_promise")),
        entry("promiser", s("/tmp/masterfiles")),
    ]);
    match parse_request(val) {
        Ok(Request::Validate(req)) => {
            assert_eq!(req.log_level, LevelFilter::Info);
            assert_eq!(req.promiser, "/tmp/masterfiles");
            assert_eq!(req.attributes.entries.len(), 1);
            assert_eq!(req.attributes.entries[0].0, "repo");
            assert_eq!(
                req.attributes.entries[0].1,
                s("https://github.com/cfengine/masterfiles")
            );
        }
        other => panic!("expected a validate request, got {:?}", other),
    }
}

#[test]
fn it_parses_evaluate_and_terminate_requests() {
    let val = Value::Object(vec![
        entry("operation", s("evaluate_promise")),
        entry("log_level", s("debug")),
        entry("promiser", s("/srv/thing")),
        entry("attributes", Value::Object(vec![entry("state", s("present"))])),
    ]);
    match parse_request(val) {
        Ok(Request::Evaluate(req)) => {
            assert_eq!(req.log_level, LevelFilter::Debug);
            assert_eq!(req.promiser, "/srv/thing");
            assert!(!req.check_only);
        }
        other => panic!("expected an evaluate request, got {:?}", other),
    }

    let term = Value::Object(vec![entry("operation", s("terminate"))]);
    assert_eq!(parse_request(term), Ok(Request::Terminate));
}

#[test]
fn the_check_only_signal_is_read_from_the_attributes() {
    let val = Value::Object(vec![
        entry("operation", s("evaluate_promise")),
        entry("log_level", s("info")),
        entry("promiser", s("/srv/thing")),
        entry(
            "attributes",
            Value::Object(vec![
                entry("state", s("present")),
                entry("action_policy", s("warn")),
            ]),
        ),
    ]);
    match parse_request(val) {
        Ok(Request::Evaluate(req)) => assert!(req.check_only),
        other => panic!("expected an evaluate request, got {:?}", other),
    }
}

#[test]
fn malformed_records_are_bad_requests() {
    // Not an object.
    assert_eq!(parse_request(s("hi")), Err(ProtocolError::BadRequest));
    // No operation field.
    assert_eq!(
        parse_request(Value::Object(vec![entry("promiser", s("/x"))])),
        Err(ProtocolError::BadRequest)
    );
    // Unknown operation.
    assert_eq!(
        parse_request(Value::Object(vec![entry("operation", s("frobnicate"))])),
        Err(ProtocolError::BadRequest)
    );
    // Missing promiser.
    assert_eq!(
        parse_request(Value::Object(vec![
            entry("operation", s("validate_promise")),
            entry("log_level", s("info")),
            entry("attributes", Value::Object(vec![])),
        ])),
        Err(ProtocolError::BadRequest)
    );
    // Unknown severity word.
    assert_eq!(
        parse_request(Value::Object(vec![
            entry("operation", s("validate_promise")),
            entry("log_level", s("loud")),
            entry("promiser", s("/x")),
            entry("attributes", Value::Object(vec![])),
        ])),
        Err(ProtocolError::BadRequest)
    );
    // Attributes not an object.
    assert_eq!(
        parse_request(Value::Object(vec![
            entry("operation", s("validate_promise")),
            entry("log_level", s("info")),
            entry("promiser", s("/x")),
            entry("attributes", Value::List(vec![])),
        ])),
        Err(ProtocolError::BadRequest)
    );
}

#[test]
fn outcome_mapping_drops_reasons_into_the_log() {
    let mut gate = LogGate::new();
    gate.threshold = LevelFilter::Debug;

    let o = ValidateResult::Invalid("bad attribute".to_string()).outcome(&mut gate);
    assert_eq!(o, cfengine_promise::protocol::ValidateOutcome::Invalid);
    assert_eq!(gate.lines.last().unwrap(), "log_error=bad attribute");

    let o = CheckResult::AlwaysApply.outcome(false, &mut gate);
    assert_eq!(o, EvaluateOutcome::NotKept);
    assert_eq!(
        gate.lines.last().unwrap(),
        "log_info=This promise needs to be applied"
    );

    let o = CheckResult::NotKept("drift".to_string()).outcome(true, &mut gate);
    assert_eq!(o, EvaluateOutcome::NotKept);
    assert_eq!(gate.lines.last().unwrap(), "log_error=drift");

    let o = CheckResult::NotKept("drift".to_string()).outcome(false, &mut gate);
    assert_eq!(o, EvaluateOutcome::NotKept);
    assert_eq!(gate.lines.last().unwrap(), "log_info=drift");

    let o = ApplyResult::AuditOnly.outcome(&mut gate);
    assert_eq!(o, EvaluateOutcome::Error);
    assert_eq!(
        gate.lines.last().unwrap(),
        "log_error=Should not be applied, audit only promise"
    );

    let o = ApplyResult::Repaired("made it so".to_string()).outcome(&mut gate);
    assert_eq!(o, EvaluateOutcome::Repaired);
    assert_eq!(gate.lines.last().unwrap(), "log_info=made it so");

    let o = ProtocolResult::Failure("no luck".to_string()).outcome(&mut gate);
    assert_eq!(o, ProtocolOutcome::Failure);
    assert_eq!(gate.lines.last().unwrap(), "log_error=no luck");
}

#[test]
fn a_terminate_response_becomes_a_two_field_record() {
    let resp = Response::Terminate(TerminateResponse::new(ProtocolOutcome::Success));
    let v = resp.into_value();
    match v {
        Value::Object(es) => {
            assert_eq!(es.len(), 2);
            assert_eq!(es[0].0, "operation");
            assert_eq!(es[0].1, s("terminate"));
            assert_eq!(es[1].0, "result");
            assert_eq!(es[1].1, s("success"));
        }
        other => panic!("expected an object, got {:?}", other),
    }
}

#[test]
fn an_evaluate_response_echoes_the_request() {
    let val = Value::Object(vec![
        entry("operation", s("evaluate_promise")),
        entry("log_level", s("info")),
        entry("promiser", s("/srv/thing")),
        entry("attributes", Value::Object(vec![entry("state", s("present"))])),
    ]);
    let req = match parse_request(val) {
        Ok(Request::Evaluate(req)) => req,
        other => panic!("expected an evaluate request, got {:?}", other),
    };
    let resp = cfengine_promise::protocol::EvaluateResponse::new(req, EvaluateOutcome::Repaired);
    match Response::Evaluate(resp).into_value() {
        Value::Object(es) => {
            assert_eq!(es.len(), 4);
            assert_eq!(es[0].1, s("evaluate_promise"));
            assert_eq!(es[1].0, "promiser");
            assert_eq!(es[1].1, s("/srv/thing"));
            assert_eq!(es[2].0, "attributes");
            assert_eq!(
                es[2].1,
                Value::Object(vec![entry("state", s("present"))])
            );
            assert_eq!(es[3].0, "result");
            assert_eq!(es[3].1, s("repaired"));
        }
        other => panic!("expected an object, got {:?}", other),
    }
}
