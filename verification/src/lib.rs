//! Framework for promise modules: external processes that implement
//! declarative configuration promises (check a desired state, optionally
//! enforce it) and are driven by a configuration-management agent over a
//! line-based JSON protocol.
//!
//! The crate covers the protocol core: record framing, the handshake that
//! exchanges identities, attribute-schema validation, severity-gated logging
//! of outcomes, and the state machine that sequences validate, evaluate and
//! terminate requests against a pluggable [`PromiseType`] implementation.
//! Transport and JSON text conversion are left to the embedding program.

use vstd::prelude::*;

pub mod attribute;
pub mod executor;
pub mod header;
pub mod log;
pub mod protocol;
pub mod resource;
pub mod value;

verus! {

pub use crate::attribute::AttributeType;
pub use crate::executor::Executor;
pub use crate::protocol::{ApplyResult, CheckResult, ProtocolResult, ValidateResult};
use crate::value::AttrMap;

/// Interface a promise module implements.
///
/// The executor drives one value of this trait through the lifecycle
/// `init`, then any number of `validate` / `check` / `apply` rounds, then
/// `terminate`. No contract constrains the hook results: the executor is
/// verified to handle every value a hook may return. Only the identity is
/// mandatory; every other hook has a neutral default.
pub trait PromiseType {
    /// Identity announced to the peer during the handshake.
    fn name(&self) -> &'static str;

    /// Version announced to the peer during the handshake.
    fn version(&self) -> &'static str;

    /// Runs once, before the first request of the session is dispatched.
    /// Can be used for set-up tasks.
    fn init(&mut self) -> ProtocolResult {
        ProtocolResult::Success
    }

    /// Attributes every request must carry, with their declared types.
    fn required_attributes(&self) -> Vec<(String, AttributeType)> {
        Vec::new()
    }

    /// Attributes a request may carry, with their declared types.
    fn optional_attributes(&self) -> Vec<(String, AttributeType)> {
        Vec::new()
    }

    /// Checks parameter validity beyond the declared attribute schema.
    fn validate(&self, _promiser: &str, _attributes: &AttrMap) -> ValidateResult {
        ValidateResult::Valid
    }

    /// Tests whether the promised state already holds. A promise without a
    /// sensible test, an action, leaves the default: always apply.
    fn check(&mut self, _promiser: &str, _attributes: &AttrMap) -> CheckResult {
        CheckResult::AlwaysApply
    }

    /// Makes changes so that the promised state holds. A promise that may
    /// only be checked leaves the default, and an attempt to apply it is an
    /// error.
    fn apply(&mut self, _promiser: &str, _attributes: &AttrMap) -> ApplyResult {
        ApplyResult::AuditOnly
    }

    /// Runs once, when a terminate request ends the session. Can be used
    /// for clean-up tasks.
    fn terminate(&mut self) -> ProtocolResult {
        ProtocolResult::Success
    }
}

} // verus!
