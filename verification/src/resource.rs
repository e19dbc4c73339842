//! Classification of promise resources by how they can be driven.

use vstd::prelude::*;

verus! {

/// How a resource can be driven through the promise lifecycle.
#[derive(Debug, Clone, Copy, PartialEq, Eq, Structural)]
pub enum ResourceKind {
    /// The desired state can be checked and applied.
    State,
    /// The desired state can only be checked.
    Check,
    /// The promise is an action that is always applied.
    Action,
}

} // verus!
