//! The per-pad workers: the actor state machine, the handler variants that
//! run one check cycle, and the older queue-driven deployment worker.

use vstd::prelude::*;

pub mod actor;
pub mod k8s;
pub mod k8s_worker;
pub mod script;

verus! {

/// A duration expressed as a whole number of seconds.
#[derive(Clone, Copy, Debug, PartialEq, Eq, Structural)]
pub struct Seconds(pub u64);

} // verus!
