//! Scheduling model for the queue-driven workers: which deployment to check
//! and how often. The task-spawning scheduler itself lives with the runtime,
//! outside this library.

use vstd::prelude::*;

use crate::kubernetes::model::DeploymentId;

verus! {

/// A duration expressed as a whole number of seconds.
#[derive(Clone, Copy, Debug, PartialEq, Eq, Structural)]
pub struct Seconds(pub u64);

/// One periodic check: a deployment and its period.
#[derive(Clone)]
pub struct DeploymentCheckTask {
    pub deployment_id: DeploymentId,
    pub schedule_every_seconds: Seconds,
}

} // verus!
