//! Identifiers of a monitored deployment and the status-query collaborator
//! interface.

use vstd::prelude::*;

verus! {

/// Name of the cluster context the deployment lives in.
#[derive(Clone, Debug)]
pub struct ClusterContext(pub String);

/// Namespace of the deployment.
#[derive(Clone, Debug)]
pub struct Namespace(pub String);

/// Name of the deployment.
#[derive(Clone, Debug)]
pub struct DeploymentName(pub String);

/// Full identifier of one monitored deployment.
#[derive(Clone, Debug)]
pub struct DeploymentId {
    pub context: ClusterContext,
    pub namespace: Namespace,
    pub deployment: DeploymentName,
}

/// The identifying character sequences of a deployment id; two ids with the
/// same key name the same deployment.
pub open spec fn id_key(id: DeploymentId) -> (Seq<char>, Seq<char>, Seq<char>) {
    (id.context.0@, id.namespace.0@, id.deployment.0@)
}

impl DeploymentId {
    /// Whether two ids name the same deployment.
    pub fn matches(&self, other: &DeploymentId) -> (r: bool)
        ensures
            r == (id_key(*self) == id_key(*other)),
    {
        self.context.0 == other.context.0 && self.namespace.0 == other.namespace.0
            && self.deployment.0 == other.deployment.0
    }
}

/// Coarse health of one deployment, as resolved from its conditions.
#[derive(Clone, Copy, Debug, PartialEq, Eq, Structural)]
pub enum DeploymentStatus {
    OK,
    InProgress,
    NonOK,
    Unknown,
}

/// The status query failed; carries the underlying reason.
#[derive(Debug)]
pub struct K8sClientError(pub String);

/// Status-query collaborator: checks one deployment's conditions and resolves
/// them to a coarse status. A query may fail for operational reasons.
pub trait K8sClient {
    fn check_deployment(&self, deployment_id: &DeploymentId) -> Result<
        DeploymentStatus,
        K8sClientError,
    >;
}

} // verus!
