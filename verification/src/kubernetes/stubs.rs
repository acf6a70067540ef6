//! Stub status-query clients with fixed answers.

use vstd::prelude::*;

use crate::kubernetes::model::{DeploymentId, DeploymentStatus, K8sClient, K8sClientError};

verus! {

/// A client that reports every deployment as not OK.
pub struct AlwaysFail;

impl K8sClient for AlwaysFail {
    fn check_deployment(&self, _deployment_id: &DeploymentId) -> (r: Result<
        DeploymentStatus,
        K8sClientError,
    >)
        ensures
            r matches Ok(d) && d is NonOK,
    {
        Ok(DeploymentStatus::NonOK)
    }
}

/// A client that reports every deployment as OK.
pub struct AlwaysSuccess;

impl K8sClient for AlwaysSuccess {
    fn check_deployment(&self, _deployment_id: &DeploymentId) -> (r: Result<
        DeploymentStatus,
        K8sClientError,
    >)
        ensures
            r matches Ok(d) && d is OK,
    {
        Ok(DeploymentStatus::OK)
    }
}

} // verus!
