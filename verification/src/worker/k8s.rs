//! The status-check handler variant: one check cycle queries the status of a
//! deployment and maps the answer to a pad outcome.

use vstd::prelude::*;

use crate::kubernetes::model::{DeploymentId, DeploymentStatus, K8sClient, K8sClientError};
use crate::midi::model::DataByte;
use crate::worker::actor::{PadHandler, PadOutput};
use crate::worker::Seconds;

verus! {

/// Configuration of one status-check handler: the deployment to watch and
/// the two custom codes for the inconclusive statuses.
pub struct Config {
    pub deployment_id: DeploymentId,
    pub unknown: DataByte,
    pub depl_in_progress: DataByte,
}

/// The pad outcome for a status-query answer: OK maps to Okay, NonOK to NotOk,
/// InProgress and Unknown to the configured custom codes, and any query
/// error to a transient error.
pub open spec fn spec_outcome_for_status(
    config: Config,
    status: Result<DeploymentStatus, K8sClientError>,
) -> PadOutput {
    match status {
        Ok(DeploymentStatus::OK) => PadOutput::Okay,
        Ok(DeploymentStatus::NonOK) => PadOutput::NotOk,
        Ok(DeploymentStatus::InProgress) => PadOutput::Custom(config.depl_in_progress),
        Ok(DeploymentStatus::Unknown) => PadOutput::Custom(config.unknown),
        Err(_) => PadOutput::TempError,
    }
}

pub fn outcome_for_status(config: &Config, status: Result<DeploymentStatus, K8sClientError>) -> (r:
    PadOutput)
    ensures
        r == spec_outcome_for_status(*config, status),
{
    match status {
        Ok(DeploymentStatus::OK) => PadOutput::Okay,
        Ok(DeploymentStatus::NonOK) => PadOutput::NotOk,
        Ok(DeploymentStatus::InProgress) => PadOutput::Custom(config.depl_in_progress),
        Ok(DeploymentStatus::Unknown) => PadOutput::Custom(config.unknown),
        Err(_) => PadOutput::TempError,
    }
}

/// The status-check handler: wraps a status-query client and a configuration.
pub struct K8SDeploymentHandler<C: K8sClient> {
    k8s_client: C,
    config: Config,
}

impl<C: K8sClient> K8SDeploymentHandler<C> {
    /// The configuration this handler was built with.
    pub closed spec fn spec_config(&self) -> Config {
        self.config
    }

    pub fn new(k8s_client: C, config: Config) -> (r: K8SDeploymentHandler<C>)
        ensures
            r.spec_config() == config,
    {
        K8SDeploymentHandler { k8s_client, config }
    }
}

impl<C: K8sClient> PadHandler for K8SDeploymentHandler<C> {
    /// Runs one check cycle: queries the deployment, then maps the answer as
    /// `outcome_for_status` does, whatever the client answered. The
    /// configuration is untouched, and the outcome is the mapping of some
    /// query answer under that configuration.
    fn handle(&mut self) -> (r: PadOutput)
        ensures
            final(self).spec_config() == old(self).spec_config(),
            exists|st: Result<DeploymentStatus, K8sClientError>|
                r == spec_outcome_for_status(old(self).spec_config(), st),
    {
        let deployment_status = self.k8s_client.check_deployment(&self.config.deployment_id);
        let ghost witness = deployment_status;
        let outcome = outcome_for_status(&self.config, deployment_status);
        proof {
            assert(outcome == spec_outcome_for_status(self.spec_config(), witness));
        }
        outcome
    }
}

/// Everything one status-check pad needs: the deployment, its period, and
/// its pad mapping.
pub struct K8sContext {
    pub deployment_id: DeploymentId,
    pub schedule_every_seconds: Seconds,
    pub pad_mapping: crate::midi::model::PadMapping,
}

} // verus!
