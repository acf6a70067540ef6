//! The queue-driven deployment worker: checks one deployment on request and
//! reports its status on the pad registered for it.

use vstd::prelude::*;

use crate::kubernetes::model::{id_key, DeploymentId, DeploymentStatus, K8sClient, K8sClientError};
use crate::midi::model::{MidiMessage, MidiSender};
use crate::midi::registry::{MidiRegistry, PadMapping};

verus! {

/// The signal reporting a query's answer on a pad: a success is green, a
/// failure is red, and anything else — a query error or an inconclusive
/// status — is orange.
pub open spec fn spec_result_message(
    mapping: PadMapping,
    deployment_status: Result<DeploymentStatus, K8sClientError>,
) -> MidiMessage {
    let code = match deployment_status {
        Ok(DeploymentStatus::OK) => mapping.green_data_byte,
        Ok(DeploymentStatus::NonOK) => mapping.red_data_byte,
        _ => mapping.orange_data_byte,
    };
    MidiMessage {
        status: mapping.status,
        fst_data_byte: mapping.fst_data_byte,
        snd_data_byte: code,
    }
}

pub fn result_message(
    mapping: &PadMapping,
    deployment_status: &Result<DeploymentStatus, K8sClientError>,
) -> (m: MidiMessage)
    ensures
        m == spec_result_message(*mapping, *deployment_status),
{
    let code = match deployment_status {
        Ok(DeploymentStatus::OK) => mapping.green_data_byte,
        Ok(DeploymentStatus::NonOK) => mapping.red_data_byte,
        _ => mapping.orange_data_byte,
    };
    MidiMessage {
        status: mapping.status,
        fst_data_byte: mapping.fst_data_byte,
        snd_data_byte: code,
    }
}

/// Checks deployment statuses on request. Stateless: it only holds the
/// services it consults, so one handler can serve many workers.
pub struct CheckDeploymentHandler<C: K8sClient, R: MidiRegistry, S: MidiSender> {
    k8s_client: C,
    midi_registry: R,
    midi_sender: S,
}

/// The pending (yellow) signal announcing that a check has started.
pub open spec fn spec_pending_message(mapping: PadMapping) -> MidiMessage {
    MidiMessage {
        status: mapping.status,
        fst_data_byte: mapping.fst_data_byte,
        snd_data_byte: mapping.yellow_data_byte,
    }
}

impl<C: K8sClient, R: MidiRegistry, S: MidiSender> CheckDeploymentHandler<C, R, S> {
    /// The status-query client this handler consults.
    pub closed spec fn spec_client(&self) -> C {
        self.k8s_client
    }

    /// The registry this handler resolves deployments in.
    pub closed spec fn spec_registry(&self) -> R {
        self.midi_registry
    }

    /// The output sink this handler reports through.
    pub closed spec fn spec_sender(&self) -> S {
        self.midi_sender
    }

    pub fn new(k8s_client: C, midi_registry: R, midi_sender: S) -> (r: CheckDeploymentHandler<
        C,
        R,
        S,
    >)
        ensures
            r.spec_client() == k8s_client,
            r.spec_registry() == midi_registry,
            r.spec_sender() == midi_sender,
    {
        CheckDeploymentHandler { k8s_client, midi_registry, midi_sender }
    }

    /// Checks one deployment, if a pad is registered for it: sends the
    /// pending (yellow) signal, queries the client, and sends the message
    /// built by `result_message` from whatever the query answered. Both
    /// sends are best-effort. An unregistered deployment sends nothing. The
    /// result holds exactly the messages sent, in sending order.
    pub fn check(&self, request: &DeploymentId) -> (sent: Option<(MidiMessage, MidiMessage)>)
        ensures
            match self.spec_registry().spec_get(id_key(*request)) {
                Some(mapping) => sent matches Some(pair) && pair.0 == spec_pending_message(mapping)
                    && (exists|d: Result<DeploymentStatus, K8sClientError>|
                    pair.1 == spec_result_message(mapping, d)),
                None => sent is None,
            },
    {
        if let Some(mapping) = self.midi_registry.get(request) {
            let pending_msg = MidiMessage {
                status: mapping.status,
                fst_data_byte: mapping.fst_data_byte,
                snd_data_byte: mapping.yellow_data_byte,
            };
            let _ = self.midi_sender.send(pending_msg);

            let deployment_status = self.k8s_client.check_deployment(request);

            let msg = result_message(&mapping, &deployment_status);
            let _ = self.midi_sender.send(msg);
            proof {
                assert(msg == spec_result_message(mapping, deployment_status));
            }
            Some((pending_msg, msg))
        } else {
            None
        }
    }
}

/// A duration expressed as a whole number of seconds.
#[derive(Clone, Copy, Debug, PartialEq, Eq, Structural)]
pub struct Seconds(pub u64);

/// Which deployment a worker checks, and how often.
#[derive(Clone)]
pub struct K8sWorkerContext {
    pub deployment_id: DeploymentId,
    pub schedule_every_seconds: Seconds,
}

} // verus!
