use std::cell::RefCell;
use std::collections::HashMap;

use midi_pads::kubernetes::model::{
    ClusterContext, DeploymentId, DeploymentName, DeploymentStatus, K8sClient, K8sClientError,
    Namespace,
};
use midi_pads::kubernetes::stubs::{AlwaysFail, AlwaysSuccess};
use midi_pads::midi::model::{DataByte, MidiMessage, MidiSendFailed, MidiSender, Status};
use midi_pads::midi::registry::{
    K8sToPadMidiMapping, PadMapping, ReadOnlyMapMidiRegistry, ReadOnlyMidiRegistryConfig,
};
use midi_pads::worker::actor::{PadHandler, PadOutput};
use midi_pads::worker::k8s::{outcome_for_status, Config as K8sConfig, K8SDeploymentHandler};
use midi_pads::worker::k8s_worker::{result_message, CheckDeploymentHandler};
use midi_pads::worker::script::{
    outcome_of_run, Config as ScriptConfig, ProcessRunner, ScriptHandler, SpawnError,
};

fn byte(b: u8) -> DataByte {
    DataByte::from_u8(b).unwrap()
}

fn an_id(name: &str) -> DeploymentId {
    DeploymentId {
        context: ClusterContext("prod".to_string()),
        namespace: Namespace("apps".to_string()),
        deployment: DeploymentName(name.to_string()),
    }
}

fn k8s_config(name: &str) -> K8sConfig {
    K8sConfig { deployment_id: an_id(name), unknown: byte(20), depl_in_progress: byte(21) }
}

#[test]
fn status_answers_map_to_outcomes() {
    let config = k8s_config("web");
    assert_eq!(outcome_for_status(&config, Ok(DeploymentStatus::OK)), PadOutput::Okay);
    assert_eq!(outcome_for_status(&config, Ok(DeploymentStatus::NonOK)), PadOutput::NotOk);
    assert_eq!(
        outcome_for_status(&config, Ok(DeploymentStatus::InProgress)),
        PadOutput::Custom(byte(21))
    );
    assert_eq!(
        outcome_for_status(&config, Ok(DeploymentStatus::Unknown)),
        PadOutput::Custom(byte(20))
    );
    assert_eq!(
        outcome_for_status(&config, Err(K8sClientError("down".to_string()))),
        PadOutput::TempError
    );
}

#[test]
fn k8s_handler_runs_one_cycle_through_its_client() {
    let mut ok_handler = K8SDeploymentHandler::new(AlwaysSuccess, k8s_config("web"));
    assert_eq!(ok_handler.handle(), PadOutput::Okay);
    let mut bad_handler = K8SDeploymentHandler::new(AlwaysFail, k8s_config("web"));
    assert_eq!(bad_handler.handle(), PadOutput::NotOk);
}

#[test]
fn script_results_map_to_outcomes() {
    assert_eq!(outcome_of_run(Ok(true)), PadOutput::Okay);
    assert_eq!(outcome_of_run(Ok(false)), PadOutput::NotOk);
    assert_eq!(outcome_of_run(Err(SpawnError("missing".to_string()))), PadOutput::TempError);
}

struct FixedRunner(Result<bool, String>);

impl ProcessRunner for FixedRunner {
    fn run(
        &mut self,
        _command: &String,
        _args: &Vec<String>,
        _envs: &HashMap<String, String>,
    ) -> Result<bool, SpawnError> {
        self.0.clone().map_err(SpawnError)
    }
}

fn script_config() -> ScriptConfig {
    ScriptConfig {
        envs: HashMap::new(),
        command: "probe.sh".to_string(),
        args: vec!["--fast".to_string()],
    }
}

#[test]
fn script_handler_runs_one_cycle_through_its_runner() {
    let mut good = ScriptHandler::new(script_config(), FixedRunner(Ok(true)));
    assert_eq!(good.handle(), PadOutput::Okay);
    let mut bad = ScriptHandler::new(script_config(), FixedRunner(Ok(false)));
    assert_eq!(bad.handle(), PadOutput::NotOk);
    let mut broken = ScriptHandler::new(script_config(), FixedRunner(Err("no exec".to_string())));
    assert_eq!(broken.handle(), PadOutput::TempError);
}

fn flat(status: u8, fst: u8) -> PadMapping {
    PadMapping {
        status: Status::from_u8(status).unwrap(),
        fst_data_byte: byte(fst),
        green_data_byte: byte(1),
        yellow_data_byte: byte(2),
        orange_data_byte: byte(3),
        red_data_byte: byte(4),
    }
}

fn msg(status: u8, fst: u8, snd: u8) -> MidiMessage {
    MidiMessage {
        status: Status::from_u8(status).unwrap(),
        fst_data_byte: byte(fst),
        snd_data_byte: byte(snd),
    }
}

#[test]
fn result_messages_use_the_pad_palette() {
    let mapping = flat(144, 10);
    assert_eq!(result_message(&mapping, &Ok(DeploymentStatus::OK)), msg(144, 10, 1));
    assert_eq!(result_message(&mapping, &Ok(DeploymentStatus::NonOK)), msg(144, 10, 4));
    assert_eq!(result_message(&mapping, &Ok(DeploymentStatus::InProgress)), msg(144, 10, 3));
    assert_eq!(result_message(&mapping, &Ok(DeploymentStatus::Unknown)), msg(144, 10, 3));
    assert_eq!(
        result_message(&mapping, &Err(K8sClientError("down".to_string()))),
        msg(144, 10, 3)
    );
}

struct RecordingSender(RefCell<Vec<MidiMessage>>);

impl MidiSender for &RecordingSender {
    fn send(&self, msg: MidiMessage) -> Result<(), MidiSendFailed> {
        self.0.borrow_mut().push(msg);
        Ok(())
    }
}

struct FixedClient(Result<DeploymentStatus, String>);

impl K8sClient for FixedClient {
    fn check_deployment(
        &self,
        _deployment_id: &DeploymentId,
    ) -> Result<DeploymentStatus, K8sClientError> {
        self.0.clone().map_err(K8sClientError)
    }
}

#[test]
fn check_sends_pending_then_result() {
    let registry = ReadOnlyMapMidiRegistry::new(ReadOnlyMidiRegistryConfig {
        mappings: vec![K8sToPadMidiMapping {
            deployment_id: an_id("web"),
            pad_midi_mapping: flat(144, 10),
        }],
    });
    let sender = RecordingSender(RefCell::new(Vec::new()));
    let handler =
        CheckDeploymentHandler::new(FixedClient(Ok(DeploymentStatus::OK)), registry, &sender);
    handler.check(&an_id("web"));
    assert_eq!(sender.0.borrow().clone(), vec![msg(144, 10, 2), msg(144, 10, 1)]);
}

#[test]
fn check_returns_exactly_what_it_sends() {
    let registry = ReadOnlyMapMidiRegistry::new(ReadOnlyMidiRegistryConfig {
        mappings: vec![K8sToPadMidiMapping {
            deployment_id: an_id("web"),
            pad_midi_mapping: flat(144, 10),
        }],
    });
    let sender = RecordingSender(RefCell::new(Vec::new()));
    let handler =
        CheckDeploymentHandler::new(FixedClient(Ok(DeploymentStatus::NonOK)), registry, &sender);
    let sent = handler.check(&an_id("web"));
    assert_eq!(sent, Some((msg(144, 10, 2), msg(144, 10, 4))));
    assert_eq!(sender.0.borrow().clone(), vec![msg(144, 10, 2), msg(144, 10, 4)]);
    assert_eq!(handler.check(&an_id("absent")), None);
}

#[test]
fn check_of_unregistered_deployment_sends_nothing() {
    let registry = ReadOnlyMapMidiRegistry::new(ReadOnlyMidiRegistryConfig { mappings: vec![] });
    let sender = RecordingSender(RefCell::new(Vec::new()));
    let handler =
        CheckDeploymentHandler::new(FixedClient(Ok(DeploymentStatus::OK)), registry, &sender);
    handler.check(&an_id("web"));
    assert!(sender.0.borrow().is_empty());
}

#[test]
fn check_reports_query_errors_as_orange() {
    let registry = ReadOnlyMapMidiRegistry::new(ReadOnlyMidiRegistryConfig {
        mappings: vec![K8sToPadMidiMapping {
            deployment_id: an_id("web"),
            pad_midi_mapping: flat(144, 10),
        }],
    });
    let sender = RecordingSender(RefCell::new(Vec::new()));
    let handler =
        CheckDeploymentHandler::new(FixedClient(Err("down".to_string())), registry, &sender);
    handler.check(&an_id("web"));
    assert_eq!(sender.0.borrow().clone(), vec![msg(144, 10, 2), msg(144, 10, 3)]);
}
