use midi_pads::kubernetes::model::{ClusterContext, DeploymentId, DeploymentName, Namespace};
use midi_pads::midi::model::{DataByte, MidiMessage, Status};
use midi_pads::midi::registry::{
    K8sToPadMidiMapping, MidiRegistry, PadMapping, ReadOnlyMapMidiRegistry,
    ReadOnlyMidiRegistryConfig,
};
use midi_pads::worker::actor::{route_event, PadId, PadRegistry, PAD_PRESSED_VALUE};

fn dbyte(b: u8) -> DataByte {
    DataByte::from_u8(b).unwrap()
}

fn sbyte(b: u8) -> Status {
    Status::from_u8(b).unwrap()
}

fn pad(status: u8, fst: u8) -> PadId {
    PadId { status: sbyte(status), fst_data_byte: dbyte(fst) }
}

fn event(status: u8, fst: u8, snd: u8) -> MidiMessage {
    MidiMessage { status: sbyte(status), fst_data_byte: dbyte(fst), snd_data_byte: dbyte(snd) }
}

fn deployment(context: &str, namespace: &str, name: &str) -> DeploymentId {
    DeploymentId {
        context: ClusterContext(context.to_string()),
        namespace: Namespace(namespace.to_string()),
        deployment: DeploymentName(name.to_string()),
    }
}

fn flat_mapping(status: u8, fst: u8) -> PadMapping {
    PadMapping {
        status: sbyte(status),
        fst_data_byte: dbyte(fst),
        green_data_byte: dbyte(1),
        yellow_data_byte: dbyte(2),
        orange_data_byte: dbyte(3),
        red_data_byte: dbyte(4),
    }
}

#[test]
fn press_on_registered_pad_forwards_one_command() {
    let mut registry = PadRegistry::new();
    registry.register(pad(144, 10), 0);
    registry.register(pad(144, 11), 1);
    let target = route_event(&event(144, 11, PAD_PRESSED_VALUE), &registry);
    assert_eq!(target, Some(1));
}

#[test]
fn unregistered_pad_forwards_nothing() {
    let mut registry = PadRegistry::new();
    registry.register(pad(144, 10), 0);
    assert_eq!(route_event(&event(144, 11, PAD_PRESSED_VALUE), &registry), None);
    assert_eq!(route_event(&event(145, 10, PAD_PRESSED_VALUE), &registry), None);
}

#[test]
fn non_press_byte_forwards_nothing() {
    let mut registry = PadRegistry::new();
    registry.register(pad(144, 10), 0);
    assert_eq!(route_event(&event(144, 10, 0), &registry), None);
    assert_eq!(route_event(&event(144, 10, 126), &registry), None);
}

#[test]
fn later_registration_for_same_pad_wins() {
    let mut registry = PadRegistry::new();
    registry.register(pad(144, 10), 0);
    registry.register(pad(144, 10), 7);
    assert_eq!(registry.lookup(&pad(144, 10)), Some(7));
}

#[test]
fn midi_registry_finds_configured_deployment() {
    let registry = ReadOnlyMapMidiRegistry::new(ReadOnlyMidiRegistryConfig {
        mappings: vec![
            K8sToPadMidiMapping {
                deployment_id: deployment("prod", "apps", "web"),
                pad_midi_mapping: flat_mapping(144, 10),
            },
            K8sToPadMidiMapping {
                deployment_id: deployment("prod", "apps", "api"),
                pad_midi_mapping: flat_mapping(144, 11),
            },
        ],
    });
    assert_eq!(registry.get(&deployment("prod", "apps", "api")), Some(flat_mapping(144, 11)));
    assert_eq!(registry.get(&deployment("prod", "apps", "web")), Some(flat_mapping(144, 10)));
    assert_eq!(registry.get(&deployment("prod", "apps", "db")), None);
    assert_eq!(registry.get(&deployment("dev", "apps", "web")), None);
}

#[test]
fn midi_registry_last_entry_wins_on_duplicate_ids() {
    let registry = ReadOnlyMapMidiRegistry::new(ReadOnlyMidiRegistryConfig {
        mappings: vec![
            K8sToPadMidiMapping {
                deployment_id: deployment("prod", "apps", "web"),
                pad_midi_mapping: flat_mapping(144, 10),
            },
            K8sToPadMidiMapping {
                deployment_id: deployment("prod", "apps", "web"),
                pad_midi_mapping: flat_mapping(144, 20),
            },
        ],
    });
    assert_eq!(registry.get(&deployment("prod", "apps", "web")), Some(flat_mapping(144, 20)));
}
