//! The configuration shape consumed per pad, and its translation into the
//! actor and handler configurations. Loading the shape from a file is an
//! external collaborator's job.

use std::collections::HashMap;

use vstd::prelude::*;

use crate::kubernetes::model::DeploymentId;
use crate::midi::model::DataByte;
use crate::worker::actor;
use crate::worker::k8s as k8s_handler;
use crate::worker::script as script_handler;
use crate::worker::Seconds;

verus! {

/// The handler selector of one pad, with its handler-specific parameters.
pub enum HandlerConfig {
    K8S { deployment_id: DeploymentId, depl_in_progress: DataByte, unknown: DataByte },
    Script { envs: HashMap<String, String>, command: String, args: Vec<String> },
}

/// One pad's configuration: identity, period, handler.
pub struct PadConfig {
    pub pad_id: actor::PadId,
    pub every_seconds: u8,
    pub handler: HandlerConfig,
}

/// The whole configuration: the controller, one shared palette, the pads.
pub struct K8sMidiMapping {
    pub controller_name: Option<String>,
    pub color_palette: actor::ColorMapping,
    pub mappings: Vec<PadConfig>,
}

/// A handler configuration translated to the handler variant it selects.
pub enum ParsedHandlerConfig {
    K8S(k8s_handler::Config),
    Script(script_handler::Config),
}

/// The translation of one handler configuration.
pub open spec fn spec_parse_handler(value: HandlerConfig) -> ParsedHandlerConfig {
    match value {
        HandlerConfig::K8S { deployment_id, depl_in_progress, unknown } => ParsedHandlerConfig::K8S(
            k8s_handler::Config { deployment_id, unknown, depl_in_progress },
        ),
        HandlerConfig::Script { envs, command, args } => ParsedHandlerConfig::Script(
            script_handler::Config { envs, command, args },
        ),
    }
}

impl vstd::std_specs::convert::FromSpecImpl<HandlerConfig> for ParsedHandlerConfig {
    open spec fn obeys_from_spec() -> bool {
        true
    }

    open spec fn from_spec(value: HandlerConfig) -> ParsedHandlerConfig {
        spec_parse_handler(value)
    }
}

impl From<HandlerConfig> for ParsedHandlerConfig {
    fn from(value: HandlerConfig) -> (r: ParsedHandlerConfig) {
        match value {
            HandlerConfig::K8S { deployment_id, depl_in_progress, unknown } => {
                ParsedHandlerConfig::K8S(
                    k8s_handler::Config { deployment_id, unknown, depl_in_progress },
                )
            },
            HandlerConfig::Script { envs, command, args } => {
                ParsedHandlerConfig::Script(script_handler::Config { envs, command, args })
            },
        }
    }
}

/// One pad's translated configuration: for the actor and for its handler.
pub struct ParsedPadConfig {
    pub actor_config: actor::Config,
    pub handler_config: ParsedHandlerConfig,
}

/// The whole translated configuration.
pub struct ParsedPadConfigs {
    pub controller_name: Option<String>,
    pub pad_configs: Vec<ParsedPadConfig>,
}

/// The translation of one pad configuration under a shared palette: the
/// pad's identity and the palette make its mapping, the period carries over
/// in seconds, and the handler translates as `spec_parse_handler` says.
pub open spec fn spec_parsed_pad(
    palette: actor::ColorMapping,
    config: PadConfig,
) -> ParsedPadConfig {
    ParsedPadConfig {
        actor_config: actor::Config {
            pad_mapping: actor::PadMapping { pad_id: config.pad_id, color_mapping: palette },
            schedule_every: Seconds(config.every_seconds as u64),
        },
        handler_config: spec_parse_handler(config.handler),
    }
}

/// Translates the whole configuration, one pad at a time, keeping order.
pub fn parse(midi_mapping: K8sMidiMapping) -> (r: ParsedPadConfigs)
    ensures
        r.controller_name == midi_mapping.controller_name,
        r.pad_configs@.len() == midi_mapping.mappings@.len(),
        forall|i: int|
            0 <= i < midi_mapping.mappings@.len() ==> #[trigger] r.pad_configs@[i]
                == spec_parsed_pad(midi_mapping.color_palette, midi_mapping.mappings@[i]),
{
    let K8sMidiMapping { controller_name, color_palette, mappings } = midi_mapping;
    let ghost orig = mappings@;
    let mut mappings = mappings;
    let mut pad_configs: Vec<ParsedPadConfig> = Vec::new();
    while mappings.len() > 0
        invariant
            pad_configs@.len() + mappings@.len() == orig.len(),
            forall|i: int|
                0 <= i < pad_configs@.len() ==> #[trigger] pad_configs@[i] == spec_parsed_pad(
                    color_palette,
                    orig[i],
                ),
            forall|j: int|
                0 <= j < mappings@.len() ==> #[trigger] mappings@[j] == orig[pad_configs@.len()
                    + j],
        decreases mappings@.len(),
    {
        let config = mappings.remove(0);
        let PadConfig { pad_id, every_seconds, handler } = config;
        pad_configs.push(
            ParsedPadConfig {
                actor_config: actor::Config {
                    pad_mapping: actor::PadMapping { pad_id, color_mapping: color_palette },
                    schedule_every: Seconds(every_seconds as u64),
                },
                handler_config: ParsedHandlerConfig::from(handler),
            },
        );
    }
    ParsedPadConfigs { controller_name, pad_configs }
}

} // verus!
