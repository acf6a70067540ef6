//! The palette-based configuration shape and its translation into per-pad
//! check contexts, one per configured mapping.

use vstd::prelude::*;

use crate::kubernetes::model::{ClusterContext, DeploymentId, DeploymentName, Namespace};
use crate::midi::model::{ColorMapping, DataByte, PadMapping, Status};
use crate::worker::k8s;
use crate::worker::script;
use crate::worker::Seconds;

verus! {

/// The four-color palette a controller offers.
#[derive(Clone, Copy, Debug, PartialEq, Eq, Structural)]
pub struct PadColors {
    pub green: DataByte,
    pub red: DataByte,
    pub orange: DataByte,
    pub yellow: DataByte,
}

/// A deployment named by context, namespace and name.
#[derive(Clone, Debug)]
pub struct K8sDeployment {
    pub context: ClusterContext,
    pub namespace: Namespace,
    pub deployment: DeploymentName,
}

/// The two bytes identifying one pad.
#[derive(Clone, Copy, Debug, PartialEq, Eq, Structural)]
pub struct Pad {
    pub status: Status,
    pub fst_data_byte: DataByte,
}

/// Configuration of one status-check pad.
pub struct K8sPadMapping {
    pub deployment: DeploymentId,
    pub schedule_seconds: Seconds,
    pub pad: Pad,
}

/// Configuration of one script pad.
pub struct ScriptPadMapping {
    pub envs: script::Envs,
    pub command: script::Command,
    pub args: script::CommandArgs,
    pub pad: Pad,
    pub schedule_seconds: Seconds,
}

/// One configured mapping, by handler kind.
pub enum ConfigMapping {
    K8S(K8sPadMapping),
    Script(ScriptPadMapping),
}

/// Name of the controller the pads belong to.
#[derive(Clone, Debug)]
pub struct ControllerName(pub String);

/// One controller's palette and its configured mappings.
pub struct ControllerMappings {
    pub color_palette: PadColors,
    pub mappings: Vec<ConfigMapping>,
}

/// The whole configuration: the controller and its mappings.
pub struct K8sMidiMapping {
    pub controller_name: ControllerName,
    pub controller_mappings: ControllerMappings,
}

/// One translated check context, by handler kind.
pub enum ParsedContext {
    K8S(k8s::K8sContext),
    Script(script::ScriptContext),
}

/// The pad mapping a configured pad gets under a palette.
pub open spec fn spec_pad_mapping(palette: PadColors, pad: Pad) -> PadMapping {
    PadMapping {
        status: pad.status,
        fst_data_byte: pad.fst_data_byte,
        color_mapping: ColorMapping {
            green_data_byte: palette.green,
            yellow_data_byte: palette.yellow,
            orange_data_byte: palette.orange,
            red_data_byte: palette.red,
        },
    }
}

/// The translation of one configured mapping under a palette.
pub open spec fn spec_context_of(palette: PadColors, mapping: ConfigMapping) -> ParsedContext {
    match mapping {
        ConfigMapping::K8S(k8s_m) => ParsedContext::K8S(
            k8s::K8sContext {
                deployment_id: k8s_m.deployment,
                schedule_every_seconds: k8s_m.schedule_seconds,
                pad_mapping: spec_pad_mapping(palette, k8s_m.pad),
            },
        ),
        ConfigMapping::Script(script_m) => ParsedContext::Script(
            script::ScriptContext {
                envs: script_m.envs,
                command: script_m.command,
                args: script_m.args,
                pad_mapping: spec_pad_mapping(palette, script_m.pad),
                schedule_seconds: script_m.schedule_seconds,
            },
        ),
    }
}

fn pad_mapping_of(palette: &PadColors, pad: Pad) -> (r: PadMapping)
    ensures
        r == spec_pad_mapping(*palette, pad),
{
    PadMapping {
        status: pad.status,
        fst_data_byte: pad.fst_data_byte,
        color_mapping: ColorMapping {
            green_data_byte: palette.green,
            yellow_data_byte: palette.yellow,
            orange_data_byte: palette.orange,
            red_data_byte: palette.red,
        },
    }
}

/// Translates every configured mapping into its check context, keeping order.
pub fn extract_contexts(controller_mappings: ControllerMappings) -> (r: Vec<ParsedContext>)
    ensures
        r@.len() == controller_mappings.mappings@.len(),
        forall|i: int|
            0 <= i < controller_mappings.mappings@.len() ==> #[trigger] r@[i] == spec_context_of(
                controller_mappings.color_palette,
                controller_mappings.mappings@[i],
            ),
{
    let ControllerMappings { color_palette, mappings } = controller_mappings;
    let ghost orig = mappings@;
    let mut mappings = mappings;
    let mut contexts: Vec<ParsedContext> = Vec::new();
    while mappings.len() > 0
        invariant
            contexts@.len() + mappings@.len() == orig.len(),
            forall|i: int|
                0 <= i < contexts@.len() ==> #[trigger] contexts@[i] == spec_context_of(
                    color_palette,
                    orig[i],
                ),
            forall|j: int|
                0 <= j < mappings@.len() ==> #[trigger] mappings@[j] == orig[contexts@.len() + j],
        decreases mappings@.len(),
    {
        let mapping = mappings.remove(0);
        let context = match mapping {
            ConfigMapping::K8S(k8s_m) => ParsedContext::K8S(
                k8s::K8sContext {
                    deployment_id: k8s_m.deployment,
                    schedule_every_seconds: k8s_m.schedule_seconds,
                    pad_mapping: pad_mapping_of(&color_palette, k8s_m.pad),
                },
            ),
            ConfigMapping::Script(script_m) => ParsedContext::Script(
                script::ScriptContext {
                    envs: script_m.envs,
                    command: script_m.command,
                    args: script_m.args,
                    pad_mapping: pad_mapping_of(&color_palette, script_m.pad),
                    schedule_seconds: script_m.schedule_seconds,
                },
            ),
        };
        contexts.push(context);
    }
    contexts
}

} // verus!
