//! The deployment-to-pad registry: maps a deployment id to the pad that
//! displays it. Built once at startup and read-only afterwards.

use vstd::prelude::*;

use crate::kubernetes::model::{id_key, DeploymentId};
use crate::midi::model::{DataByte, Status};

verus! {

/// A pad's identity and its full palette, flattened.
#[derive(Clone, Copy, Debug, PartialEq, Eq, Structural)]
pub struct PadMapping {
    pub status: Status,
    pub fst_data_byte: DataByte,
    pub green_data_byte: DataByte,
    pub yellow_data_byte: DataByte,
    pub orange_data_byte: DataByte,
    pub red_data_byte: DataByte,
}

/// Lookup of the pad that displays a deployment.
pub trait MidiRegistry {
    /// The mapping this registry holds for a deployment key.
    spec fn spec_get(&self, key: (Seq<char>, Seq<char>, Seq<char>)) -> Option<PadMapping>;

    fn get(&self, deployment_id: &DeploymentId) -> (r: Option<PadMapping>)
        ensures
            r == self.spec_get(id_key(*deployment_id)),
    ;
}

/// One configured deployment-to-pad entry.
pub struct K8sToPadMidiMapping {
    pub deployment_id: DeploymentId,
    pub pad_midi_mapping: PadMapping,
}

/// The registry's startup configuration.
pub struct ReadOnlyMidiRegistryConfig {
    pub mappings: Vec<K8sToPadMidiMapping>,
}

/// An immutable registry over the configured entries; for a deployment
/// configured more than once, the last entry wins.
pub struct ReadOnlyMapMidiRegistry(Vec<(DeploymentId, PadMapping)>);

impl ReadOnlyMapMidiRegistry {
    pub closed spec fn spec_entries(&self) -> Seq<(DeploymentId, PadMapping)> {
        self.0@
    }

    /// The mapping of the last entry whose id matches the key.
    pub open spec fn spec_lookup(
        entries: Seq<(DeploymentId, PadMapping)>,
        key: (Seq<char>, Seq<char>, Seq<char>),
    ) -> Option<PadMapping>
        decreases entries.len(),
    {
        if entries.len() == 0 {
            None
        } else if id_key(entries.last().0) == key {
            Some(entries.last().1)
        } else {
            Self::spec_lookup(entries.drop_last(), key)
        }
    }

    pub fn new(config: ReadOnlyMidiRegistryConfig) -> (r: ReadOnlyMapMidiRegistry)
        ensures
            r.spec_entries().len() == config.mappings@.len(),
            forall|i: int|
                0 <= i < config.mappings@.len() ==> #[trigger] r.spec_entries()[i] == (
                    config.mappings@[i].deployment_id,
                    config.mappings@[i].pad_midi_mapping,
                ),
    {
        let ghost orig = config.mappings@;
        let mut mappings = config.mappings;
        let mut entries: Vec<(DeploymentId, PadMapping)> = Vec::new();
        while mappings.len() > 0
            invariant
                entries@.len() + mappings@.len() == orig.len(),
                forall|i: int|
                    0 <= i < entries@.len() ==> #[trigger] entries@[i] == (
                        orig[i].deployment_id,
                        orig[i].pad_midi_mapping,
                    ),
                forall|j: int|
                    0 <= j < mappings@.len() ==> #[trigger] mappings@[j] == orig[entries@.len()
                        + j],
            decreases mappings@.len(),
        {
            let mapping = mappings.remove(0);
            entries.push((mapping.deployment_id, mapping.pad_midi_mapping));
        }
        ReadOnlyMapMidiRegistry(entries)
    }
}

impl MidiRegistry for ReadOnlyMapMidiRegistry {
    open spec fn spec_get(&self, key: (Seq<char>, Seq<char>, Seq<char>)) -> Option<PadMapping> {
        Self::spec_lookup(self.spec_entries(), key)
    }

    fn get(&self, deployment_id: &DeploymentId) -> (r: Option<PadMapping>) {
        let mut i: usize = self.0.len();
        proof {
            assert(self.spec_entries().take(i as int) =~= self.spec_entries());
        }
        while i > 0
            invariant
                i <= self.0.len(),
                Self::spec_lookup(self.spec_entries(), id_key(*deployment_id))
                    == Self::spec_lookup(
                    self.spec_entries().take(i as int),
                    id_key(*deployment_id),
                ),
            decreases i,
        {
            i = i - 1;
            if self.0[i].0.matches(deployment_id) {
                return Some(self.0[i].1);
            }
            proof {
                assert(self.spec_entries().take(i as int + 1).drop_last() =~= self.spec_entries()
                    .take(i as int));
            }
        }
        None
    }
}

} // verus!
