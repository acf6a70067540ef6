//! The status resolution algorithm: folds the named tri-state condition
//! observations of one query into a summary, and resolves the summary to one
//! coarse deployment status.

use vstd::prelude::*;

use crate::kubernetes::model::DeploymentStatus;

verus! {

/// One named tri-state observation reported for a deployment, as plain
/// strings: a condition name and its reported status value.
#[derive(Clone, Debug)]
pub struct DeploymentCondition {
    pub type_: String,
    pub status: String,
}

/// String equality, stated over the character sequences.
fn str_eq(a: &str, b: &str) -> (r: bool)
    ensures
        r == (a@ == b@),
{
    let a_string = a.to_owned();
    let b_string = b.to_owned();
    a_string == b_string
}

/// The boolean a reported condition status resolves to: only the exact
/// strings "True" and "False" resolve; anything else is unknown.
pub open spec fn spec_status_to_bool(s: Seq<char>) -> Option<bool> {
    if s == "True"@ {
        Some(true)
    } else if s == "False"@ {
        Some(false)
    } else {
        None
    }
}

pub fn status_to_bool(status: &str) -> (r: Option<bool>)
    ensures
        r == spec_status_to_bool(status@),
{
    if str_eq(status, "True") {
        Some(true)
    } else if str_eq(status, "False") {
        Some(false)
    } else {
        None
    }
}

/// Accumulator of the three recognized condition fields; rebuilt for each
/// query, every field initially unset.
#[derive(Clone, Copy, Debug, PartialEq, Eq, Structural)]
pub struct DeploymentConditionsSummary {
    pub available: Option<bool>,
    pub progressing: Option<bool>,
    pub replica_failure: Option<bool>,
}

/// The summary with every field unset.
pub open spec fn spec_empty_summary() -> DeploymentConditionsSummary {
    DeploymentConditionsSummary { available: None, progressing: None, replica_failure: None }
}

impl Default for DeploymentConditionsSummary {
    fn default() -> (r: DeploymentConditionsSummary)
        ensures
            r == spec_empty_summary(),
    {
        DeploymentConditionsSummary { available: None, progressing: None, replica_failure: None }
    }
}

/// One observation folded into a summary: an observation whose name is one of
/// Available, Progressing or ReplicaFailure and whose value resolves to a
/// boolean overwrites that field (last observed wins); unrecognized names and
/// unresolvable values leave the summary unchanged.
pub open spec fn spec_merge(
    s: DeploymentConditionsSummary,
    type_: Seq<char>,
    status: Seq<char>,
) -> DeploymentConditionsSummary {
    let translated = spec_status_to_bool(status);
    if translated is None {
        s
    } else if type_ == "Available"@ {
        DeploymentConditionsSummary {
            available: translated,
            progressing: s.progressing,
            replica_failure: s.replica_failure,
        }
    } else if type_ == "Progressing"@ {
        DeploymentConditionsSummary {
            available: s.available,
            progressing: translated,
            replica_failure: s.replica_failure,
        }
    } else if type_ == "ReplicaFailure"@ {
        DeploymentConditionsSummary {
            available: s.available,
            progressing: s.progressing,
            replica_failure: translated,
        }
    } else {
        s
    }
}

/// A whole query's observations folded into a summary, in order.
pub open spec fn spec_summarize(
    s: DeploymentConditionsSummary,
    conditions: Seq<DeploymentCondition>,
) -> DeploymentConditionsSummary
    decreases conditions.len(),
{
    if conditions.len() == 0 {
        s
    } else {
        spec_summarize(
            spec_merge(s, conditions[0].type_@, conditions[0].status@),
            conditions.drop_first(),
        )
    }
}

/// The resolution of a summary, first matching rule winning: a reported
/// replica failure dominates; availability with progress is the only OK;
/// availability without progress is NonOK; progress alone is InProgress;
/// everything else is Unknown.
pub open spec fn spec_resolution(s: DeploymentConditionsSummary) -> DeploymentStatus {
    if s.replica_failure == Some(true) {
        DeploymentStatus::NonOK
    } else if s.available == Some(true) && s.progressing == Some(true) {
        DeploymentStatus::OK
    } else if s.available == Some(true) && s.progressing == Some(false) {
        DeploymentStatus::NonOK
    } else if s.progressing == Some(true) {
        DeploymentStatus::InProgress
    } else {
        DeploymentStatus::Unknown
    }
}

impl DeploymentConditionsSummary {
    /// Folds one observation into the summary.
    pub fn merge(&mut self, condition: &DeploymentCondition)
        ensures
            *final(self) == spec_merge(*old(self), condition.type_@, condition.status@),
    {
        let translated_status = status_to_bool(condition.status.as_str());
        if translated_status.is_some() {
            if str_eq(condition.type_.as_str(), "Available") {
                self.available = translated_status;
            } else if str_eq(condition.type_.as_str(), "Progressing") {
                self.progressing = translated_status;
            } else if str_eq(condition.type_.as_str(), "ReplicaFailure") {
                self.replica_failure = translated_status;
            }
        }
    }

    /// Resolves the summary to one coarse deployment status.
    pub fn status(&self) -> (r: DeploymentStatus)
        ensures
            r == spec_resolution(*self),
    {
        match (self.available, self.progressing, self.replica_failure) {
            (_, _, Some(true)) => DeploymentStatus::NonOK,
            (Some(true), Some(true), _) => DeploymentStatus::OK,
            (Some(true), Some(false), _) => DeploymentStatus::NonOK,
            (_, Some(true), _) => DeploymentStatus::InProgress,
            _ => DeploymentStatus::Unknown,
        }
    }
}

/// Folds a whole query's observations, starting from the empty summary.
pub fn summarize(conditions: &Vec<DeploymentCondition>) -> (r: DeploymentConditionsSummary)
    ensures
        r == spec_summarize(spec_empty_summary(), conditions@),
{
    let mut summary = DeploymentConditionsSummary {
        available: None,
        progressing: None,
        replica_failure: None,
    };
    let mut i: usize = 0;
    proof {
        assert(conditions@.skip(0) =~= conditions@);
    }
    while i < conditions.len()
        invariant
            i <= conditions.len(),
            spec_summarize(summary, conditions@.skip(i as int)) == spec_summarize(
                spec_empty_summary(),
                conditions@,
            ),
        decreases conditions.len() - i,
    {
        summary.merge(&conditions[i]);
        proof {
            assert(conditions@.skip(i as int).drop_first() =~= conditions@.skip(i as int + 1));
        }
        i = i + 1;
    }
    summary
}

/// The resolution rules, spelled out: a reported replica failure yields
/// NonOK whatever the other fields hold; otherwise availability with
/// progress is OK, availability without progress is NonOK, progress without
/// availability is InProgress, and a summary with nothing resolved is
/// Unknown.
pub proof fn lemma_resolution_rules(s: DeploymentConditionsSummary)
    ensures
        s.replica_failure == Some(true) ==> spec_resolution(s) is NonOK,
        s.replica_failure != Some(true) && s.available == Some(true) && s.progressing == Some(true)
            ==> spec_resolution(s) is OK,
        s.replica_failure != Some(true) && s.available == Some(true) && s.progressing == Some(
            false,
        ) ==> spec_resolution(s) is NonOK,
        s.replica_failure != Some(true) && s.available != Some(true) && s.progressing == Some(true)
            ==> spec_resolution(s) is InProgress,
        s == spec_empty_summary() ==> spec_resolution(s) is Unknown,
{
}

} // verus!
