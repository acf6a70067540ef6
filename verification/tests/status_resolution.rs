use midi_pads::kubernetes::conditions::{
    status_to_bool, summarize, DeploymentCondition, DeploymentConditionsSummary,
};
use midi_pads::kubernetes::model::DeploymentStatus;

fn cond(type_: &str, status: &str) -> DeploymentCondition {
    DeploymentCondition { type_: type_.to_string(), status: status.to_string() }
}

fn resolve(conditions: Vec<DeploymentCondition>) -> DeploymentStatus {
    summarize(&conditions).status()
}

#[test]
fn status_to_bool_recognizes_true_and_false_only() {
    assert_eq!(status_to_bool("True"), Some(true));
    assert_eq!(status_to_bool("False"), Some(false));
    assert_eq!(status_to_bool("Unknown"), None);
    assert_eq!(status_to_bool("true"), None);
    assert_eq!(status_to_bool(""), None);
}

#[test]
fn replica_failure_dominates() {
    assert_eq!(resolve(vec![cond("ReplicaFailure", "True")]), DeploymentStatus::NonOK);
    assert_eq!(
        resolve(vec![
            cond("Available", "True"),
            cond("Progressing", "True"),
            cond("ReplicaFailure", "True"),
        ]),
        DeploymentStatus::NonOK
    );
}

#[test]
fn available_and_progressing_is_ok() {
    assert_eq!(
        resolve(vec![cond("Available", "True"), cond("Progressing", "True")]),
        DeploymentStatus::OK
    );
}

#[test]
fn available_without_progress_is_non_ok() {
    assert_eq!(
        resolve(vec![cond("Available", "True"), cond("Progressing", "False")]),
        DeploymentStatus::NonOK
    );
}

#[test]
fn progressing_alone_is_in_progress() {
    assert_eq!(resolve(vec![cond("Progressing", "True")]), DeploymentStatus::InProgress);
}

#[test]
fn no_observations_is_unknown() {
    assert_eq!(resolve(vec![]), DeploymentStatus::Unknown);
}

#[test]
fn last_observation_wins() {
    assert_eq!(
        resolve(vec![
            cond("Available", "False"),
            cond("Progressing", "True"),
            cond("Available", "True"),
        ]),
        DeploymentStatus::OK
    );
}

#[test]
fn unrecognized_names_and_values_are_ignored() {
    let summary = summarize(&vec![
        cond("Available", "True"),
        cond("SomethingElse", "True"),
        cond("Available", "Unknown"),
    ]);
    assert_eq!(summary.available, Some(true));
    assert_eq!(summary.progressing, None);
    assert_eq!(summary.replica_failure, None);
}

#[test]
fn merge_overwrites_one_field_at_a_time() {
    let mut summary = DeploymentConditionsSummary::default();
    assert_eq!(summary.available, None);
    summary.merge(&cond("Progressing", "True"));
    assert_eq!(summary.progressing, Some(true));
    summary.merge(&cond("Progressing", "False"));
    assert_eq!(summary.progressing, Some(false));
    summary.merge(&cond("ReplicaFailure", "True"));
    assert_eq!(summary.replica_failure, Some(true));
    assert_eq!(summary.status(), DeploymentStatus::NonOK);
}
