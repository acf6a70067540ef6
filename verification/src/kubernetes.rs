//! The Kubernetes-facing model: deployment identifiers, the status-query
//! collaborator interface, the pure condition-resolution algorithm, and
//! stub clients.

pub mod conditions;
pub mod model;
pub mod stubs;
