//! Reconciliation logic for a webhook sink resource: the desired worker pod,
//! the health policy of an existing pod, the status written back, and the
//! reconcile and cleanup passes as step machines driven by the caller.
pub mod resource;
pub mod health;
pub mod pod_spec;
pub mod status;
pub mod session;
pub mod laws;
