//! The commands.
pub mod adapter_binding_proof;
pub mod adapter_capture;
pub mod adapter_cloud_output;
pub mod adapter_lifecycle;
pub mod adapter_spool;
pub mod adapter_spool_laws;
pub mod backfill;
pub mod binary_identity;
pub mod capture;
pub mod context;
pub mod diagnose;
pub mod forget;
pub mod inspect;
