//! `soma adapter-binding-proof`: evidence that a private client calls the wrapper.
//!
//! A checked-in binding contract proves nothing of a private app. Each level of proof
//! asks for evidence of its own, and only the three strongest together, with evidence
//! files that are still what they were, allow the claim that a client is ready.
pub mod artifacts;
pub mod brief;
pub mod bundle;
pub mod card;
pub mod check;
pub mod collector;
pub mod config;
pub mod disk;
pub mod events;
pub mod evidence;
pub mod evidence_laws;
pub mod files;
pub mod flow;
pub mod flow_laws;
pub mod kit;
pub mod kit_laws;
pub mod labels;
pub mod nonce;
pub mod place_laws;
pub mod places;
pub mod prepare;
pub mod proof_laws;
pub mod proof_session;
pub mod readiness;
pub mod readiness_laws;
pub mod record;
pub mod repair;
pub mod scan_laws;
pub mod session;
pub mod session_laws;
pub mod stage_laws;
pub mod surfaces;
pub mod types;

pub use brief::render_proof_session_brief;
pub use bundle::run_evidence_bundle_blocking;
pub use check::{run_discover_installed_config_blocking, run_installed_config_check_blocking};
pub use kit::run_real_app_proof_kit_blocking;
pub use prepare::{
    run_prepare_installed_config_blocking, run_render_evidence_packet_blocking,
    run_render_installed_config_blocking,
};
pub use proof_session::run_proof_session_blocking;
pub use readiness::{build_client_binding_status_report, run_status_blocking};
pub use record::run_blocking;
pub use repair::{run_list_blocking, run_verify_evidence_artifacts_blocking};
pub use session::proof_session_render_evidence_artifact_path;
