use vstd::prelude::*;

pub mod json;
pub mod json_text;
pub mod text;
pub mod cli;
pub mod fields;
pub mod command_input_json;
pub mod command_reconciliation;
pub mod command_artifacts;
pub mod cmd_distributed_runtime_profile;
pub mod cmd_distributed_runtime_benchmark;
pub mod cmd_distributed_load_profile;
pub mod cmd_scheduler_heartbeat_pointer_rollback_supersession_reconcile;
pub mod cmd_scheduler_heartbeat_pointer_rollback_reconcile;
pub mod cmd_scheduler_heartbeat_pointer_rollback;
pub mod cmd_distributed_shard_lineage_handoff_reconcile;
pub mod cmd_distributed_shard_lineage_evidence_bundle_reconcile;
pub mod cmd_distributed_shard_lineage_evidence_bundle;
pub mod cmd_distributed_shard_lineage_receipt;
pub mod cmd_scheduler_heartbeat_pointer_rollback_supersession_history;
pub mod cmd_deployment_verification_receipt_transport_locator_reconciliation_history;
pub mod cmd_deployment_verification_receipt_rollback_supersession_reconcile;
pub mod cmd_deployment_verification_receipt_rollback_supersession;
pub mod cmd_scheduler_heartbeat_supersession_reconcile;
pub mod cmd_scheduler_heartbeat_pointer_rollback_supersession;
pub mod cmd_verify_rollout;
pub mod cmd_drift_receipt;
pub mod cmd_eval;
pub mod cmd_profiling_environment_snapshot_refresh;
pub mod cmd_optimized_model_local_profile;
pub mod evidence_source;
pub mod cmd_deployment_verification_receipt_reconcile;
pub mod cmd_hf_publish;
pub mod cmd_scheduler_heartbeat_supersession;
pub mod cmd_scheduler_heartbeat_pointer_history;
pub mod cmd_scheduler_heartbeat_pointer_reconcile;
pub mod cmd_kube_rs_lease_reconcile;
pub mod cmd_scheduler_heartbeat_reconcile;
pub mod cmd_scheduler_heartbeat_history;
pub mod cmd_scheduler_heartbeat;
pub mod cmd_drift_baseline_refresh;
pub mod cmd_drift_baseline;
pub mod cmd_drift_baseline_bundle;
pub mod cmd_drift_baseline_supersession;
pub mod cmd_drift_baseline_rollback;
pub mod cmd_drift_baseline_approval;
pub mod cmd_profiling_provenance_bundle;
pub mod cmd_profiling_provenance_receipt;
pub mod cmd_pretraining_source_provenance_evidence_bundle;
pub mod cmd_pretraining_source_provenance_receipt;
pub mod cmd_pretraining_source_approval_receipt;
pub mod cmd_distributed_shard_lineage_handoff;
pub mod cmd_distributed_shard_lineage_transport_locator;
pub mod cmd_deployment_verification_receipt_transport_locator;
pub mod cmd_rollback_current_pointer;
pub mod cmd_kube_rs_lease_pointer;
pub mod cmd_scheduler_heartbeat_pointer;
pub mod cmd_profiling_environment_snapshot;
pub mod cmd_profiling_infer;
pub mod cmd_single_node_scheduler;
pub mod data;
pub mod infer;
pub mod paths;
pub mod float_text;
pub mod cmd_train;
pub mod cmd_infer;
pub mod cmd_upload;
pub mod cmd_scheduler_runtime_simulation;
pub mod cmd_drift_baseline_pointer;

verus! {

} // verus!
