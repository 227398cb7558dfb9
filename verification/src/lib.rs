//! Passivate's core: naming of hypotheses (tests), a tree keyed by id
//! chains, configuration, coverage status, logging and the decisions that
//! drive the views, each stated and proved with Verus.
pub mod text;
pub mod package_id;
pub mod crate_id;
pub mod id_chain;
pub mod hyp_id;
pub mod hyp_name_strategy;
pub mod node;
pub mod node_view;
pub mod entry;
pub mod tree;
pub mod one_way_flag;
pub mod cancellation;
pub mod tx_rx;
pub mod log_message;
pub mod log_entry;
pub mod tx_log;
pub mod configuration;
pub mod configuration_errors;
pub mod configuration_source;
pub mod default_paths;
pub mod configuration_manager;
pub mod coverage_status;
pub mod compute_coverage;
pub mod hyp;
pub mod passivate_state_change;
pub mod passivate_state;
pub mod dock_view;
pub mod session_view;
pub mod details_view;
pub mod coverage_view;
pub mod configuration_view;
pub mod log_view;
pub mod passivate_view_state;
pub mod layout_management;
pub mod app_update;
pub mod passivate_views;
pub mod snapshot_handles;
