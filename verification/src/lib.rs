//! Decision logic of the unpin command line: credentials, the credential
//! broker protocol, the desktop bridge, reviewed approvals and commands.
pub mod agent_plugin;
pub mod approval;
pub mod bridge_frame;
pub mod bridge_request;
pub mod bridge_session;
pub mod bridge_stage;
pub mod bridge_state;
pub mod broker;
pub mod broker_install;
pub mod broker_protocol;
pub mod broker_server;
pub mod commands;
pub mod credential_bundle;
pub mod cursor_dashboard;
pub mod discovery_cache;
pub mod gateway_credential;
pub mod group_definition;
pub mod json;
pub mod keys;
pub mod laws;
pub mod ordering;
pub mod plan_request;
pub mod provider_roots;
pub mod recovery;
pub mod report;
pub mod reviewed_plans;
pub mod secret_store;
pub mod text;
pub mod text_map;
pub mod workflow;
