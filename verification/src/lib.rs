//! The bridge between a phone and the Codex application on a Mac.
pub mod account_status;
pub mod agent_laws;
pub mod bridge;
pub mod channel_laws;
pub mod codex_laws;
pub mod codex_transport;
pub mod config;
pub mod crypto;
pub mod daemon_state;
pub mod desktop;
pub mod device_laws;
pub mod git_handler;
pub mod git_laws;
pub mod git_text;
pub mod git_text_laws;
pub mod json;
pub mod json_rpc;
pub mod keyed;
pub mod macos_launch_agent;
pub mod message_laws;
pub mod mirror_laws;
pub mod package_version_status;
pub mod patch_laws;
pub mod path;
pub mod path_laws;
pub mod push;
pub mod qr;
pub mod relay_laws;
pub mod repository_laws;
pub mod rollout;
pub mod rollout_laws;
pub mod rollout_live_mirror;
pub mod runtime_laws;
pub mod script;
pub mod secure_device_state;
pub mod secure_transport;
pub mod service_laws;
pub mod session_state;
pub mod setup_laws;
pub mod text;
pub mod text_laws;
pub mod text_map;
pub mod voice;
pub mod workspace;
