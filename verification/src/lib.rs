use vstd::prelude::*;

pub mod agent_commands;
pub mod api_reports;
pub mod auth;
pub mod config;
pub mod connections;
pub mod forensic;
pub mod forensic_linux;
pub mod forensic_linux_detailed;
pub mod forensic_macos;
pub mod forensic_macos_detailed;
pub mod forensic_windows;
pub mod frames;
pub mod ids;
pub mod keyed;
pub mod orchestrator;
pub mod os_report;
pub mod plugin_data;
pub mod plugins;
pub mod protocol;
pub mod registry;
pub mod server_api;
pub mod sys_categories;
pub mod system_info;
pub mod text;
pub mod ws_inbound;
pub mod ws_manager;

verus! {
} // verus!
