//! Verified core of the Rift application indicator: the launchd service
//! manager's decisions and the menu-bar model built from Rift's workspaces.

pub mod command;
pub mod error;
pub mod indicator;
pub mod indicator_laws;
pub mod order;
pub mod paths;
pub mod plist;
pub mod service;
pub mod service_laws;
pub mod status_bar;
pub mod text;
