//! Install-or-update and launch logic of the TruckersMP launcher manager.
//!
//! The library holds the decisions of the launcher manager as verified state
//! machines over plain values; the program around it performs the file, network
//! and process work that each machine asks for.

pub mod text;
pub mod web_url;
pub mod aria_source;
pub mod error;
pub mod release;
pub mod install;
pub mod command;
pub mod bridge;
pub mod launch;
