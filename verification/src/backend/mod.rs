//! The audits behind the desktop application's commands, each ending in an
//! envelope that says whether it ran, what to show, and its data.
pub mod findings;
pub mod risk;
pub mod email;
pub mod ssl;
pub mod firewall;
pub mod ports;
pub mod router;
pub mod export;
