//! Report builders for the stand-alone audit commands.
pub mod email_check;
pub mod firewall_analysis;
pub mod ssl_check;
