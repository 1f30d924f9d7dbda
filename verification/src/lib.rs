//! Security audit toolkit: the decisions and reports behind the DNS/e-mail,
//! TLS, firewall-configuration and port audits, and the risk scoring that
//! summarises their findings. Lookups, connections and file access are made
//! by the caller, which hands the outcomes to these functions.
pub mod text;
pub mod http_status;
pub mod commands;
pub mod backend;
