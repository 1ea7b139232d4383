//! Self-updater for the Gnosis VPN client: version gating, manifest handling,
//! resumable downloads, installer choices and the install engine.

pub mod cli;
pub mod foreign;
pub mod manifest;
pub mod text;
pub mod update;
pub mod vpn_status;
