//! Verified core of a KDE Connect desktop integration: the decisions the
//! daemon, its plugins and its IPC servers make, separated from the I/O that
//! carries them out.

pub mod clipboard;
pub mod mousepad;
pub mod text;
pub mod sms;
pub mod sftp;
pub mod theme;
pub mod service_varlink;
pub mod varlink_server;
