//! USB Mass Storage Class support: `transport` handles CBW/CSW packet layout,
//! `device` the bulk endpoint and control-request decisions, and `scsi` the
//! small read-only command set used for boot.

pub mod command_loop;
pub mod device;
pub mod scsi;
pub mod transport;
