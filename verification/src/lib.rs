//! Verified core of the HASM-OpenBMC firmware: SCSI/USB mass-storage wire
//! formats, block-device logic, the Redfish-style management protocol, the
//! UART console line discipline, the VNC diagnostic protocol and the power
//! control decisions. Hardware and network I/O live outside this crate and
//! drive the state machines defined here.

pub mod block;
pub mod config;
pub mod consts;
pub mod drivers;
pub mod firmware;
pub mod scsi;
pub mod services;
pub mod storage;
pub mod utils;
pub mod wire;
