//! Protocol and decision logic of the user-facing services: power control,
//! management HTTP, the TCP UART console bridge and the VNC diagnostic
//! endpoint.

pub mod console;
pub mod power_control;
pub mod vnc_server;
pub mod web_server;
