//! Protocol logic of the board's drivers: the USB mass-storage transport and
//! SCSI command set, and the power LED.

pub mod led;
pub mod usb_msc;
