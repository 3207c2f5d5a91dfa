//! Logic of the two single-purpose firmware images: the minimal Redfish
//! power controller and the blank virtual USB disk.

pub mod bmc;
pub mod usb_msc;
