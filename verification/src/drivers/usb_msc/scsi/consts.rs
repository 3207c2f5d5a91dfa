//! SCSI and USB MSC constants used by the transparent command set.
//!
//! Wire values are kept next to their symbolic names. Multi-byte fields of
//! SCSI responses are big-endian; CBW/CSW transport packets are little-endian.

use vstd::prelude::*;

verus! {

/// Status byte placed in the USB MSC Command Status Wrapper.
#[derive(Debug, Clone, Copy, PartialEq, Eq, Structural)]
pub enum ScsiStatus {
    /// Command completed successfully.
    ScsiSuccess,
    /// Command failed; the host may request sense data.
    ScsiFail,
}

impl ScsiStatus {
    /// Wire value of the status.
    pub open spec fn spec_code(self) -> u8 {
        match self {
            ScsiStatus::ScsiSuccess => 0,
            ScsiStatus::ScsiFail => 1,
        }
    }

    /// Wire value of the status (`0` success, `1` failure).
    pub fn code(self) -> (r: u8)
        ensures
            r == self.spec_code(),
    {
        match self {
            ScsiStatus::ScsiSuccess => 0,
            ScsiStatus::ScsiFail => 1,
        }
    }
}

/// REQUEST SENSE response-code values.
pub enum ScsiSenseRespCode {
    /// Error information describes the current command.
    Current,
    /// Error information describes a deferred condition.
    Deferred,
}

impl ScsiSenseRespCode {
    /// Wire value of the response code.
    pub fn code(&self) -> (r: u8)
        ensures
            r == (match *self {
                ScsiSenseRespCode::Current => 0x70u8,
                ScsiSenseRespCode::Deferred => 0x71u8,
            }),
    {
        match self {
            ScsiSenseRespCode::Current => 0x70,
            ScsiSenseRespCode::Deferred => 0x71,
        }
    }
}

/// Common SCSI sense-key values.
#[derive(Debug, Clone, Copy)]
pub enum ScsiErrorType {
    /// No specific sense information.
    ScsiGood,
    /// Device is not ready to complete the command.
    ScsiNotReady,
    /// Medium read/write problem.
    ScsiMediumError,
    /// Unsupported or malformed command.
    ScsiInvalidCommand,
}

impl ScsiErrorType {
    /// Wire value of the sense key.
    pub fn code(self) -> (r: u8)
        ensures
            r == (match self {
                ScsiErrorType::ScsiGood => 0x00u8,
                ScsiErrorType::ScsiNotReady => 0x02u8,
                ScsiErrorType::ScsiMediumError => 0x03u8,
                ScsiErrorType::ScsiInvalidCommand => 0x05u8,
            }),
    {
        match self {
            ScsiErrorType::ScsiGood => 0x00,
            ScsiErrorType::ScsiNotReady => 0x02,
            ScsiErrorType::ScsiMediumError => 0x03,
            ScsiErrorType::ScsiInvalidCommand => 0x05,
        }
    }
}

/// Peripheral device type reported by INQUIRY.
#[derive(Debug, Clone, Copy, PartialEq, Eq, Structural)]
pub enum PeripheralType {
    /// Block-addressable disk-like device.
    DirectAccess,
    /// Tape-like sequential device.
    SequentialAccess,
    Printer,
    Processor,
    /// Medium that can be written once.
    WriteOnce,
    CdRom,
    Scanner,
    OpticalMemory,
    MediumChanger,
    Communications,
    StorageArray,
    EnclosureServices,
    SimplifiedDirectAccess,
    OpticalCardReader,
    BridgeController,
    ObjectStorage,
    AutomationDrive,
    SecurityManager,
    Unknown,
}

impl PeripheralType {
    /// Wire value of the peripheral device type.
    pub open spec fn spec_code(self) -> u8 {
        match self {
            PeripheralType::DirectAccess => 0x00,
            PeripheralType::SequentialAccess => 0x01,
            PeripheralType::Printer => 0x02,
            PeripheralType::Processor => 0x03,
            PeripheralType::WriteOnce => 0x04,
            PeripheralType::CdRom => 0x05,
            PeripheralType::Scanner => 0x06,
            PeripheralType::OpticalMemory => 0x07,
            PeripheralType::MediumChanger => 0x08,
            PeripheralType::Communications => 0x09,
            PeripheralType::StorageArray => 0x0C,
            PeripheralType::EnclosureServices => 0x0D,
            PeripheralType::SimplifiedDirectAccess => 0x0E,
            PeripheralType::OpticalCardReader => 0x0F,
            PeripheralType::BridgeController => 0x10,
            PeripheralType::ObjectStorage => 0x11,
            PeripheralType::AutomationDrive => 0x12,
            PeripheralType::SecurityManager => 0x13,
            PeripheralType::Unknown => 0x1F,
        }
    }

    /// Wire value of the peripheral device type.
    pub fn code(self) -> (r: u8)
        ensures
            r == self.spec_code(),
    {
        match self {
            PeripheralType::DirectAccess => 0x00,
            PeripheralType::SequentialAccess => 0x01,
            PeripheralType::Printer => 0x02,
            PeripheralType::Processor => 0x03,
            PeripheralType::WriteOnce => 0x04,
            PeripheralType::CdRom => 0x05,
            PeripheralType::Scanner => 0x06,
            PeripheralType::OpticalMemory => 0x07,
            PeripheralType::MediumChanger => 0x08,
            PeripheralType::Communications => 0x09,
            PeripheralType::StorageArray => 0x0C,
            PeripheralType::EnclosureServices => 0x0D,
            PeripheralType::SimplifiedDirectAccess => 0x0E,
            PeripheralType::OpticalCardReader => 0x0F,
            PeripheralType::BridgeController => 0x10,
            PeripheralType::ObjectStorage => 0x11,
            PeripheralType::AutomationDrive => 0x12,
            PeripheralType::SecurityManager => 0x13,
            PeripheralType::Unknown => 0x1F,
        }
    }
}

/// Medium type flags (no flags are currently carried).
#[derive(Debug, Clone, Copy)]
pub struct MediumFlags {}

/// SCSI version reported by INQUIRY.
#[derive(Debug, Clone, Copy, PartialEq, Eq, Structural)]
pub enum ScsiVersion {
    /// No standards claim.
    NoStandard,
    /// Original SCSI standard.
    SCSI1,
    /// SCSI-2.
    SCSI2,
    /// SCSI Primary Commands.
    SPC,
    SPC2,
    SPC3,
    SPC4,
    SPC5,
}

impl ScsiVersion {
    /// Wire value of the version.
    pub open spec fn spec_code(self) -> u8 {
        match self {
            ScsiVersion::NoStandard => 0x00,
            ScsiVersion::SCSI1 => 0x01,
            ScsiVersion::SCSI2 => 0x02,
            ScsiVersion::SPC => 0x03,
            ScsiVersion::SPC2 => 0x04,
            ScsiVersion::SPC3 => 0x05,
            ScsiVersion::SPC4 => 0x06,
            ScsiVersion::SPC5 => 0x07,
        }
    }

    /// Wire value of the version.
    pub fn code(self) -> (r: u8)
        ensures
            r == self.spec_code(),
    {
        match self {
            ScsiVersion::NoStandard => 0x00,
            ScsiVersion::SCSI1 => 0x01,
            ScsiVersion::SCSI2 => 0x02,
            ScsiVersion::SPC => 0x03,
            ScsiVersion::SPC2 => 0x04,
            ScsiVersion::SPC3 => 0x05,
            ScsiVersion::SPC4 => 0x06,
            ScsiVersion::SPC5 => 0x07,
        }
    }
}

/// Response data format reported by INQUIRY.
#[derive(Debug, Clone, Copy, PartialEq, Eq, Structural)]
pub enum ScsiResponseFormat {
    /// Standard INQUIRY data formatted as SPC-2.
    SPC2,
    SPC3,
    SPC4,
}

impl ScsiResponseFormat {
    /// Wire value of the response format.
    pub open spec fn spec_code(self) -> u8 {
        match self {
            ScsiResponseFormat::SPC2 => 0x02,
            ScsiResponseFormat::SPC3 => 0x03,
            ScsiResponseFormat::SPC4 => 0x04,
        }
    }

    /// Wire value of the response format.
    pub fn code(self) -> (r: u8)
        ensures
            r == self.spec_code(),
    {
        match self {
            ScsiResponseFormat::SPC2 => 0x02,
            ScsiResponseFormat::SPC3 => 0x03,
            ScsiResponseFormat::SPC4 => 0x04,
        }
    }
}

// ============= MSC consts =============
/// Little-endian `USBC` signature expected at the start of every CBW.
pub const CBW_SIGNATURE: u32 = 0x4342_5355;
/// Little-endian `USBS` signature placed at the start of every CSW.
pub const CSW_SIGNATURE: u32 = 0x5342_5355;
/// 8-byte vendor field returned by INQUIRY ("RustBMC ").
pub const MSC_VENDOR_NAME: [u8; 8] = [0x52, 0x75, 0x73, 0x74, 0x42, 0x4D, 0x43, 0x20];
/// 16-byte product field returned by INQUIRY ("STM32 VirtualUSB").
pub const MSC_PRODUCT_NAME: [u8; 16] = [
    0x53, 0x54, 0x4D, 0x33, 0x32, 0x20, 0x56, 0x69, 0x72, 0x74, 0x75, 0x61, 0x6C, 0x55, 0x53, 0x42,
];
/// 4-byte product revision returned by INQUIRY ("1.0 ").
pub const MSC_PRODUCT_REVISION: [u8; 4] = [0x31, 0x2E, 0x30, 0x20];
/// Logical block size exposed to the USB host.
pub const SECTOR_SIZE: u32 = 512;
/// Advertised virtual disk capacity (256 MiB).
pub const DISK_SIZE: u32 = 256 * 1024 * 1024;
/// Number of 512-byte sectors in the virtual disk.
pub const SECTOR_COUNT: u32 = DISK_SIZE / SECTOR_SIZE;

// ============= SCSI cmd code =============
/// Probe whether the logical unit is ready.
pub const SCSI_TEST_UNIT_READY: u8 = 0x00;
/// Ask for sense data after a failed command.
pub const SCSI_REQUEST_SENSE: u8 = 0x03;
/// Ask for vendor/product/device identity.
pub const SCSI_INQUIRY: u8 = 0x12;
/// Ask for mode parameters.
pub const SCSI_MODE_SENSE_6: u8 = 0x1A;
/// Ask for supported medium capacities.
pub const SCSI_READ_FORMAT_CAPACITIES: u8 = 0x23;
/// Ask for last LBA and block size.
pub const SCSI_READ_CAPACITY_10: u8 = 0x25;
/// Read a run of logical blocks.
pub const SCSI_READ_10: u8 = 0x28;
/// Write a run of logical blocks (not served).
pub const SCSI_WRITE_10: u8 = 0x2A;

} // verus!
