//! SCSI command payloads and the READ(10) data-phase planner of the USB MSC
//! read-only boot disk.
//!
//! Multi-byte fields in SCSI responses are big-endian, unlike the CBW/CSW
//! transport packets.

use vstd::prelude::*;
use crate::drivers::usb_msc::scsi::consts::{
    PeripheralType, ScsiResponseFormat, ScsiVersion, MSC_PRODUCT_NAME, MSC_PRODUCT_REVISION,
    MSC_VENDOR_NAME, SECTOR_COUNT, SECTOR_SIZE,
};
use crate::wire::{be32, u32_to_be_bytes};

verus! {

/// REQUEST SENSE data: current errors, no sense, 10 additional bytes.
pub open spec fn sense_data() -> Seq<u8> {
    Seq::new(18, |i: int| if i == 0 { 0x70u8 } else if i == 7 { 10u8 } else { 0u8 })
}

/// Standard 36-byte INQUIRY data of a removable direct-access SCSI-2 device.
pub open spec fn inquiry_data() -> Seq<u8> {
    seq![0x00u8, 0x80, 0x02, 0x02, 31, 0, 0, 0] + MSC_VENDOR_NAME@ + MSC_PRODUCT_NAME@
        + MSC_PRODUCT_REVISION@
}

/// MODE SENSE(6) header: write-protected direct-access medium, no block descriptors.
pub open spec fn mode_sense_data() -> Seq<u8> {
    seq![0x03u8, 0x00, 0x80, 0x00]
}

/// READ FORMAT CAPACITIES list: one formatted descriptor of the whole disk.
pub open spec fn format_capacities_data() -> Seq<u8> {
    seq![0u8, 0, 0, 0x08] + be32(SECTOR_COUNT) + seq![0x02u8] + be32(SECTOR_SIZE).subrange(1, 4)
}

/// READ CAPACITY(10) data: last valid LBA and block length, big-endian.
pub open spec fn capacity_data() -> Seq<u8> {
    be32((SECTOR_COUNT - 1) as u32) + be32(SECTOR_SIZE)
}

/// Builds the REQUEST SENSE data. The firmware does not track detailed
/// sense data: "current errors / no sense" lets hosts continue probing.
pub fn request_sense() -> (r: [u8; 18])
    ensures
        r@ == sense_data(),
{
    let mut sense = [0u8; 18];
    sense[0] = 0x70;
    sense[2] = 0x00;
    sense[7] = 10;
    assert(sense@ =~= sense_data());
    sense
}

/// Builds the INQUIRY data.
pub fn inquiry() -> (r: [u8; 36])
    ensures
        r@ == inquiry_data(),
{
    let mut resp = [0u8; 36];
    resp[0] = PeripheralType::DirectAccess.code();
    resp[1] = 0x80;
    resp[2] = ScsiVersion::SCSI2.code();
    resp[3] = ScsiResponseFormat::SPC2.code();
    resp[4] = 31;
    let mut i: usize = 0;
    while i < 8
        invariant
            0 <= i <= 8,
            resp@.len() == 36,
            resp@.subrange(0, 8) == seq![0x00u8, 0x80, 0x02, 0x02, 31, 0, 0, 0],
            forall|k: int| 0 <= k < i ==> resp@[8 + k] == MSC_VENDOR_NAME@[k],
            forall|k: int| 8 + i <= k < 36 ==> resp@[k] == 0,
        decreases 8 - i,
    {
        resp[8 + i] = MSC_VENDOR_NAME[i];
        i = i + 1;
    }
    let mut i: usize = 0;
    while i < 16
        invariant
            0 <= i <= 16,
            resp@.len() == 36,
            resp@.subrange(0, 8) == seq![0x00u8, 0x80, 0x02, 0x02, 31, 0, 0, 0],
            forall|k: int| 0 <= k < 8 ==> resp@[8 + k] == MSC_VENDOR_NAME@[k],
            forall|k: int| 0 <= k < i ==> resp@[16 + k] == MSC_PRODUCT_NAME@[k],
            forall|k: int| 16 + i <= k < 36 ==> resp@[k] == 0,
        decreases 16 - i,
    {
        resp[16 + i] = MSC_PRODUCT_NAME[i];
        i = i + 1;
    }
    let mut i: usize = 0;
    while i < 4
        invariant
            0 <= i <= 4,
            resp@.len() == 36,
            resp@.subrange(0, 8) == seq![0x00u8, 0x80, 0x02, 0x02, 31, 0, 0, 0],
            forall|k: int| 0 <= k < 8 ==> resp@[8 + k] == MSC_VENDOR_NAME@[k],
            forall|k: int| 0 <= k < 16 ==> resp@[16 + k] == MSC_PRODUCT_NAME@[k],
            forall|k: int| 0 <= k < i ==> resp@[32 + k] == MSC_PRODUCT_REVISION@[k],
        decreases 4 - i,
    {
        resp[32 + i] = MSC_PRODUCT_REVISION[i];
        i = i + 1;
    }
    assert(resp@ =~= inquiry_data()) by {
        assert(resp@.subrange(0, 8) == seq![0x00u8, 0x80, 0x02, 0x02, 31, 0, 0, 0]);
        assert forall|k: int| 0 <= k < 36 implies resp@[k] == inquiry_data()[k] by {
            if k < 8 {
                assert(resp@[k] == resp@.subrange(0, 8)[k]);
            }
        }
    }
    resp
}

/// Builds the MODE SENSE(6) data. The medium is reported write-protected so
/// operating systems do not attempt to modify the boot image.
pub fn mode_sense_6() -> (r: [u8; 4])
    ensures
        r@ == mode_sense_data(),
{
    let mut resp = [0u8; 4];
    resp[0] = 0x03;
    resp[1] = PeripheralType::DirectAccess.code();
    resp[2] = 0x80;
    resp[3] = 0x00;
    assert(resp@ =~= mode_sense_data());
    resp
}

/// Builds the READ FORMAT CAPACITIES data.
pub fn read_format_capacities() -> (r: [u8; 12])
    ensures
        r@ == format_capacities_data(),
{
    let mut resp = [0u8; 12];
    resp[3] = 0x08;
    let count = u32_to_be_bytes(SECTOR_COUNT);
    resp[4] = count[0];
    resp[5] = count[1];
    resp[6] = count[2];
    resp[7] = count[3];
    resp[8] = 0x02;
    let block_len = u32_to_be_bytes(SECTOR_SIZE);
    resp[9] = block_len[1];
    resp[10] = block_len[2];
    resp[11] = block_len[3];
    assert(resp@ =~= format_capacities_data());
    resp
}

/// Builds the READ CAPACITY(10) data: the last valid LBA, not the sector count.
pub fn read_capacity_10() -> (r: [u8; 8])
    ensures
        r@ == capacity_data(),
{
    let mut resp = [0u8; 8];
    let last_lba = SECTOR_COUNT - 1;
    let l = u32_to_be_bytes(last_lba);
    let b = u32_to_be_bytes(SECTOR_SIZE);
    resp[0] = l[0];
    resp[1] = l[1];
    resp[2] = l[2];
    resp[3] = l[3];
    resp[4] = b[0];
    resp[5] = b[1];
    resp[6] = b[2];
    resp[7] = b[3];
    assert(resp@ =~= capacity_data());
    resp
}

} // verus!
