//! Command handlers of the compact in-memory SCSI responder.
//!
//! Each handler copies its response into the caller's buffer, as much of it as
//! fits, and reports how many bytes were produced and how many did not fit.

use vstd::prelude::*;
use crate::scsi::consts::{
    PeripheralType, ScsiResponseFormat, ScsiStatus, ScsiVersion, DISK_SIZE, MSC_PRODUCT_NAME,
    MSC_PRODUCT_REVISION, MSC_VENDOR_NAME, SECTOR_COUNT, SECTOR_SIZE,
};
use crate::scsi::ScsiResponse;
use crate::wire::{be32, copy_prefix, from_be16, from_be32, u16_from_be_bytes, u32_from_be_bytes, u32_to_be_bytes};

verus! {

/// 32 KiB backing store sized for the in-memory disk.
pub struct AlignedBuffer(pub [u8; 32768]);

/// REQUEST SENSE data: current errors, no sense, 10 additional bytes.
pub open spec fn sense_data() -> Seq<u8> {
    Seq::new(18, |i: int| if i == 0 { 0x70u8 } else if i == 7 { 10u8 } else { 0u8 })
}

/// Standard 36-byte INQUIRY data of a removable direct-access SCSI-2 device.
pub open spec fn inquiry_data() -> Seq<u8> {
    seq![0x00u8, 0x80, 0x02, 0x02, 31, 0, 0, 0] + MSC_VENDOR_NAME@ + MSC_PRODUCT_NAME@
        + MSC_PRODUCT_REVISION@
}

/// MODE SENSE(6) header: write-protected direct-access medium, no block descriptors.
pub open spec fn mode_sense_data() -> Seq<u8> {
    seq![0x03u8, 0x00, 0x80, 0x00]
}

/// READ FORMAT CAPACITIES list: one formatted descriptor of the whole disk.
pub open spec fn format_capacities_data() -> Seq<u8> {
    seq![0u8, 0, 0, 0x08] + be32(SECTOR_COUNT) + seq![0x02u8] + be32(SECTOR_SIZE).subrange(1, 4)
}

/// READ CAPACITY(10) data reported by this responder (last LBA 0x2CF, 512-byte blocks).
pub open spec fn capacity_data() -> Seq<u8> {
    seq![0x00u8, 0x00, 0x02, 0xCF, 0x00, 0x00, 0x02, 0x00]
}

/// Response of a handler that copies `payload` into a buffer of `buf_len` bytes.
pub open spec fn copied_response(payload: Seq<u8>, buf_len: nat) -> ScsiResponse {
    let len = if payload.len() < buf_len { payload.len() } else { buf_len };
    ScsiResponse {
        status: ScsiStatus::ScsiSuccess,
        residue: (payload.len() - len) as u32,
        resp_len: len as usize,
    }
}

/// Buffer contents after copying `payload` into `buf`.
pub open spec fn copied_buffer(payload: Seq<u8>, buf: Seq<u8>) -> Seq<u8> {
    let len = if payload.len() < buf.len() { payload.len() } else { buf.len() };
    payload.subrange(0, len as int) + buf.subrange(len as int, buf.len() as int)
}

fn respond(payload: &[u8], buf: &mut [u8]) -> (r: ScsiResponse)
    requires
        payload@.len() <= u32::MAX,
    ensures
        r == copied_response(payload@, old(buf)@.len()),
        final(buf)@ == copied_buffer(payload@, old(buf)@),
{
    let len = copy_prefix(payload, buf);
    ScsiResponse { status: ScsiStatus::ScsiSuccess, residue: (payload.len() - len) as u32, resp_len: len }
}

/// Builds the REQUEST SENSE data.
pub fn sense_bytes() -> (r: [u8; 18])
    ensures
        r@ == sense_data(),
{
    let mut sense = [0u8; 18];
    sense[0] = 0x70;
    sense[2] = 0x00;
    sense[7] = 10;
    assert(sense@ =~= sense_data());
    sense
}

/// Builds the INQUIRY data.
pub fn inquiry_bytes() -> (r: [u8; 36])
    ensures
        r@ == inquiry_data(),
{
    let mut resp = [0u8; 36];
    resp[0] = PeripheralType::DirectAccess.code();
    resp[1] = 0x80;
    resp[2] = ScsiVersion::SCSI2.code();
    resp[3] = ScsiResponseFormat::SPC2.code();
    resp[4] = 31;
    let mut i: usize = 0;
    while i < 8
        invariant
            0 <= i <= 8,
            resp@.len() == 36,
            resp@.subrange(0, 8) == seq![0x00u8, 0x80, 0x02, 0x02, 31, 0, 0, 0],
            forall|k: int| 0 <= k < i ==> resp@[8 + k] == MSC_VENDOR_NAME@[k],
            forall|k: int| 8 + i <= k < 36 ==> resp@[k] == 0,
        decreases 8 - i,
    {
        resp[8 + i] = MSC_VENDOR_NAME[i];
        i = i + 1;
    }
    let mut i: usize = 0;
    while i < 16
        invariant
            0 <= i <= 16,
            resp@.len() == 36,
            resp@.subrange(0, 8) == seq![0x00u8, 0x80, 0x02, 0x02, 31, 0, 0, 0],
            forall|k: int| 0 <= k < 8 ==> resp@[8 + k] == MSC_VENDOR_NAME@[k],
            forall|k: int| 0 <= k < i ==> resp@[16 + k] == MSC_PRODUCT_NAME@[k],
            forall|k: int| 16 + i <= k < 36 ==> resp@[k] == 0,
        decreases 16 - i,
    {
        resp[16 + i] = MSC_PRODUCT_NAME[i];
        i = i + 1;
    }
    let mut i: usize = 0;
    while i < 4
        invariant
            0 <= i <= 4,
            resp@.len() == 36,
            resp@.subrange(0, 8) == seq![0x00u8, 0x80, 0x02, 0x02, 31, 0, 0, 0],
            forall|k: int| 0 <= k < 8 ==> resp@[8 + k] == MSC_VENDOR_NAME@[k],
            forall|k: int| 0 <= k < 16 ==> resp@[16 + k] == MSC_PRODUCT_NAME@[k],
            forall|k: int| 0 <= k < i ==> resp@[32 + k] == MSC_PRODUCT_REVISION@[k],
        decreases 4 - i,
    {
        resp[32 + i] = MSC_PRODUCT_REVISION[i];
        i = i + 1;
    }
    assert(resp@ =~= inquiry_data()) by {
        assert(resp@.subrange(0, 8) == seq![0x00u8, 0x80, 0x02, 0x02, 31, 0, 0, 0]);
        assert forall|k: int| 0 <= k < 36 implies resp@[k] == inquiry_data()[k] by {
            if k < 8 {
                assert(resp@[k] == resp@.subrange(0, 8)[k]);
            }
        }
    }
    resp
}

/// Builds the MODE SENSE(6) data.
pub fn mode_sense_bytes() -> (r: [u8; 4])
    ensures
        r@ == mode_sense_data(),
{
    let mut resp = [0u8; 4];
    resp[0] = 0x03;
    resp[1] = PeripheralType::DirectAccess.code();
    resp[2] = 0x80;
    resp[3] = 0x00;
    assert(resp@ =~= mode_sense_data());
    resp
}

/// Builds the READ FORMAT CAPACITIES data.
pub fn format_capacities_bytes() -> (r: [u8; 12])
    ensures
        r@ == format_capacities_data(),
{
    let mut resp = [0u8; 12];
    resp[3] = 0x08;
    let count = u32_to_be_bytes(SECTOR_COUNT);
    resp[4] = count[0];
    resp[5] = count[1];
    resp[6] = count[2];
    resp[7] = count[3];
    resp[8] = 0x02;
    let block_len = u32_to_be_bytes(SECTOR_SIZE);
    resp[9] = block_len[1];
    resp[10] = block_len[2];
    resp[11] = block_len[3];
    assert(resp@ =~= format_capacities_data());
    resp
}

/// Builds the READ CAPACITY(10) data.
pub fn capacity_bytes() -> (r: [u8; 8])
    ensures
        r@ == capacity_data(),
{
    let resp: [u8; 8] = [0x00, 0x00, 0x02, 0xCF, 0x00, 0x00, 0x02, 0x00];
    assert(resp@ =~= capacity_data());
    resp
}

pub(crate) fn request_sense(buf: &mut [u8]) -> (r: ScsiResponse)
    ensures
        r == copied_response(sense_data(), old(buf)@.len()),
        final(buf)@ == copied_buffer(sense_data(), old(buf)@),
{
    let sense = sense_bytes();
    respond(&sense, buf)
}

pub(crate) fn inquiry(buf: &mut [u8]) -> (r: ScsiResponse)
    ensures
        r == copied_response(inquiry_data(), old(buf)@.len()),
        final(buf)@ == copied_buffer(inquiry_data(), old(buf)@),
{
    let resp = inquiry_bytes();
    respond(&resp, buf)
}

pub(crate) fn mode_sense_6(buf: &mut [u8]) -> (r: ScsiResponse)
    ensures
        r == copied_response(mode_sense_data(), old(buf)@.len()),
        final(buf)@ == copied_buffer(mode_sense_data(), old(buf)@),
{
    let resp = mode_sense_bytes();
    respond(&resp, buf)
}

/// Reports the capacity formats supported by the device.
pub(crate) fn read_format_capacities(buf: &mut [u8]) -> (r: ScsiResponse)
    ensures
        r == copied_response(format_capacities_data(), old(buf)@.len()),
        final(buf)@ == copied_buffer(format_capacities_data(), old(buf)@),
{
    let resp = format_capacities_bytes();
    respond(&resp, buf)
}

/// Reports the last LBA and the block size.
pub(crate) fn read_capacity_10(buf: &mut [u8]) -> (r: ScsiResponse)
    ensures
        r == copied_response(capacity_data(), old(buf)@.len()),
        final(buf)@ == copied_buffer(capacity_data(), old(buf)@),
{
    let resp = capacity_bytes();
    respond(&resp, buf)
}

/// Logical block address field of a READ(10) command block.
pub open spec fn read10_lba(cmd: Seq<u8>) -> int {
    from_be32(cmd[2], cmd[3], cmd[4], cmd[5])
}

/// Transfer length field (in blocks) of a READ(10) command block.
pub open spec fn read10_blocks(cmd: Seq<u8>) -> int {
    from_be16(cmd[7], cmd[8])
}

/// A READ(10) command block whose byte range is representable in 32 bits.
pub open spec fn read10_in_range(cmd: Seq<u8>) -> bool {
    &&& cmd.len() >= 9
    &&& read10_lba(cmd) * 512 + read10_blocks(cmd) * 512 <= u32::MAX
}

/// Response to a READ(10): the data phase is not served from this buffer.
pub open spec fn read10_response(cmd: Seq<u8>) -> ScsiResponse {
    let total = read10_blocks(cmd) * 512;
    if read10_lba(cmd) * 512 + total > DISK_SIZE {
        ScsiResponse { status: ScsiStatus::ScsiFail, residue: 0, resp_len: 0 }
    } else {
        ScsiResponse { status: ScsiStatus::ScsiSuccess, residue: 0, resp_len: total as usize }
    }
}

/// Checks a READ(10) against the disk bounds and reports its transfer size.
pub(crate) fn read_10(_buf: &mut [u8], cmd: &[u8]) -> (r: ScsiResponse)
    requires
        read10_in_range(cmd@),
    ensures
        r == read10_response(cmd@),
        final(_buf)@ == old(_buf)@,
{
    let lba = u32_from_be_bytes(cmd[2], cmd[3], cmd[4], cmd[5]);
    let num_blocks = u16_from_be_bytes(cmd[7], cmd[8]) as u32;
    let start_offset = lba * SECTOR_SIZE;
    let total_bytes = num_blocks * SECTOR_SIZE;
    let end_offset = start_offset + total_bytes;
    if end_offset > DISK_SIZE {
        return ScsiResponse { status: ScsiStatus::ScsiFail, residue: 0, resp_len: 0 };
    }
    ScsiResponse { status: ScsiStatus::ScsiSuccess, residue: 0, resp_len: total_bytes as usize }
}

} // verus!
