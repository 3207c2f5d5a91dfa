//! Compact SCSI responder that answers the transparent command set from a
//! caller-provided response buffer.

pub mod cmd;
pub mod consts;
pub mod fake_fs;

use vstd::prelude::*;
pub use crate::scsi::consts::{
    MediumFlags, PeripheralType, ScsiErrorType, ScsiResponseFormat, ScsiSenseRespCode, ScsiStatus,
    ScsiVersion, CBW_SIGNATURE, CSW_SIGNATURE, DISK_SIZE, MSC_PRODUCT_NAME, MSC_PRODUCT_REVISION,
    MSC_VENDOR_NAME, SCSI_INQUIRY, SCSI_MODE_SENSE_6, SCSI_READ_10, SCSI_READ_CAPACITY_10,
    SCSI_READ_FORMAT_CAPACITIES, SCSI_REQUEST_SENSE, SCSI_TEST_UNIT_READY, SCSI_WRITE_10,
    SECTOR_COUNT, SECTOR_SIZE,
};
use crate::scsi::cmd::{
    capacity_data, copied_buffer, copied_response, format_capacities_data, inquiry, inquiry_data,
    mode_sense_6, mode_sense_data, read10_in_range, read10_response, read_10, read_capacity_10,
    read_format_capacities, request_sense, sense_data,
};

verus! {

/// Result of a SCSI command.
#[derive(Debug, Clone, Copy)]
pub struct ScsiResponse {
    /// Transport-level SCSI status.
    pub status: ScsiStatus,
    /// Number of response bytes that did not fit in the buffer.
    pub residue: u32,
    /// Number of bytes of the response (or of the data phase for READ(10)).
    pub resp_len: usize,
}

/// Fixed response data of the commands that answer from constant data.
pub open spec fn fixed_payload(op: u8) -> Option<Seq<u8>> {
    if op == SCSI_REQUEST_SENSE {
        Some(sense_data())
    } else if op == SCSI_INQUIRY {
        Some(inquiry_data())
    } else if op == SCSI_MODE_SENSE_6 {
        Some(mode_sense_data())
    } else if op == SCSI_READ_FORMAT_CAPACITIES {
        Some(format_capacities_data())
    } else if op == SCSI_READ_CAPACITY_10 {
        Some(capacity_data())
    } else {
        None
    }
}

/// Commands that `handle_scsi_cmd` can answer without panicking: READ(10)
/// needs its LBA and length fields and a byte range that fits in 32 bits.
pub open spec fn command_well_formed(cmd: Seq<u8>) -> bool {
    cmd.len() > 0 && cmd[0] == SCSI_READ_10 ==> read10_in_range(cmd)
}

/// Response of `handle_scsi_cmd` to `cmd` with a buffer of `buf_len` bytes.
pub open spec fn scsi_response(cmd: Seq<u8>, buf_len: nat) -> ScsiResponse {
    let fail = ScsiResponse { status: ScsiStatus::ScsiFail, residue: 0, resp_len: 0 };
    if cmd.len() == 0 {
        fail
    } else if cmd[0] == SCSI_TEST_UNIT_READY {
        ScsiResponse { status: ScsiStatus::ScsiSuccess, residue: 0, resp_len: 0 }
    } else if cmd[0] == SCSI_READ_10 {
        read10_response(cmd)
    } else {
        match fixed_payload(cmd[0]) {
            Some(p) => copied_response(p, buf_len),
            None => fail,
        }
    }
}

/// Buffer contents after `handle_scsi_cmd` answered `cmd`.
pub open spec fn scsi_buffer(cmd: Seq<u8>, buf: Seq<u8>) -> Seq<u8> {
    if cmd.len() == 0 {
        buf
    } else {
        match fixed_payload(cmd[0]) {
            Some(p) => copied_buffer(p, buf),
            None => buf,
        }
    }
}

/// Decodes the operation code of `cmd` and writes the response into `buf`.
pub fn handle_scsi_cmd(cmd: &[u8], buf: &mut [u8]) -> (r: ScsiResponse)
    requires
        command_well_formed(cmd@),
    ensures
        r == scsi_response(cmd@, old(buf)@.len()),
        final(buf)@ == scsi_buffer(cmd@, old(buf)@),
{
    if cmd.len() == 0 {
        return ScsiResponse { status: ScsiStatus::ScsiFail, residue: 0, resp_len: 0 };
    }
    let op = cmd[0];
    if op == SCSI_TEST_UNIT_READY {
        ScsiResponse { status: ScsiStatus::ScsiSuccess, residue: 0, resp_len: 0 }
    } else if op == SCSI_REQUEST_SENSE {
        request_sense(buf)
    } else if op == SCSI_INQUIRY {
        inquiry(buf)
    } else if op == SCSI_MODE_SENSE_6 {
        mode_sense_6(buf)
    } else if op == SCSI_READ_FORMAT_CAPACITIES {
        read_format_capacities(buf)
    } else if op == SCSI_READ_CAPACITY_10 {
        read_capacity_10(buf)
    } else if op == SCSI_READ_10 {
        read_10(buf, cmd)
    } else {
        ScsiResponse { status: ScsiStatus::ScsiFail, residue: 0, resp_len: 0 }
    }
}

} // verus!
