//! SCSI command dispatcher for the USB MSC device.
//!
//! The Raspberry Pi boot ROM and common operating systems need only a small
//! subset of SCSI transparent commands for read-only boot media. A command is
//! run as a small state machine: the dispatcher names the next I/O step
//! (send a payload, read a block, send part of the sector buffer) and the
//! caller reports how that step went, until the command completes with the
//! status for the CSW. Unsupported commands fail with a CHECK CONDITION-style
//! status.

pub mod cmd;
pub mod consts;

use vstd::prelude::*;
use vstd::slice::slice_to_vec;
use crate::drivers::usb_msc::device::SendToHostError;
use crate::drivers::usb_msc::scsi::cmd::{
    capacity_data, format_capacities_data, inquiry, inquiry_data, mode_sense_6, mode_sense_data,
    read_capacity_10, read_format_capacities, request_sense, sense_data,
};
use crate::drivers::usb_msc::scsi::consts::{
    ScsiStatus, DISK_SIZE, MSC_PRODUCT_NAME, MSC_PRODUCT_REVISION, MSC_VENDOR_NAME, SCSI_INQUIRY,
    SCSI_MODE_SENSE_6, SCSI_READ_10, SCSI_READ_CAPACITY_10, SCSI_READ_FORMAT_CAPACITIES,
    SCSI_REQUEST_SENSE, SCSI_TEST_UNIT_READY, SECTOR_COUNT, SECTOR_SIZE,
};
use crate::drivers::usb_msc::transport::Cbw;
use crate::wire::{from_be16, from_be32, u16_from_be_bytes, u32_from_be_bytes};

verus! {

/// Result of a SCSI command as needed by the USB MSC CSW.
#[derive(Debug, Clone, Copy)]
pub struct ScsiResponse {
    /// Transport-level SCSI status.
    pub status: ScsiStatus,
    /// Number of bytes that were not transferred.
    pub residue: u32,
}

impl ScsiResponse {
    /// Successful command with no residue.
    pub fn success() -> (r: Self)
        ensures
            r == (ScsiResponse { status: ScsiStatus::ScsiSuccess, residue: 0 }),
    {
        Self { status: ScsiStatus::ScsiSuccess, residue: 0 }
    }

    /// Failed command carrying the untransferred byte count.
    pub fn fail(residue: u32) -> (r: Self)
        ensures
            r == (ScsiResponse { status: ScsiStatus::ScsiFail, residue }),
    {
        Self { status: ScsiStatus::ScsiFail, residue }
    }
}

/// Successful response.
pub open spec fn ok_response() -> ScsiResponse {
    ScsiResponse { status: ScsiStatus::ScsiSuccess, residue: 0 }
}

/// Failed response with `residue` untransferred bytes.
pub open spec fn fail_response(residue: u32) -> ScsiResponse {
    ScsiResponse { status: ScsiStatus::ScsiFail, residue }
}

/// Next I/O step of a command.
pub enum ScsiAction {
    /// Send this payload to the host.
    SendData(Vec<u8>),
    /// Read this logical block into the sector buffer.
    ReadBlock(u32),
    /// Send the first `len` bytes of the sector buffer to the host.
    SendSector(usize),
    /// The command is over; report this status in the CSW.
    Complete(ScsiResponse),
}

/// Outcome of the I/O step named by the last action.
#[derive(Debug, Clone, Copy)]
pub enum ScsiEvent {
    /// A `SendData` or `SendSector` write finished.
    Sent(Result<(), SendToHostError>),
    /// A `ReadBlock` read finished.
    BlockRead(Result<(), ()>),
}

/// Where a command stands.
#[derive(Debug, Clone, Copy, PartialEq, Eq, Structural)]
pub enum ScsiPhase {
    /// Waiting for a `SendData` payload to be sent.
    AwaitPayload,
    /// Waiting for a `ReadBlock`.
    AwaitBlock,
    /// Waiting for a `SendSector` write.
    AwaitSector,
    /// The command has completed.
    Finished,
}

/// A SCSI command in progress. For READ(10), `lba`, `num_blocks` and
/// `total` (the host's data-transfer length) are fixed; `blk` counts the
/// blocks handled so far and `offset` the bytes sent.
#[derive(Debug, Clone, Copy)]
pub struct ScsiCommand {
    pub phase: ScsiPhase,
    pub lba: u32,
    pub num_blocks: u32,
    pub total: u32,
    pub blk: u32,
    pub offset: u32,
    pub send_len: u32,
}

/// Smaller of two integers.
pub open spec fn min(a: int, b: int) -> int {
    if a < b { a } else { b }
}

/// Logical block address of a READ(10) command block.
pub open spec fn read10_lba(cmd: Seq<u8>) -> int {
    from_be32(cmd[2], cmd[3], cmd[4], cmd[5])
}

/// Transfer length (in blocks) of a READ(10) command block.
pub open spec fn read10_blocks(cmd: Seq<u8>) -> int {
    from_be16(cmd[7], cmd[8])
}

/// Commands the dispatcher can start without arithmetic overflow: for
/// READ(10), the start offset `lba * 512` and the end offset `start + dtl`
/// must be representable in 32 bits.
pub open spec fn cbw_in_range(cbw: Cbw) -> bool {
    cbw.cmd@[0] == SCSI_READ_10 ==> read10_lba(cbw.cmd@) * 512 + cbw.dtl <= u32::MAX
}

/// Tests whether `handle_scsi_cmd` can start the command of `cbw`.
pub fn command_in_range(cbw: &Cbw) -> (r: bool)
    ensures
        r == cbw_in_range(*cbw),
{
    if cbw.cmd[0] != SCSI_READ_10 {
        return true;
    }
    let lba = u32_from_be_bytes(cbw.cmd[2], cbw.cmd[3], cbw.cmd[4], cbw.cmd[5]);
    lba <= (u32::MAX - cbw.dtl) / 512
}

/// Fixed response payload of the commands that answer from constant data.
pub open spec fn fixed_payload(op: u8) -> Option<Seq<u8>> {
    if op == SCSI_REQUEST_SENSE {
        Some(sense_data())
    } else if op == SCSI_INQUIRY {
        Some(inquiry_data())
    } else if op == SCSI_MODE_SENSE_6 {
        Some(mode_sense_data())
    } else if op == SCSI_READ_FORMAT_CAPACITIES {
        Some(format_capacities_data())
    } else if op == SCSI_READ_CAPACITY_10 {
        Some(capacity_data())
    } else {
        None
    }
}

/// Command state with the given phase.
pub open spec fn with_phase(s: ScsiCommand, phase: ScsiPhase) -> ScsiCommand {
    ScsiCommand { phase, ..s }
}

/// Successful READ(10) completion: the bytes of the host's transfer length
/// that were not sent are the residue.
pub open spec fn read_done_response(s: ScsiCommand) -> ScsiResponse {
    ScsiResponse { status: ScsiStatus::ScsiSuccess, residue: (s.total - s.offset) as u32 }
}

/// Step of the READ(10) loop taken before each block: stop when every block
/// was handled or the host's transfer length is reached, otherwise read the
/// next block.
pub open spec fn read_loop_next(s: ScsiCommand) -> (ScsiCommand, ScsiAction) {
    if s.blk < s.num_blocks && s.offset < s.total {
        (with_phase(s, ScsiPhase::AwaitBlock), ScsiAction::ReadBlock((s.lba + s.blk) as u32))
    } else {
        (with_phase(s, ScsiPhase::Finished), ScsiAction::Complete(read_done_response(s)))
    }
}

/// Whether `ev` is the outcome of the step that `s` waits for.
pub open spec fn expects(s: ScsiCommand, ev: ScsiEvent) -> bool {
    match s.phase {
        ScsiPhase::AwaitPayload => ev is Sent,
        ScsiPhase::AwaitBlock => ev is BlockRead,
        ScsiPhase::AwaitSector => ev is Sent,
        ScsiPhase::Finished => false,
    }
}

/// Transition of a command on the outcome of its pending step.
pub open spec fn scsi_step(s: ScsiCommand, ev: ScsiEvent) -> (ScsiCommand, ScsiAction) {
    match ev {
        ScsiEvent::Sent(res) => {
            if s.phase == ScsiPhase::AwaitPayload {
                match res {
                    Ok(()) => (with_phase(s, ScsiPhase::Finished), ScsiAction::Complete(ok_response())),
                    Err(e) => (
                        with_phase(s, ScsiPhase::Finished),
                        ScsiAction::Complete(fail_response(e.residue)),
                    ),
                }
            } else {
                match res {
                    Ok(()) => read_loop_next(
                        ScsiCommand {
                            offset: (s.offset + s.send_len) as u32,
                            blk: (s.blk + 1) as u32,
                            ..s
                        },
                    ),
                    Err(_) => (
                        with_phase(s, ScsiPhase::Finished),
                        ScsiAction::Complete(fail_response((s.total - s.offset) as u32)),
                    ),
                }
            }
        },
        ScsiEvent::BlockRead(res) => match res {
            Ok(()) => {
                let len = min(512, s.total - s.offset);
                (
                    ScsiCommand { phase: ScsiPhase::AwaitSector, send_len: len as u32, ..s },
                    ScsiAction::SendSector(len as usize),
                )
            },
            Err(()) => (
                with_phase(s, ScsiPhase::Finished),
                ScsiAction::Complete(fail_response((s.total - s.offset) as u32)),
            ),
        },
    }
}

impl ScsiCommand {
    /// State invariant: the READ(10) byte range fits in 32 bits, `offset`
    /// counts the bytes of the blocks handled so far up to the transfer
    /// length, and a pending block or sector write lies inside both limits.
    pub open spec fn wf(&self) -> bool {
        &&& self.lba * 512 + self.total <= u32::MAX
        &&& self.num_blocks <= 0xFFFF
        &&& self.blk <= self.num_blocks
        &&& self.offset == min(self.blk * 512, self.total as int)
        &&& (self.phase == ScsiPhase::AwaitBlock || self.phase == ScsiPhase::AwaitSector) ==> {
            &&& self.blk < self.num_blocks
            &&& self.offset < self.total
        }
        &&& self.phase == ScsiPhase::AwaitSector ==> self.send_len == min(512, self.total - self.offset)
    }

    fn loop_next(self) -> (r: (ScsiCommand, ScsiAction))
        requires
            self.wf(),
        ensures
            r == read_loop_next(self),
            r.0.wf(),
    {
        if self.blk < self.num_blocks && self.offset < self.total {
            let s = ScsiCommand { phase: ScsiPhase::AwaitBlock, ..self };
            (s, ScsiAction::ReadBlock(self.lba + self.blk))
        } else {
            let s = ScsiCommand { phase: ScsiPhase::Finished, ..self };
            (s, ScsiAction::Complete(ScsiResponse { status: ScsiStatus::ScsiSuccess, residue: self.total - self.offset }))
        }
    }

    /// Advances the command with the outcome of its pending step.
    pub fn on_event(self, ev: ScsiEvent) -> (r: (ScsiCommand, ScsiAction))
        requires
            self.wf(),
            expects(self, ev),
        ensures
            r == scsi_step(self, ev),
            r.0.wf(),
            self.phase != ScsiPhase::AwaitPayload ==> match r.1 {
                ScsiAction::Complete(resp) => {
                    &&& resp.residue == r.0.total - r.0.offset
                    &&& resp.status == ScsiStatus::ScsiSuccess ==> r.0.offset == min(
                        r.0.num_blocks * 512,
                        r.0.total as int,
                    )
                },
                _ => true,
            },
    {
        match ev {
            ScsiEvent::Sent(res) => {
                if self.phase == ScsiPhase::AwaitPayload {
                    let s = ScsiCommand { phase: ScsiPhase::Finished, ..self };
                    match res {
                        Ok(()) => (s, ScsiAction::Complete(ScsiResponse::success())),
                        Err(e) => (s, ScsiAction::Complete(ScsiResponse::fail(e.residue))),
                    }
                } else {
                    match res {
                        Ok(()) => {
                            let next = ScsiCommand {
                                phase: ScsiPhase::Finished,
                                offset: self.offset + self.send_len,
                                blk: self.blk + 1,
                                ..self
                            };
                            next.loop_next()
                        },
                        Err(_) => {
                            let s = ScsiCommand { phase: ScsiPhase::Finished, ..self };
                            (s, ScsiAction::Complete(ScsiResponse::fail(self.total - self.offset)))
                        },
                    }
                }
            },
            ScsiEvent::BlockRead(res) => match res {
                Ok(()) => {
                    let rest = self.total - self.offset;
                    let len = if SECTOR_SIZE < rest { SECTOR_SIZE } else { rest };
                    let s = ScsiCommand { phase: ScsiPhase::AwaitSector, send_len: len, ..self };
                    (s, ScsiAction::SendSector(len as usize))
                },
                Err(()) => {
                    let s = ScsiCommand { phase: ScsiPhase::Finished, ..self };
                    (s, ScsiAction::Complete(ScsiResponse::fail(self.total - self.offset)))
                },
            },
        }
    }
}

/// Command state that only waits for a fixed payload to be sent.
pub open spec fn payload_command() -> ScsiCommand {
    ScsiCommand {
        phase: ScsiPhase::AwaitPayload,
        lba: 0,
        num_blocks: 0,
        total: 0,
        blk: 0,
        offset: 0,
        send_len: 0,
    }
}

fn finished() -> (r: ScsiCommand)
    ensures
        r == with_phase(payload_command(), ScsiPhase::Finished),
{
    ScsiCommand { phase: ScsiPhase::Finished, lba: 0, num_blocks: 0, total: 0, blk: 0, offset: 0, send_len: 0 }
}

fn send_payload(data: &[u8]) -> (r: (ScsiCommand, ScsiAction))
    ensures
        r.0 == payload_command(),
        r.1 matches ScsiAction::SendData(v) && v@ == data@,
{
    let s = ScsiCommand { phase: ScsiPhase::AwaitPayload, lba: 0, num_blocks: 0, total: 0, blk: 0, offset: 0, send_len: 0 };
    (s, ScsiAction::SendData(slice_to_vec(data)))
}

/// Decodes the SCSI operation code of `cbw` and starts the matching command.
/// READ(10) is refused without any transfer when the byte range
/// `lba * 512 .. lba * 512 + dtl` extends past the disk.
pub fn handle_scsi_cmd(cbw: &Cbw) -> (r: (ScsiCommand, ScsiAction))
    requires
        cbw_in_range(*cbw),
    ensures
        r.0.wf(),
        ({
            let op = cbw.cmd@[0];
            if op == SCSI_TEST_UNIT_READY {
                r.0.phase == ScsiPhase::Finished && r.1 == ScsiAction::Complete(ok_response())
            } else if op == SCSI_READ_10 {
                let lba = read10_lba(cbw.cmd@);
                let init = ScsiCommand {
                    phase: ScsiPhase::AwaitBlock,
                    lba: lba as u32,
                    num_blocks: read10_blocks(cbw.cmd@) as u32,
                    total: cbw.dtl,
                    blk: 0,
                    offset: 0,
                    send_len: 0,
                };
                if lba * 512 + cbw.dtl > DISK_SIZE {
                    r.0.phase == ScsiPhase::Finished && r.1 == ScsiAction::Complete(fail_response(cbw.dtl))
                } else {
                    r == read_loop_next(init)
                }
            } else {
                match fixed_payload(op) {
                    Some(p) => r.0 == payload_command() && (r.1 matches ScsiAction::SendData(v) && v@ == p),
                    None => r.0.phase == ScsiPhase::Finished && r.1 == ScsiAction::Complete(fail_response(0)),
                }
            }
        }),
{
    let op = cbw.cmd[0];
    if op == SCSI_TEST_UNIT_READY {
        (finished(), ScsiAction::Complete(ScsiResponse::success()))
    } else if op == SCSI_REQUEST_SENSE {
        let p = request_sense();
        send_payload(&p)
    } else if op == SCSI_INQUIRY {
        let p = inquiry();
        send_payload(&p)
    } else if op == SCSI_MODE_SENSE_6 {
        let p = mode_sense_6();
        send_payload(&p)
    } else if op == SCSI_READ_FORMAT_CAPACITIES {
        let p = read_format_capacities();
        send_payload(&p)
    } else if op == SCSI_READ_CAPACITY_10 {
        let p = read_capacity_10();
        send_payload(&p)
    } else if op == SCSI_READ_10 {
        let cmd = cbw.cmd;
        let lba = u32_from_be_bytes(cmd[2], cmd[3], cmd[4], cmd[5]);
        let num_blocks = u16_from_be_bytes(cmd[7], cmd[8]) as u32;
        let start_offset = lba * SECTOR_SIZE;
        let total_bytes = cbw.dtl;
        let end_offset = start_offset + total_bytes;
        if end_offset > DISK_SIZE {
            return (finished(), ScsiAction::Complete(ScsiResponse::fail(total_bytes)));
        }
        let init = ScsiCommand {
            phase: ScsiPhase::Finished,
            lba,
            num_blocks,
            total: total_bytes,
            blk: 0,
            offset: 0,
            send_len: 0,
        };
        init.loop_next()
    } else {
        (finished(), ScsiAction::Complete(ScsiResponse::fail(0)))
    }
}

/// What each answer from constant data means to the host:
/// - READ CAPACITY(10) reports the last valid LBA (one less than the sector
///   count) and the 512-byte block size, which together span the disk;
/// - REQUEST SENSE reports current errors with sense key NO SENSE, no
///   additional sense code, and 10 additional bytes;
/// - INQUIRY reports a removable direct-access SCSI-2 device with the
///   vendor, product and revision strings, and the length of what follows
///   byte 4;
/// - MODE SENSE(6) reports a write-protected medium without block
///   descriptors, and the length of what follows byte 0;
/// - READ FORMAT CAPACITIES reports one formatted-media descriptor of the
///   whole disk with 512-byte blocks;
/// - no other command is answered from constant data.
pub proof fn lemma_payload_meanings(op: u8)
    ensures
        fixed_payload(SCSI_READ_CAPACITY_10) matches Some(p) && p.len() == 8
            && from_be32(p[0], p[1], p[2], p[3]) + 1 == SECTOR_COUNT
            && from_be32(p[4], p[5], p[6], p[7]) == SECTOR_SIZE
            && (from_be32(p[0], p[1], p[2], p[3]) + 1) * from_be32(p[4], p[5], p[6], p[7]) == DISK_SIZE,
        fixed_payload(SCSI_REQUEST_SENSE) matches Some(p) && p.len() == 18 && p[0] == 0x70 && p[2] == 0
            && p[7] == p.len() - 8 && p[12] == 0 && p[13] == 0
            && (forall|i: int| 0 <= i < 18 && i != 0 && i != 7 ==> p[i] == 0),
        fixed_payload(SCSI_INQUIRY) matches Some(p) && p.len() == 36 && p[0] == 0 && p[1] == 0x80
            && p[2] == 2 && p[3] == 2 && p[4] == p.len() - 5
            && p.subrange(8, 16) == MSC_VENDOR_NAME@ && p.subrange(16, 32) == MSC_PRODUCT_NAME@
            && p.subrange(32, 36) == MSC_PRODUCT_REVISION@,
        fixed_payload(SCSI_MODE_SENSE_6) matches Some(p) && p.len() == 4 && p[0] == p.len() - 1
            && p[2] == 0x80 && p[3] == 0,
        fixed_payload(SCSI_READ_FORMAT_CAPACITIES) matches Some(p) && p.len() == 12 && p[3] == p.len() - 4
            && from_be32(p[4], p[5], p[6], p[7]) == SECTOR_COUNT && p[8] == 2
            && from_be32(0, p[9], p[10], p[11]) == SECTOR_SIZE,
        op != SCSI_READ_CAPACITY_10 && op != SCSI_REQUEST_SENSE && op != SCSI_INQUIRY && op != SCSI_MODE_SENSE_6
            && op != SCSI_READ_FORMAT_CAPACITIES ==> fixed_payload(op) is None,
{
    crate::wire::lemma_be32_roundtrip((SECTOR_COUNT - 1) as u32);
    crate::wire::lemma_be32_roundtrip(SECTOR_SIZE);
    crate::wire::lemma_be32_roundtrip(SECTOR_COUNT);
    let q = inquiry_data();
    assert(q.subrange(8, 16) =~= MSC_VENDOR_NAME@);
    assert(q.subrange(16, 32) =~= MSC_PRODUCT_NAME@);
    assert(q.subrange(32, 36) =~= MSC_PRODUCT_REVISION@);
}

/// READ(10) proceeds block by block: from a command waiting for block
/// `lba + blk`, a successful read sends that sector (512 bytes, or what is
/// left of the host's transfer length), and a successful send advances to
/// block `lba + blk + 1`, or completes successfully with the bytes not sent
/// as residue once every block was sent or the transfer length is reached.
/// A failed read or send ends the command with the bytes not sent as residue.
pub proof fn lemma_read10_round(s: ScsiCommand)
    requires
        s.wf(),
        s.phase == ScsiPhase::AwaitBlock,
    ensures
        ({
            let len = min(512, s.total - s.offset);
            let (s1, a1) = scsi_step(s, ScsiEvent::BlockRead(Ok(())));
            let (s2, a2) = scsi_step(s1, ScsiEvent::Sent(Ok(())));
            &&& a1 == ScsiAction::SendSector(len as usize)
            &&& 0 < len <= 512
            &&& s2.offset == s.offset + len
            &&& s2.blk == s.blk + 1
            &&& s2.blk < s.num_blocks && s2.offset < s.total ==> a2 == ScsiAction::ReadBlock((s.lba + s.blk + 1) as u32)
            &&& !(s2.blk < s.num_blocks && s2.offset < s.total) ==> a2 == ScsiAction::Complete(
                ScsiResponse { status: ScsiStatus::ScsiSuccess, residue: (s.total - s2.offset) as u32 },
            )
            &&& scsi_step(s, ScsiEvent::BlockRead(Err(()))).1 == ScsiAction::Complete(
                fail_response((s.total - s.offset) as u32),
            )
        }),
{
}

} // verus!
