//! The blank virtual USB disk image: a Bulk-Only Transport loop that answers
//! the enumeration commands from constant data and serves every READ(10)
//! with zero bytes.
//!
//! One command runs as follows: the 31-byte CBW is checked and decoded by
//! `begin_command`, which also answers the SCSI command; the data phase is
//! then sent in 64-byte chunks (`next_chunk` / `on_chunk_written`); finally
//! the 13-byte CSW is sent (`csw`).

use vstd::prelude::*;
use crate::drivers::usb_msc::transport::{csw_bytes, Csw};
use crate::scsi::cmd::{copied_buffer, read10_blocks, sense_data};
use crate::scsi::consts::{
    CBW_SIGNATURE, CSW_SIGNATURE, SCSI_INQUIRY, SCSI_MODE_SENSE_6, SCSI_READ_10,
    SCSI_READ_CAPACITY_10, SCSI_READ_FORMAT_CAPACITIES, SCSI_REQUEST_SENSE, SCSI_TEST_UNIT_READY,
    SECTOR_SIZE,
};
use crate::wire::{be32, copy_prefix, from_be16, from_be32, from_le32, u16_from_be_bytes, u32_from_le_bytes, u32_to_be_bytes};

verus! {

/// Number of 512-byte sectors the blank disk reports (4 MiB).
pub const VIRTUAL_SECTOR_COUNT: u32 = 8192;

/// Largest chunk written to the bulk IN endpoint at once.
pub const BULK_CHUNK: usize = 64;

/// INQUIRY data: removable direct-access SCSI-2 device, vendor `MyBMC`,
/// product `STM32 VirtualUSB`, revision `1.00`.
pub open spec fn virtual_inquiry_data() -> Seq<u8> {
    seq![0x00u8, 0x80, 0x02, 0x02, 31, 0, 0, 0,
        0x4D, 0x79, 0x42, 0x4D, 0x43, 0x20, 0x20, 0x20,
        0x53, 0x54, 0x4D, 0x33, 0x32, 0x20, 0x56, 0x69, 0x72, 0x74, 0x75, 0x61, 0x6C, 0x55, 0x53, 0x42,
        0x31, 0x2E, 0x30, 0x30]
}

/// MODE SENSE(6) header: standard medium, not write-protected.
pub open spec fn virtual_mode_sense_data() -> Seq<u8> {
    seq![0x03u8, 0x00, 0x00, 0x00]
}

/// READ FORMAT CAPACITIES list: one formatted descriptor of the whole disk.
pub open spec fn virtual_format_capacities_data() -> Seq<u8> {
    seq![0u8, 0, 0, 0x08] + be32(VIRTUAL_SECTOR_COUNT) + seq![0x02u8] + be32(SECTOR_SIZE).subrange(1, 4)
}

/// READ CAPACITY(10) data: last LBA and block size, big-endian.
pub open spec fn virtual_capacity_data() -> Seq<u8> {
    be32((VIRTUAL_SECTOR_COUNT - 1) as u32) + be32(SECTOR_SIZE)
}

/// Constant response data of the commands answered from a table.
pub open spec fn virtual_payload(op: u8) -> Option<Seq<u8>> {
    if op == SCSI_REQUEST_SENSE {
        Some(sense_data())
    } else if op == SCSI_INQUIRY {
        Some(virtual_inquiry_data())
    } else if op == SCSI_MODE_SENSE_6 {
        Some(virtual_mode_sense_data())
    } else if op == SCSI_READ_FORMAT_CAPACITIES {
        Some(virtual_format_capacities_data())
    } else if op == SCSI_READ_CAPACITY_10 {
        Some(virtual_capacity_data())
    } else {
        None
    }
}

/// What each answer from constant data means to the host:
/// - REQUEST SENSE: current errors, sense key NO SENSE, no additional sense
///   code, 10 additional bytes, every other byte zero;
/// - INQUIRY: removable direct-access SCSI-2 device, vendor `MyBMC`,
///   product `STM32 VirtualUSB`, revision `1.00`, and the length of what
///   follows byte 4;
/// - MODE SENSE(6): a writable medium without block descriptors;
/// - READ FORMAT CAPACITIES: one formatted descriptor of all 8192 blocks
///   of 512 bytes;
/// - READ CAPACITY(10): the last valid LBA (one less than the block count)
///   and the block size, spanning the 4 MiB disk;
/// - no other command is answered from constant data.
pub proof fn lemma_virtual_payload_meanings(op: u8)
    ensures
        virtual_payload(SCSI_REQUEST_SENSE) matches Some(p) && p.len() == 18 && p[0] == 0x70 && p[2] == 0
            && p[7] == p.len() - 8 && p[12] == 0 && p[13] == 0
            && (forall|i: int| 0 <= i < 18 && i != 0 && i != 7 ==> p[i] == 0),
        virtual_payload(SCSI_INQUIRY) matches Some(p) && p.len() == 36 && p[0] == 0 && p[1] == 0x80
            && p[2] == 2 && p[3] == 2 && p[4] == p.len() - 5
            && p.subrange(8, 16) == seq![0x4Du8, 0x79, 0x42, 0x4D, 0x43, 0x20, 0x20, 0x20]
            && p.subrange(16, 32) == seq![0x53u8, 0x54, 0x4D, 0x33, 0x32, 0x20, 0x56, 0x69, 0x72, 0x74, 0x75,
                0x61, 0x6C, 0x55, 0x53, 0x42]
            && p.subrange(32, 36) == seq![0x31u8, 0x2E, 0x30, 0x30],
        virtual_payload(SCSI_MODE_SENSE_6) matches Some(p) && p.len() == 4 && p[0] == p.len() - 1
            && p[2] == 0 && p[3] == 0,
        virtual_payload(SCSI_READ_FORMAT_CAPACITIES) matches Some(p) && p.len() == 12 && p[3] == p.len() - 4
            && from_be32(p[4], p[5], p[6], p[7]) == VIRTUAL_SECTOR_COUNT && p[8] == 2
            && from_be32(0, p[9], p[10], p[11]) == SECTOR_SIZE,
        virtual_payload(SCSI_READ_CAPACITY_10) matches Some(p) && p.len() == 8
            && from_be32(p[0], p[1], p[2], p[3]) + 1 == VIRTUAL_SECTOR_COUNT
            && from_be32(p[4], p[5], p[6], p[7]) == SECTOR_SIZE
            && (from_be32(p[0], p[1], p[2], p[3]) + 1) * from_be32(p[4], p[5], p[6], p[7]) == 4 * 1024 * 1024,
        op != SCSI_READ_CAPACITY_10 && op != SCSI_REQUEST_SENSE && op != SCSI_INQUIRY && op != SCSI_MODE_SENSE_6
            && op != SCSI_READ_FORMAT_CAPACITIES ==> virtual_payload(op) is None,
{
    crate::wire::lemma_be32_roundtrip((VIRTUAL_SECTOR_COUNT - 1) as u32);
    crate::wire::lemma_be32_roundtrip(SECTOR_SIZE);
    crate::wire::lemma_be32_roundtrip(VIRTUAL_SECTOR_COUNT);
    let q = virtual_inquiry_data();
    assert(q.subrange(8, 16) =~= seq![0x4Du8, 0x79, 0x42, 0x4D, 0x43, 0x20, 0x20, 0x20]);
    assert(q.subrange(16, 32) =~= seq![0x53u8, 0x54, 0x4D, 0x33, 0x32, 0x20, 0x56, 0x69, 0x72, 0x74, 0x75,
        0x61, 0x6C, 0x55, 0x53, 0x42]);
    assert(q.subrange(32, 36) =~= seq![0x31u8, 0x2E, 0x30, 0x30]);
}

/// How `handle_scsi_command` answers, for every command block and buffer:
/// an answer from constant data is copied into the buffer as far as it
/// fits, the length copied and the bytes left over adding up to the whole
/// answer; READ(10) reports its block count times 512 and leaves the buffer
/// alone; TEST UNIT READY succeeds with nothing; an empty or unknown
/// command fails with nothing.
pub proof fn lemma_command_result_shape(cmd: Seq<u8>, buf: Seq<u8>)
    requires
        command_ok(cmd),
    ensures
        ({
            let (status, residue, len) = command_result(cmd, buf.len());
            let out = command_buffer(cmd, buf);
            &&& out.len() == buf.len()
            &&& cmd.len() > 0 ==> match virtual_payload(cmd[0]) {
                Some(p) => status == 0 && len + residue == p.len() && len <= buf.len()
                    && (len < p.len() ==> len == buf.len())
                    && out.subrange(0, len as int) == p.subrange(0, len as int)
                    && out.subrange(len as int, buf.len() as int) == buf.subrange(len as int, buf.len() as int),
                None => out == buf,
            }
            &&& cmd.len() > 0 && cmd[0] == SCSI_READ_10 ==> status == 0 && residue == 0
                && len == from_be16(cmd[7], cmd[8]) * 512
            &&& cmd.len() > 0 && cmd[0] == SCSI_TEST_UNIT_READY ==> (status, residue, len) == (0u8, 0u32, 0usize)
            &&& (cmd.len() == 0 || (cmd[0] != SCSI_TEST_UNIT_READY && cmd[0] != SCSI_READ_10
                && virtual_payload(cmd[0]) is None)) ==> (status, residue, len) == (1u8, 0u32, 0usize)
        }),
{
    if cmd.len() > 0 {
        lemma_virtual_payload_meanings(cmd[0]);
        if cmd[0] == SCSI_READ_10 {
            crate::wire::lemma_from_be16_bound(cmd[7], cmd[8]);
        }
        match virtual_payload(cmd[0]) {
            Some(p) => {
                let len = if p.len() < buf.len() { p.len() } else { buf.len() };
                assert(command_buffer(cmd, buf).subrange(0, len as int) =~= p.subrange(0, len as int));
                assert(command_buffer(cmd, buf).subrange(len as int, buf.len() as int)
                    =~= buf.subrange(len as int, buf.len() as int));
            },
            None => {},
        }
    }
}

/// A command block the responder can decode: a READ(10) carries its
/// transfer length field.
pub open spec fn command_ok(cmd: Seq<u8>) -> bool {
    cmd.len() > 0 && cmd[0] == SCSI_READ_10 ==> cmd.len() >= 9
}

/// `(status, residue, response length)` of `cmd` with a response buffer of
/// `buf_len` bytes. Status 0 is success, 1 failure; a READ(10) reports the
/// byte count of its data phase.
pub open spec fn command_result(cmd: Seq<u8>, buf_len: nat) -> (u8, u32, usize) {
    if cmd.len() == 0 {
        (1, 0, 0)
    } else if cmd[0] == SCSI_TEST_UNIT_READY {
        (0, 0, 0)
    } else if cmd[0] == SCSI_READ_10 {
        (0, 0, (read10_blocks(cmd) * 512) as usize)
    } else {
        match virtual_payload(cmd[0]) {
            Some(p) => {
                let len = if p.len() < buf_len { p.len() } else { buf_len };
                (0, (p.len() - len) as u32, len as usize)
            },
            None => (1, 0, 0),
        }
    }
}

/// Response buffer after `cmd` was answered.
pub open spec fn command_buffer(cmd: Seq<u8>, buf: Seq<u8>) -> Seq<u8> {
    if cmd.len() == 0 {
        buf
    } else {
        match virtual_payload(cmd[0]) {
            Some(p) => copied_buffer(p, buf),
            None => buf,
        }
    }
}

fn answer(payload: &[u8], data_buf: &mut [u8]) -> (r: (u8, u32, usize))
    requires
        payload@.len() <= 64,
    ensures
        ({
            let len = if payload@.len() < old(data_buf)@.len() { payload@.len() } else { old(data_buf)@.len() };
            r == (0u8, (payload@.len() - len) as u32, len as usize)
        }),
        final(data_buf)@ == copied_buffer(payload@, old(data_buf)@),
{
    let len = copy_prefix(payload, data_buf);
    (0, (payload.len() - len) as u32, len)
}

fn inquiry_bytes() -> (r: [u8; 36])
    ensures
        r@ == virtual_inquiry_data(),
{
    let resp: [u8; 36] = [
        0x00, 0x80, 0x02, 0x02, 31, 0, 0, 0,
        0x4D, 0x79, 0x42, 0x4D, 0x43, 0x20, 0x20, 0x20,
        0x53, 0x54, 0x4D, 0x33, 0x32, 0x20, 0x56, 0x69, 0x72, 0x74, 0x75, 0x61, 0x6C, 0x55, 0x53, 0x42,
        0x31, 0x2E, 0x30, 0x30,
    ];
    assert(resp@ =~= virtual_inquiry_data());
    resp
}

fn format_capacities_bytes() -> (r: [u8; 12])
    ensures
        r@ == virtual_format_capacities_data(),
{
    let mut resp = [0u8; 12];
    resp[3] = 0x08;
    let count = u32_to_be_bytes(VIRTUAL_SECTOR_COUNT);
    resp[4] = count[0];
    resp[5] = count[1];
    resp[6] = count[2];
    resp[7] = count[3];
    resp[8] = 0x02;
    let block_len = u32_to_be_bytes(SECTOR_SIZE);
    resp[9] = block_len[1];
    resp[10] = block_len[2];
    resp[11] = block_len[3];
    assert(resp@ =~= virtual_format_capacities_data());
    resp
}

fn capacity_bytes() -> (r: [u8; 8])
    ensures
        r@ == virtual_capacity_data(),
{
    let mut resp = [0u8; 8];
    let last = u32_to_be_bytes(VIRTUAL_SECTOR_COUNT - 1);
    let size = u32_to_be_bytes(SECTOR_SIZE);
    resp[0] = last[0];
    resp[1] = last[1];
    resp[2] = last[2];
    resp[3] = last[3];
    resp[4] = size[0];
    resp[5] = size[1];
    resp[6] = size[2];
    resp[7] = size[3];
    assert(resp@ =~= virtual_capacity_data());
    resp
}

/// Answers one SCSI command block: fills `data_buf` with as much of the
/// response as fits and returns `(status, residue, response length)`.
/// READ(10) leaves the buffer alone and reports its transfer size.
pub fn handle_scsi_command(cmd: &[u8], data_buf: &mut [u8]) -> (r: (u8, u32, usize))
    requires
        command_ok(cmd@),
    ensures
        r == command_result(cmd@, old(data_buf)@.len()),
        final(data_buf)@ == command_buffer(cmd@, old(data_buf)@),
{
    if cmd.len() == 0 {
        return (1, 0, 0);
    }
    let op = cmd[0];
    if op == SCSI_TEST_UNIT_READY {
        (0, 0, 0)
    } else if op == SCSI_REQUEST_SENSE {
        let mut sense = [0u8; 18];
        sense[0] = 0x70;
        sense[2] = 0x00;
        sense[7] = 10;
        assert(sense@ =~= sense_data());
        answer(&sense, data_buf)
    } else if op == SCSI_INQUIRY {
        let resp = inquiry_bytes();
        answer(&resp, data_buf)
    } else if op == SCSI_MODE_SENSE_6 {
        let resp: [u8; 4] = [0x03, 0x00, 0x00, 0x00];
        assert(resp@ =~= virtual_mode_sense_data());
        answer(&resp, data_buf)
    } else if op == SCSI_READ_FORMAT_CAPACITIES {
        let resp = format_capacities_bytes();
        answer(&resp, data_buf)
    } else if op == SCSI_READ_CAPACITY_10 {
        let resp = capacity_bytes();
        answer(&resp, data_buf)
    } else if op == SCSI_READ_10 {
        let num_blocks = u16_from_be_bytes(cmd[7], cmd[8]) as u32;
        let total_bytes = (num_blocks * SECTOR_SIZE) as usize;
        (0, 0, total_bytes)
    } else {
        (1, 0, 0)
    }
}

/// Little-endian 32-bit field of a CBW at byte `i`.
pub open spec fn cbw_field(cbw: Seq<u8>, i: int) -> int {
    from_le32(cbw[i], cbw[i + 1], cbw[i + 2], cbw[i + 3])
}

/// A received CBW that is processed: a full 31-byte packet with the
/// `USBC` signature. Anything else is dropped without a reply.
pub open spec fn cbw_accepted(cbw: Seq<u8>, n: nat) -> bool {
    n >= 31 && cbw_field(cbw, 0) == CBW_SIGNATURE
}

/// Command block of a CBW: its length field clamped to 16 bytes.
pub open spec fn bulk_command(cbw: Seq<u8>) -> Seq<u8> {
    let l: int = if cbw[14] < 16 { cbw[14] as int } else { 16 };
    cbw.subrange(15, 15 + l)
}

/// Whether `begin_command` can take the received CBW: a processed packet
/// whose command is READ(10) must carry the LBA and length fields.
pub fn cbw_command_ok(cbw: &[u8; 31], n: usize) -> (r: bool)
    ensures
        r == (cbw_accepted(cbw@, n as nat) ==> command_ok(bulk_command(cbw@))),
{
    if n < 31 || u32_from_le_bytes(cbw[0], cbw[1], cbw[2], cbw[3]) != CBW_SIGNATURE {
        return true;
    }
    let cb_len: usize = if (cbw[14] as usize) < 16 { cbw[14] as usize } else { 16 };
    !(cb_len > 0 && cbw[15] == SCSI_READ_10) || cb_len >= 9
}

/// The host expects data from the device (direction bit of the flags).
pub open spec fn device_to_host(flags: u8) -> bool {
    flags & 0x80u8 != 0
}

/// Progress of one Bulk-Only command after its CBW was accepted.
pub struct MscTransfer {
    /// Tag echoed in the CSW.
    pub tag: u32,
    /// Data transfer length announced by the host.
    pub dtl: u32,
    /// SCSI status reported in the CSW.
    pub status: u8,
    /// Residue reported in the CSW.
    pub residue: u32,
    /// Bytes of the data phase to send.
    pub send_len: usize,
    /// Bytes of the data phase sent so far.
    pub offset: usize,
    /// The data phase is zero bytes (a READ(10)) rather than `payload`.
    pub zero_fill: bool,
    /// A chunk write failed; the data phase was abandoned.
    pub failed: bool,
    /// Response bytes to send when not `zero_fill`.
    pub payload: Vec<u8>,
}

impl MscTransfer {
    /// Internal consistency of a transfer.
    pub open spec fn wf(&self) -> bool {
        &&& self.offset <= self.send_len
        &&& self.send_len <= self.dtl
        &&& !self.zero_fill ==> self.payload@.len() == self.send_len
    }

    /// Length of the next chunk of the data phase.
    pub open spec fn chunk_len(&self) -> int {
        let left = self.send_len - self.offset;
        if left < 64 { left } else { 64 }
    }

    /// Bytes of the next chunk of the data phase.
    pub open spec fn chunk(&self) -> Seq<u8> {
        if self.zero_fill {
            Seq::new(self.chunk_len() as nat, |i: int| 0u8)
        } else {
            self.payload@.subrange(self.offset as int, self.offset + self.chunk_len())
        }
    }

    /// The data phase is over: every chunk was sent, or one failed.
    pub open spec fn done(&self) -> bool {
        self.failed || self.offset >= self.send_len
    }
}

/// The chunks of a data phase continue one another: what was sent before
/// the next chunk, followed by that chunk, is the payload up to the end of
/// the chunk. With `on_chunk_written` advancing the offset by the chunk's
/// length, a data phase that ends without failure has sent exactly the
/// first `send_len` bytes of the payload, in order.
pub proof fn lemma_chunks_concatenate(t: MscTransfer)
    requires
        t.wf(),
        !t.done(),
        !t.zero_fill,
    ensures
        t.payload@.subrange(0, t.offset as int) + t.chunk()
            == t.payload@.subrange(0, t.offset + t.chunk_len()),
{
    assert(t.payload@.subrange(0, t.offset as int) + t.chunk()
        =~= t.payload@.subrange(0, t.offset + t.chunk_len()));
}

/// Checks and decodes a received CBW (`n` bytes of `cbw` valid) and answers
/// its SCSI command into `data_buf`. `None` means the packet is dropped.
///
/// The data phase is sent when the host asked for device-to-host data, the
/// transfer length is nonzero and the command produced data; it is as long
/// as the shorter of the two. Otherwise a nonzero transfer length is
/// reported entirely as residue.
pub fn begin_command(cbw: &[u8; 31], n: usize, data_buf: &mut [u8]) -> (r: Option<MscTransfer>)
    requires
        cbw_accepted(cbw@, n as nat) ==> command_ok(bulk_command(cbw@)),
    ensures
        !cbw_accepted(cbw@, n as nat) ==> r is None && final(data_buf)@ == old(data_buf)@,
        cbw_accepted(cbw@, n as nat) ==> {
            let cmd = bulk_command(cbw@);
            let (status, residue, resp_len) = command_result(cmd, old(data_buf)@.len());
            let dtl = cbw_field(cbw@, 8);
            let sending = device_to_host(cbw@[12]) && dtl > 0 && resp_len > 0;
            &&& final(data_buf)@ == command_buffer(cmd, old(data_buf)@)
            &&& r matches Some(t) && {
                &&& t.wf()
                &&& t.tag == cbw_field(cbw@, 4)
                &&& t.dtl == dtl
                &&& t.status == status
                &&& t.offset == 0
                &&& !t.failed
                &&& t.zero_fill == (cmd.len() > 0 && cmd[0] == SCSI_READ_10)
                &&& t.send_len == if sending { if resp_len < dtl { resp_len as int } else { dtl } } else { 0 }
                &&& t.residue == if !sending && dtl > 0 { dtl } else { residue as int }
                &&& !t.zero_fill ==> t.payload@ == final(data_buf)@.subrange(0, t.send_len as int)
            }
        },
{
    if n < 31 {
        return None;
    }
    let sig = u32_from_le_bytes(cbw[0], cbw[1], cbw[2], cbw[3]);
    if sig != CBW_SIGNATURE {
        return None;
    }
    let tag = u32_from_le_bytes(cbw[4], cbw[5], cbw[6], cbw[7]);
    let dtl = u32_from_le_bytes(cbw[8], cbw[9], cbw[10], cbw[11]);
    let flags = cbw[12];
    let cb_len: usize = if (cbw[14] as usize) < 16 { cbw[14] as usize } else { 16 };
    let cmd = &cbw[15..15 + cb_len];
    assert(cmd@ =~= bulk_command(cbw@));
    let (status, residue, resp_len) = handle_scsi_command(cmd, data_buf);
    let zero_fill = cb_len > 0 && cmd[0] == SCSI_READ_10;
    if flags & 0x80 != 0 && dtl > 0 && resp_len > 0 {
        let send_len: usize = if resp_len < dtl as usize { resp_len } else { dtl as usize };
        let mut payload: Vec<u8> = Vec::new();
        if !zero_fill {
            let mut i: usize = 0;
            while i < send_len
                invariant
                    i <= send_len,
                    send_len <= data_buf@.len(),
                    payload@ == data_buf@.subrange(0, i as int),
                decreases send_len - i,
            {
                payload.push(data_buf[i]);
                i = i + 1;
                assert(payload@ =~= data_buf@.subrange(0, i as int));
            }
        }
        Some(MscTransfer {
            tag,
            dtl,
            status,
            residue,
            send_len,
            offset: 0,
            zero_fill,
            failed: false,
            payload,
        })
    } else {
        let residue = if dtl > 0 { dtl } else { residue };
        Some(MscTransfer {
            tag,
            dtl,
            status,
            residue,
            send_len: 0,
            offset: 0,
            zero_fill,
            failed: false,
            payload: Vec::new(),
        })
    }
}

impl MscTransfer {
    /// The next chunk of the data phase, or `None` once it is over.
    pub fn next_chunk(&self) -> (r: Option<Vec<u8>>)
        requires
            self.wf(),
        ensures
            r is None <==> self.done(),
            r matches Some(c) ==> c@ == self.chunk(),
    {
        if self.failed || self.offset >= self.send_len {
            return None;
        }
        let left = self.send_len - self.offset;
        let len: usize = if left < BULK_CHUNK { left } else { BULK_CHUNK };
        let mut c: Vec<u8> = Vec::new();
        let mut i: usize = 0;
        while i < len
            invariant
                i <= len,
                len == self.chunk_len(),
                self.wf(),
                !self.done(),
                c@ == self.chunk().subrange(0, i as int),
            decreases len - i,
        {
            if self.zero_fill {
                c.push(0u8);
            } else {
                c.push(self.payload[self.offset + i]);
            }
            i = i + 1;
            assert(c@ =~= self.chunk().subrange(0, i as int));
        }
        assert(c@ =~= self.chunk());
        Some(c)
    }

    /// Records the outcome of writing the chunk returned by `next_chunk`.
    /// A failed write abandons the data phase and reports everything not
    /// yet sent as residue; after the last chunk, a transfer length larger
    /// than the data sent is reported as residue.
    pub fn on_chunk_written(&mut self, ok: bool)
        requires
            old(self).wf(),
            !old(self).done(),
        ensures
            final(self).wf(),
            final(self).tag == old(self).tag,
            final(self).dtl == old(self).dtl,
            final(self).status == old(self).status,
            final(self).send_len == old(self).send_len,
            final(self).zero_fill == old(self).zero_fill,
            final(self).payload@ == old(self).payload@,
            ok ==> {
                &&& !final(self).failed
                &&& final(self).offset == old(self).offset + old(self).chunk_len()
                &&& final(self).residue == if final(self).offset == final(self).send_len
                    && final(self).send_len < final(self).dtl {
                    final(self).dtl - final(self).send_len
                } else {
                    old(self).residue as int
                }
            },
            !ok ==> {
                &&& final(self).failed
                &&& final(self).offset == old(self).offset
                &&& final(self).residue == old(self).dtl - old(self).offset
            },
    {
        if !ok {
            self.residue = self.dtl - self.offset as u32;
            self.failed = true;
            return;
        }
        let left = self.send_len - self.offset;
        let len: usize = if left < BULK_CHUNK { left } else { BULK_CHUNK };
        self.offset = self.offset + len;
        if self.offset == self.send_len && (self.send_len as u32) < self.dtl {
            self.residue = self.dtl - self.send_len as u32;
        }
    }

    /// The 13-byte CSW closing the command.
    pub fn csw(&self) -> (r: [u8; 13])
        ensures
            r@ == csw_bytes(CSW_SIGNATURE, self.tag, self.residue, self.status),
    {
        Csw::new(self.tag, self.residue, self.status).to_bytes()
    }
}

} // verus!
