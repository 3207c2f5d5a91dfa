//! USB MSC Bulk-Only Transport packet structures.
//!
//! The host wraps every SCSI command in a 31-byte Command Block Wrapper (CBW).
//! After any command data phase, the device answers with a 13-byte Command
//! Status Wrapper (CSW). Both packet types use little-endian integers even
//! though many SCSI command fields inside `cmd` use big-endian byte order.

use vstd::prelude::*;
use crate::drivers::usb_msc::scsi::consts::CSW_SIGNATURE;
use crate::wire::{from_le32, le32, u32_from_le_bytes, u32_to_le_bytes};

verus! {

/// Command Block Wrapper sent by the USB host.
#[derive(Debug, Clone, Copy)]
pub struct Cbw {
    /// Must be `USBC` in little-endian form.
    pub signature: u32,
    /// Opaque host tag echoed back in the CSW.
    pub tag: u32,
    /// Expected data-transfer length for the command.
    pub dtl: u32,
    /// Direction bit; bit 7 set means device-to-host.
    pub flags: u8,
    /// Length of the SCSI command descriptor block in `cmd`.
    pub cb_len: u8,
    /// SCSI command descriptor block, padded to 16 bytes.
    pub cmd: [u8; 16],
}

/// Command-block length of a CBW packet, clamped to the 16-byte storage.
pub open spec fn cbw_cmd_len(buf: Seq<u8>) -> int {
    if buf[14] < 16 { buf[14] as int } else { 16 }
}

/// Packets that `Cbw::from_bytes` can read: the header and the command block
/// announced by byte 14 (clamped to 16 bytes) must be present.
pub open spec fn cbw_readable(buf: Seq<u8>) -> bool {
    buf.len() >= 15 && buf.len() >= 15 + cbw_cmd_len(buf)
}

/// Command block bytes of the CBW encoded in `buf`, zero-padded to 16 bytes.
pub open spec fn parse_cbw_cmd(buf: Seq<u8>) -> Seq<u8> {
    let n = cbw_cmd_len(buf);
    Seq::new(16, |i: int| if i < n { buf[15 + i] } else { 0u8 })
}

impl Cbw {
    /// Parses a CBW from the bulk OUT packet.
    pub fn from_bytes(buf: &[u8]) -> (r: Cbw)
        requires
            cbw_readable(buf@),
        ensures
            r.signature == from_le32(buf@[0], buf@[1], buf@[2], buf@[3]),
            r.tag == from_le32(buf@[4], buf@[5], buf@[6], buf@[7]),
            r.dtl == from_le32(buf@[8], buf@[9], buf@[10], buf@[11]),
            r.flags == buf@[12],
            r.cb_len == cbw_cmd_len(buf@),
            r.cmd@ == parse_cbw_cmd(buf@),
    {
        let signature = u32_from_le_bytes(buf[0], buf[1], buf[2], buf[3]);
        let tag = u32_from_le_bytes(buf[4], buf[5], buf[6], buf[7]);
        let dtl = u32_from_le_bytes(buf[8], buf[9], buf[10], buf[11]);
        let flags = buf[12];
        let cb_len = if buf[14] < 16 { buf[14] } else { 16 };
        let mut cmd = [0u8; 16];
        let n = cb_len as usize;
        let mut i: usize = 0;
        while i < n
            invariant
                n == cbw_cmd_len(buf@),
                15 + n <= buf@.len(),
                i <= n,
                cmd@.len() == 16,
                forall|k: int| 0 <= k < i ==> cmd@[k] == buf@[15 + k],
                forall|k: int| i <= k < 16 ==> cmd@[k] == 0u8,
            decreases n - i,
        {
            cmd[i] = buf[15 + i];
            i = i + 1;
        }
        assert(cmd@ =~= parse_cbw_cmd(buf@));
        Cbw { signature, tag, dtl, flags, cb_len, cmd }
    }
}

/// Command Status Wrapper sent after each SCSI command.
#[derive(Debug, Clone, Copy)]
pub struct Csw {
    /// Must be `USBS` in little-endian form.
    pub signature: u32,
    /// Echo of the CBW tag so the host can match command/status pairs.
    pub tag: u32,
    /// Bytes not transferred during the data phase.
    pub residue: u32,
    /// SCSI transport status: 0 success, 1 failed.
    pub status: u8,
}

/// The 13-byte wire image of a CSW.
pub open spec fn csw_bytes(signature: u32, tag: u32, residue: u32, status: u8) -> Seq<u8> {
    le32(signature) + le32(tag) + le32(residue) + seq![status]
}

impl Csw {
    /// Creates a status packet for a completed command.
    pub fn new(tag: u32, residue: u32, status: u8) -> (r: Csw)
        ensures
            r.signature == CSW_SIGNATURE,
            r.tag == tag,
            r.residue == residue,
            r.status == status,
    {
        Csw { signature: CSW_SIGNATURE, tag, residue, status }
    }

    /// Serializes the CSW into the exact 13-byte wire format.
    pub fn to_bytes(&self) -> (r: [u8; 13])
        ensures
            r@ == csw_bytes(self.signature, self.tag, self.residue, self.status),
    {
        let mut buf = [0u8; 13];
        let s = u32_to_le_bytes(self.signature);
        let t = u32_to_le_bytes(self.tag);
        let d = u32_to_le_bytes(self.residue);
        let mut i: usize = 0;
        while i < 4
            invariant
                i <= 4,
                buf@.len() == 13,
                s@ == le32(self.signature),
                t@ == le32(self.tag),
                d@ == le32(self.residue),
                forall|k: int| 0 <= k < i ==> buf@[k] == s@[k] && buf@[4 + k] == t@[k] && buf@[8 + k] == d@[k],
            decreases 4 - i,
        {
            buf[i] = s[i];
            buf[4 + i] = t[i];
            buf[8 + i] = d[i];
            i = i + 1;
        }
        buf[12] = self.status;
        assert(buf@ =~= csw_bytes(self.signature, self.tag, self.residue, self.status));
        buf
    }
}

/// A serialized CSW reads back, field by field, as the values it was built from.
pub proof fn lemma_csw_roundtrip(signature: u32, tag: u32, residue: u32, status: u8)
    ensures
        ({
            let b = csw_bytes(signature, tag, residue, status);
            &&& b.len() == 13
            &&& from_le32(b[0], b[1], b[2], b[3]) == signature
            &&& from_le32(b[4], b[5], b[6], b[7]) == tag
            &&& from_le32(b[8], b[9], b[10], b[11]) == residue
            &&& b[12] == status
        }),
{
    crate::wire::lemma_le32_roundtrip(signature);
    crate::wire::lemma_le32_roundtrip(tag);
    crate::wire::lemma_le32_roundtrip(residue);
}

} // verus!
