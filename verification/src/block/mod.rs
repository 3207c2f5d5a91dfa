//! Block-device logic used by the USB MSC storage backends.
//!
//! The USB mass-storage service speaks in 512-byte sectors because that is
//! what Raspberry Pi boot firmware and the SCSI READ(10) command expect.

pub mod cached_data;
pub mod example_fs;
pub mod remote;

use vstd::prelude::*;
use crate::drivers::usb_msc::scsi::consts::SECTOR_SIZE;

verus! {

/// Logical sector size exposed through USB MSC.
pub const BLOCK_SIZE: u32 = SECTOR_SIZE;

/// Number of blocks a multi-block read of `len` bytes covers (rounded up,
/// so a partially filled final sector is still read).
pub fn blocks_to_read(len: usize) -> (r: u32)
    requires
        len + BLOCK_SIZE <= u32::MAX,
    ensures
        r == (len + 511) / 512,
{
    (len as u32 + BLOCK_SIZE - 1) / BLOCK_SIZE
}

/// Block address and buffer range of the `i`-th block of a multi-block read
/// of a `len`-byte buffer starting at `lba`. The last block of a buffer that
/// is not a whole number of blocks is cut at the buffer's end.
pub fn block_span(lba: u32, i: u32, len: usize) -> (r: (u32, usize, usize))
    requires
        lba + i <= u32::MAX,
        i * 512 < len,
        i * 512 <= u32::MAX,
    ensures
        r.0 == lba + i,
        r.1 == i * 512,
        r.2 == if i * 512 + 512 < len { i * 512 + 512 } else { len as int },
{
    let off = (i * BLOCK_SIZE) as usize;
    let end = if len - off > BLOCK_SIZE as usize { off + BLOCK_SIZE as usize } else { len };
    (lba + i, off, end)
}

/// Whether a multi-block read of a `len`-byte buffer at `lba` keeps its
/// block count and every block address within 32 bits, as `blocks_to_read`
/// and `block_span` need.
pub fn multi_block_in_range(lba: u32, len: usize) -> (r: bool)
    ensures
        r == (len + 512 <= u32::MAX && (len > 0 ==> lba + (len + 511) / 512 - 1 <= u32::MAX)),
{
    if len > (u32::MAX - 512) as usize {
        return false;
    }
    len == 0 || ((len as u32 + 511) / 512 - 1) <= u32::MAX - lba
}

/// End (exclusive) of block `i` in a `len`-byte buffer.
pub open spec fn block_end(i: int, len: int) -> int {
    if i * 512 + 512 < len { i * 512 + 512 } else { len }
}

/// A `len`-byte buffer holding the given sectors one after another, cut at
/// its end.
pub open spec fn sectors_content(secs: Seq<Seq<u8>>, len: nat) -> Seq<u8> {
    Seq::new(len, |j: int| secs[j / 512][j % 512])
}

/// Places the 512-byte `sector` read for block `i` into `buf`; the last
/// block of a buffer that is not a whole number of blocks is cut at the
/// buffer's end.
pub fn copy_block_into(buf: &mut [u8], i: u32, sector: &[u8; 512])
    requires
        i * 512 < old(buf)@.len(),
        i * 512 <= u32::MAX,
    ensures
        final(buf)@.len() == old(buf)@.len(),
        forall|j: int| 0 <= j < old(buf)@.len() ==> #[trigger] final(buf)@[j] == if i * 512 <= j < block_end(
            i as int,
            old(buf)@.len() as int,
        ) {
            sector@[j - i * 512]
        } else {
            old(buf)@[j]
        },
{
    let (_, start, end) = block_span(0, i, buf.len());
    let mut k: usize = start;
    while k < end
        invariant
            start == i * 512,
            end == block_end(i as int, old(buf)@.len() as int),
            start <= k <= end,
            end <= buf@.len(),
            end - start <= 512,
            buf@.len() == old(buf)@.len(),
            forall|j: int| 0 <= j < buf@.len() ==> #[trigger] buf@[j] == if start <= j < k {
                sector@[j - start]
            } else {
                old(buf)@[j]
            },
        decreases end - k,
    {
        buf[k] = sector[k - start];
        k = k + 1;
    }
}

/// Reading a multi-block buffer block by block, in order, fills it with the
/// sectors cut to its length: if the bytes before block `i` hold sectors
/// `0..i`, copying sector `i` extends that to the end of block `i`, and after
/// the last block the whole buffer is `sectors_content`.
pub proof fn lemma_copy_extends(before: Seq<u8>, after: Seq<u8>, secs: Seq<Seq<u8>>, i: int)
    requires
        0 <= i < secs.len(),
        secs[i].len() == 512,
        i * 512 < before.len(),
        after.len() == before.len(),
        forall|j: int| 0 <= j < i * 512 ==> #[trigger] before[j] == secs[j / 512][j % 512],
        forall|j: int| 0 <= j < before.len() ==> #[trigger] after[j] == if i * 512 <= j < block_end(i, before.len() as int) {
            secs[i][j - i * 512]
        } else {
            before[j]
        },
    ensures
        forall|j: int| 0 <= j < block_end(i, before.len() as int) ==> #[trigger] after[j] == secs[j / 512][j % 512],
        block_end(i, before.len() as int) == before.len() ==> after == sectors_content(secs, before.len()),
{
    assert forall|j: int| 0 <= j < block_end(i, before.len() as int) implies #[trigger] after[j] == secs[j / 512][j % 512] by {
        if j >= i * 512 {
            assert(j / 512 == i && j % 512 == j - i * 512) by (nonlinear_arith)
                requires i * 512 <= j < i * 512 + 512;
        } else {
            assert(before[j] == secs[j / 512][j % 512]);
        }
    }
    if block_end(i, before.len() as int) == before.len() {
        assert(after =~= sectors_content(secs, before.len()));
    }
}

} // verus!
