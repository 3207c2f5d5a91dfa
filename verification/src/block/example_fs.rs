//! Synthetic FAT16 block device used by examples and USB MSC smoke tests.
//!
//! The device exposes a tiny, mostly empty 256 MiB FAT16 disk with one file:
//! `HELLO.TXT`. Important sector layout:
//! - LBA 0: boot sector / BIOS parameter block;
//! - LBA 1 and 257: FAT copies;
//! - LBA 513: root directory sector;
//! - LBA 545: file data for `HELLO.TXT`;
//! - all other sectors: zero-filled.

use vstd::prelude::*;
use crate::block::cached_data::{CachedData, CACHE_BLOCKS, CACHE_BYTES};
use crate::block::BLOCK_SIZE;
use crate::drivers::usb_msc::scsi::consts::SECTOR_COUNT;

verus! {

/// Boot sector / BIOS parameter block of the synthetic disk.
pub open spec fn boot_sector_bytes() -> Seq<u8> {
    Seq::new(512, |i: int| boot_sector_bytes_at(i))
}

/// Byte `i` of [`boot_sector_bytes`].
pub open spec fn boot_sector_bytes_at(i: int) -> u8 {
    if i == 0 { 0xEB } else
    if i == 1 { 0x3C } else
    if i == 2 { 0x90 } else
    if i == 3 { 0x4D } else
    if i == 4 { 0x53 } else
    if i == 5 { 0x44 } else
    if i == 6 { 0x4F } else
    if i == 7 { 0x53 } else
    if i == 8 { 0x35 } else
    if i == 9 { 0x2E } else
    if i == 10 { 0x30 } else
    if i == 12 { 0x02 } else
    if i == 13 { 0x10 } else
    if i == 14 { 0x01 } else
    if i == 16 { 0x02 } else
    if i == 18 { 0x02 } else
    if i == 21 { 0xF8 } else
    if i == 23 { 0x01 } else
    if i == 34 { 0x08 } else
    if i == 36 { 0x80 } else
    if i == 38 { 0x29 } else
    if i == 43 { 0x52 } else
    if i == 44 { 0x55 } else
    if i == 45 { 0x53 } else
    if i == 46 { 0x54 } else
    if i == 47 { 0x20 } else
    if i == 48 { 0x44 } else
    if i == 49 { 0x49 } else
    if i == 50 { 0x53 } else
    if i == 51 { 0x4B } else
    if i == 52 { 0x20 } else
    if i == 53 { 0x20 } else
    if i == 54 { 0x46 } else
    if i == 55 { 0x41 } else
    if i == 56 { 0x54 } else
    if i == 57 { 0x31 } else
    if i == 58 { 0x36 } else
    if i == 59 { 0x20 } else
    if i == 60 { 0x20 } else
    if i == 61 { 0x20 } else
    if i == 510 { 0x55 } else
    if i == 511 { 0xAA } else
    { 0 }
}

/// First sector of each FAT copy.
pub open spec fn fat_sector_bytes() -> Seq<u8> {
    Seq::new(512, |i: int| fat_sector_bytes_at(i))
}

/// Byte `i` of [`fat_sector_bytes`].
pub open spec fn fat_sector_bytes_at(i: int) -> u8 {
    if i == 0 { 0xF8 } else
    if i == 1 { 0xFF } else
    if i == 2 { 0xFF } else
    if i == 3 { 0xFF } else
    if i == 4 { 0xFF } else
    if i == 5 { 0xFF } else
    { 0 }
}

/// Root directory sector holding the `HELLO.TXT` entry.
pub open spec fn root_dir_sector_bytes() -> Seq<u8> {
    Seq::new(512, |i: int| root_dir_sector_bytes_at(i))
}

/// Byte `i` of [`root_dir_sector_bytes`].
pub open spec fn root_dir_sector_bytes_at(i: int) -> u8 {
    if i == 0 { 0x48 } else
    if i == 1 { 0x45 } else
    if i == 2 { 0x4C } else
    if i == 3 { 0x4C } else
    if i == 4 { 0x4F } else
    if i == 5 { 0x20 } else
    if i == 6 { 0x20 } else
    if i == 7 { 0x20 } else
    if i == 8 { 0x54 } else
    if i == 9 { 0x58 } else
    if i == 10 { 0x54 } else
    if i == 11 { 0x20 } else
    if i == 26 { 0x02 } else
    if i == 28 { 0x1D } else
    { 0 }
}

/// Data sector of `HELLO.TXT`.
pub open spec fn hello_data_sector_bytes() -> Seq<u8> {
    Seq::new(512, |i: int| hello_data_sector_bytes_at(i))
}

/// Byte `i` of [`hello_data_sector_bytes`].
pub open spec fn hello_data_sector_bytes_at(i: int) -> u8 {
    if i == 0 { 0x57 } else
    if i == 1 { 0x65 } else
    if i == 2 { 0x6C } else
    if i == 3 { 0x63 } else
    if i == 4 { 0x6F } else
    if i == 5 { 0x6D } else
    if i == 6 { 0x65 } else
    if i == 7 { 0x20 } else
    if i == 8 { 0x74 } else
    if i == 9 { 0x6F } else
    if i == 10 { 0x20 } else
    if i == 11 { 0x32 } else
    if i == 12 { 0x35 } else
    if i == 13 { 0x36 } else
    if i == 14 { 0x4D } else
    if i == 15 { 0x42 } else
    if i == 16 { 0x20 } else
    if i == 17 { 0x52 } else
    if i == 18 { 0x75 } else
    if i == 19 { 0x73 } else
    if i == 20 { 0x74 } else
    if i == 21 { 0x20 } else
    if i == 22 { 0x44 } else
    if i == 23 { 0x69 } else
    if i == 24 { 0x73 } else
    if i == 25 { 0x6B } else
    if i == 26 { 0x21 } else
    if i == 27 { 0x0D } else
    if i == 28 { 0x0A } else
    { 0 }
}




/// Builds the boot sector / BIOS parameter block.
pub fn build_boot_sector() -> (r: [u8; 512])
    ensures
        r@ == boot_sector_bytes(),
{
    let mut buf = [0u8; 512];
    buf[0] = 0xEB;
    buf[1] = 0x3C;
    buf[2] = 0x90;
    buf[3] = 0x4D;
    buf[4] = 0x53;
    buf[5] = 0x44;
    buf[6] = 0x4F;
    buf[7] = 0x53;
    buf[8] = 0x35;
    buf[9] = 0x2E;
    buf[10] = 0x30;
    buf[11] = 0x00;
    buf[12] = 0x02;
    buf[13] = 0x10;
    buf[14] = 0x01;
    buf[15] = 0x00;
    buf[16] = 0x02;
    buf[17] = 0x00;
    buf[18] = 0x02;
    buf[19] = 0x00;
    buf[20] = 0x00;
    buf[21] = 0xF8;
    buf[22] = 0x00;
    buf[23] = 0x01;
    buf[32] = 0x00;
    buf[33] = 0x00;
    buf[34] = 0x08;
    buf[35] = 0x00;
    buf[36] = 0x80;
    buf[38] = 0x29;
    buf[43] = 0x52;
    buf[44] = 0x55;
    buf[45] = 0x53;
    buf[46] = 0x54;
    buf[47] = 0x20;
    buf[48] = 0x44;
    buf[49] = 0x49;
    buf[50] = 0x53;
    buf[51] = 0x4B;
    buf[52] = 0x20;
    buf[53] = 0x20;
    buf[54] = 0x46;
    buf[55] = 0x41;
    buf[56] = 0x54;
    buf[57] = 0x31;
    buf[58] = 0x36;
    buf[59] = 0x20;
    buf[60] = 0x20;
    buf[61] = 0x20;
    buf[510] = 0x55;
    buf[511] = 0xAA;
    assert(buf@ =~= boot_sector_bytes());
    buf
}

/// Builds the first sector of a FAT copy.
pub fn fat_sector() -> (r: [u8; 512])
    ensures
        r@ == fat_sector_bytes(),
{
    let mut buf = [0u8; 512];
    buf[0] = 0xF8;
    buf[1] = 0xFF;
    buf[2] = 0xFF;
    buf[3] = 0xFF;
    buf[4] = 0xFF;
    buf[5] = 0xFF;
    assert(buf@ =~= fat_sector_bytes());
    buf
}

/// Builds the root directory sector.
pub fn root_dir_sector() -> (r: [u8; 512])
    ensures
        r@ == root_dir_sector_bytes(),
{
    let mut buf = [0u8; 512];
    buf[0] = 0x48;
    buf[1] = 0x45;
    buf[2] = 0x4C;
    buf[3] = 0x4C;
    buf[4] = 0x4F;
    buf[5] = 0x20;
    buf[6] = 0x20;
    buf[7] = 0x20;
    buf[8] = 0x54;
    buf[9] = 0x58;
    buf[10] = 0x54;
    buf[11] = 0x20;
    buf[26] = 0x02;
    buf[27] = 0x00;
    buf[28] = 0x1D;
    assert(buf@ =~= root_dir_sector_bytes());
    buf
}

/// Builds the data sector of `HELLO.TXT`.
pub fn hello_data_sector() -> (r: [u8; 512])
    ensures
        r@ == hello_data_sector_bytes(),
{
    let mut buf = [0u8; 512];
    buf[0] = 0x57;
    buf[1] = 0x65;
    buf[2] = 0x6C;
    buf[3] = 0x63;
    buf[4] = 0x6F;
    buf[5] = 0x6D;
    buf[6] = 0x65;
    buf[7] = 0x20;
    buf[8] = 0x74;
    buf[9] = 0x6F;
    buf[10] = 0x20;
    buf[11] = 0x32;
    buf[12] = 0x35;
    buf[13] = 0x36;
    buf[14] = 0x4D;
    buf[15] = 0x42;
    buf[16] = 0x20;
    buf[17] = 0x52;
    buf[18] = 0x75;
    buf[19] = 0x73;
    buf[20] = 0x74;
    buf[21] = 0x20;
    buf[22] = 0x44;
    buf[23] = 0x69;
    buf[24] = 0x73;
    buf[25] = 0x6B;
    buf[26] = 0x21;
    buf[27] = 0x0D;
    buf[28] = 0x0A;
    assert(buf@ =~= hello_data_sector_bytes());
    buf
}

/// Stateless example backend; all data is derived from static sectors.
pub struct ExampleBlockDevice;

/// Logical block addresses of the sectors that carry data.
pub open spec fn is_data_lba(lba: int) -> bool {
    lba == 0 || lba == 1 || lba == 257 || lba == 513 || lba == 545
}

/// Contents of sector `lba` of the synthetic disk.
pub open spec fn example_block(lba: int) -> Seq<u8> {
    if lba == 0 {
        boot_sector_bytes()
    } else if lba == 1 || lba == 257 {
        fat_sector_bytes()
    } else if lba == 513 {
        root_dir_sector_bytes()
    } else if lba == 545 {
        hello_data_sector_bytes()
    } else {
        Seq::new(512, |i: int| 0u8)
    }
}

/// Contents of the `len` bytes of the disk starting at sector `lba`.
pub open spec fn example_range(lba: int, len: nat) -> Seq<u8> {
    Seq::new(len, |j: int| example_block(lba + j / 512)[j % 512])
}

/// Little-endian 16-bit field at `off` of `s`.
pub open spec fn le16_at(s: Seq<u8>, off: int) -> int {
    s[off] + s[off + 1] * 256
}

/// Little-endian 32-bit field at `off` of `s`.
pub open spec fn le32_at(s: Seq<u8>, off: int) -> int {
    s[off] + s[off + 1] * 0x100 + s[off + 2] * 0x1_0000 + s[off + 3] * 0x100_0000
}

fn sector_for(lba: u32) -> (r: [u8; 512])
    ensures
        r@ == example_block(lba as int),
{
    if lba == 0 {
        build_boot_sector()
    } else if lba == 1 || lba == 257 {
        fat_sector()
    } else if lba == 513 {
        root_dir_sector()
    } else if lba == 545 {
        hello_data_sector()
    } else {
        let z = [0u8; 512];
        assert(z@ =~= example_block(lba as int));
        z
    }
}

impl ExampleBlockDevice {
    /// Reads one logical block into `buf`. Sectors that carry filesystem data
    /// need a 512-byte buffer; every other sector reads as zeros.
    pub fn read_block(&mut self, lba: u32, buf: &mut [u8]) -> (r: Result<(), ()>)
        requires
            is_data_lba(lba as int) ==> old(buf)@.len() == 512,
        ensures
            r is Ok,
            is_data_lba(lba as int) ==> final(buf)@ == example_block(lba as int),
            !is_data_lba(lba as int) ==> final(buf)@ == Seq::new(old(buf)@.len(), |i: int| 0u8),
    {
        if lba == 0 || lba == 1 || lba == 257 || lba == 513 || lba == 545 {
            let sector = sector_for(lba);
            let mut i: usize = 0;
            while i < 512
                invariant
                    buf@.len() == 512,
                    i <= 512,
                    forall|k: int| 0 <= k < i ==> buf@[k] == sector@[k],
                decreases 512 - i,
            {
                buf[i] = sector[i];
                i = i + 1;
            }
            assert(buf@ =~= example_block(lba as int));
        } else {
            let mut i: usize = 0;
            while i < buf.len()
                invariant
                    buf@.len() == old(buf)@.len(),
                    i <= buf@.len(),
                    forall|k: int| 0 <= k < i ==> buf@[k] == 0u8,
                decreases buf@.len() - i,
            {
                buf[i] = 0;
                i = i + 1;
            }
            assert(buf@ =~= Seq::new(old(buf)@.len(), |i: int| 0u8));
        }
        Ok(())
    }

    /// Whether sector `lba` carries filesystem data, so that `read_block`
    /// needs a 512-byte buffer for it.
    pub fn is_data_sector(lba: u32) -> (r: bool)
        ensures
            r == is_data_lba(lba as int),
    {
        lba == 0 || lba == 1 || lba == 257 || lba == 513 || lba == 545
    }

    /// Whether `read_blocks` can fill a `len`-byte buffer at `lba`: whole
    /// blocks only, within 32-bit block and byte counts.
    pub fn read_blocks_in_bounds(lba: u32, len: usize) -> (r: bool)
        ensures
            r == (len % 512 == 0 && len + 512 <= u32::MAX && lba + len / 512 <= u32::MAX + 1),
    {
        if len % 512 != 0 || len > (u32::MAX - 512) as usize {
            return false;
        }
        (len / 512) as u32 <= u32::MAX - lba || (len / 512) as u32 - (u32::MAX - lba) == 1
    }

    /// Reads the contiguous run of blocks that fills `buf`, starting at `lba`.
    pub fn read_blocks(&mut self, lba: u32, buf: &mut [u8]) -> (r: Result<(), ()>)
        requires
            old(buf)@.len() % 512 == 0,
            old(buf)@.len() + 512 <= u32::MAX,
            lba + old(buf)@.len() / 512 <= u32::MAX + 1,
        ensures
            r is Ok,
            final(buf)@ == example_range(lba as int, old(buf)@.len()),
    {
        let ghost len = buf@.len();
        let blocks_to_read = (buf.len() as u32 + BLOCK_SIZE - 1) / BLOCK_SIZE;
        assert(blocks_to_read == buf@.len() / 512);
        let mut b: u32 = 0;
        while b < blocks_to_read
            invariant
                blocks_to_read == old(buf)@.len() / 512,
                old(buf)@.len() % 512 == 0,
                old(buf)@.len() + 512 <= u32::MAX,
                lba + blocks_to_read <= u32::MAX + 1,
                buf@.len() == old(buf)@.len(),
                b <= blocks_to_read,
                forall|j: int| 0 <= j < b * 512 ==> buf@[j] == example_range(lba as int, old(buf)@.len())[j],
            decreases blocks_to_read - b,
        {
            let block_lba = lba + b;
            let ghost olen = old(buf)@.len();
            assert(b * 512 + 512 <= olen) by (nonlinear_arith)
                requires b < blocks_to_read, blocks_to_read == olen / 512, olen % 512 == 0;
            let sector = sector_for(block_lba);
            let base = (b * BLOCK_SIZE) as usize;
            let mut i: usize = 0;
            while i < 512
                invariant
                    blocks_to_read == old(buf)@.len() / 512,
                    old(buf)@.len() % 512 == 0,
                    b < blocks_to_read,
                    base == b * 512,
                    buf@.len() == old(buf)@.len(),
                    sector@ == example_block(block_lba as int),
                    block_lba == lba + b,
                    i <= 512,
                    forall|j: int| 0 <= j < b * 512 ==> buf@[j] == example_range(lba as int, old(buf)@.len())[j],
                    forall|k: int| 0 <= k < i ==> buf@[base + k] == sector@[k],
                decreases 512 - i,
            {
                buf[base + i] = sector[i];
                i = i + 1;
            }
            assert forall|j: int| 0 <= j < (b + 1) * 512 implies buf@[j] == example_range(lba as int, old(buf)@.len())[j] by {
                if j >= b * 512 {
                    let k = j - b * 512;
                    assert(buf@[base + k] == sector@[k]);
                    assert(j / 512 == b as int) by (nonlinear_arith)
                        requires j >= b * 512, j < (b + 1) * 512;
                    assert(j % 512 == k) by (nonlinear_arith)
                        requires j >= b * 512, j < (b + 1) * 512, k == j - b * 512;
                }
            }
            b = b + 1;
        }
        assert(buf@ =~= example_range(lba as int, old(buf)@.len()));
        Ok(())
    }

    /// The synthetic disk is read-only: writes are refused.
    pub fn write_block(&mut self, _lba: u32, _buf: &[u8]) -> (r: Result<(), ()>)
        ensures
            r is Err,
    {
        Err(())
    }
}

/// A multi-block read returns, block by block, what single-block reads of
/// the same sectors return.
pub proof fn lemma_example_range_blocks(lba: int, n: nat, i: int)
    requires
        0 <= i < n,
    ensures
        example_range(lba, n * 512).subrange(i * 512, i * 512 + 512) == example_block(lba + i),
{
    let r = example_range(lba, n * 512);
    assert(i * 512 + 512 <= n * 512) by (nonlinear_arith)
        requires 0 <= i < n;
    assert forall|k: int| 0 <= k < 512 implies #[trigger] r.subrange(i * 512, i * 512 + 512)[k]
        == example_block(lba + i)[k] by {
        assert((i * 512 + k) / 512 == i) by (nonlinear_arith)
            requires 0 <= k < 512, 0 <= i;
        assert((i * 512 + k) % 512 == k) by (nonlinear_arith)
            requires 0 <= k < 512, 0 <= i;
    }
    assert(r.subrange(i * 512, i * 512 + 512) =~= example_block(lba + i));
}

/// Once the cache window was filled from the synthetic disk at the window's
/// first LBA, every sector the window covers is served exactly as the disk
/// holds it.
pub proof fn lemma_cache_over_example(c: CachedData<ExampleBlockDevice>, lba: u32)
    requires
        c.window() == example_range(c.start() as int, CACHE_BYTES as nat),
        c.covers(lba),
    ensures
        c.cached_sector(lba) == example_block(lba as int),
{
    lemma_example_range_blocks(c.start() as int, CACHE_BLOCKS as nat, lba - c.start());
}

/// The sectors served by [`ExampleBlockDevice`] sit exactly where the FAT16
/// parameters of its boot sector place them: 512-byte sectors covering the
/// whole 256 MiB disk, FAT copies after the single reserved sector, the root
/// directory after both FATs, and `HELLO.TXT` (29 bytes, one cluster ending
/// its chain) at the first data cluster.
pub proof fn lemma_example_layout()
    ensures
        ({
            let boot = boot_sector_bytes();
            let reserved = le16_at(boot, 14);
            let fats = boot[16] as int;
            let per_fat = le16_at(boot, 22);
            let root_lba = reserved + fats * per_fat;
            let data_lba = root_lba + le16_at(boot, 17) * 32 / le16_at(boot, 11);
            let cluster = le16_at(root_dir_sector_bytes(), 0x1A);
            &&& le16_at(boot, 11) == BLOCK_SIZE
            &&& le32_at(boot, 32) == SECTOR_COUNT
            &&& boot[510] == 0x55 && boot[511] == 0xAA
            &&& example_block(reserved) == fat_sector_bytes()
            &&& example_block(reserved + per_fat) == fat_sector_bytes()
            &&& example_block(root_lba) == root_dir_sector_bytes()
            &&& example_block(data_lba + (cluster - 2) * boot[13] as int) == hello_data_sector_bytes()
            &&& fat_sector_bytes()[0] == boot[21]
            &&& le16_at(fat_sector_bytes(), cluster * 2) == 0xFFFF
            &&& le32_at(root_dir_sector_bytes(), 0x1C) == 29
            &&& forall|i: int| 29 <= i < 512 ==> hello_data_sector_bytes()[i] == 0
        }),
{
    let boot = boot_sector_bytes();
    assert(boot[11] == 0 && boot[12] == 2 && boot[14] == 1 && boot[15] == 0 && boot[16] == 2);
    assert(boot[17] == 0 && boot[18] == 2 && boot[22] == 0 && boot[23] == 1 && boot[13] == 0x10);
    assert(boot[32] == 0 && boot[33] == 0 && boot[34] == 8 && boot[35] == 0);
    let root = root_dir_sector_bytes();
    assert(root[0x1A] == 2 && root[0x1B] == 0 && root[0x1C] == 29 && root[0x1D] == 0);
    assert(root[0x1E] == 0 && root[0x1F] == 0);
    let fat = fat_sector_bytes();
    assert(fat[4] == 0xFF && fat[5] == 0xFF);
}

} // verus!
