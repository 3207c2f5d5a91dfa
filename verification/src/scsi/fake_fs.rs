//! FAT12 boot image (360 KiB floppy geometry) answered by the compact SCSI
//! responder, with one file `HELLO.TXT` in the first data cluster.

use vstd::prelude::*;
use crate::scsi::cmd::capacity_data;
use crate::wire::from_be32;

verus! {

/// Boot sector / BIOS parameter block of the synthetic disk.
pub open spec fn boot_sector_bytes() -> Seq<u8> {
    Seq::new(512, |i: int| boot_sector_bytes_at(i))
}

/// Byte `i` of [`boot_sector_bytes`].
pub open spec fn boot_sector_bytes_at(i: int) -> u8 {
    if i == 0 { 0xEB } else
    if i == 1 { 0x3C } else
    if i == 2 { 0x90 } else
    if i == 3 { 0x4D } else
    if i == 4 { 0x53 } else
    if i == 5 { 0x44 } else
    if i == 6 { 0x4F } else
    if i == 7 { 0x53 } else
    if i == 8 { 0x35 } else
    if i == 9 { 0x2E } else
    if i == 10 { 0x30 } else
    if i == 12 { 0x02 } else
    if i == 13 { 0x02 } else
    if i == 14 { 0x01 } else
    if i == 16 { 0x02 } else
    if i == 17 { 0x70 } else
    if i == 19 { 0xD0 } else
    if i == 20 { 0x02 } else
    if i == 21 { 0xFD } else
    if i == 22 { 0x02 } else
    if i == 38 { 0x29 } else
    if i == 43 { 0x52 } else
    if i == 44 { 0x55 } else
    if i == 45 { 0x53 } else
    if i == 46 { 0x54 } else
    if i == 47 { 0x20 } else
    if i == 48 { 0x44 } else
    if i == 49 { 0x49 } else
    if i == 50 { 0x53 } else
    if i == 51 { 0x4B } else
    if i == 52 { 0x20 } else
    if i == 53 { 0x20 } else
    if i == 54 { 0x46 } else
    if i == 55 { 0x41 } else
    if i == 56 { 0x54 } else
    if i == 57 { 0x31 } else
    if i == 58 { 0x32 } else
    if i == 59 { 0x20 } else
    if i == 60 { 0x20 } else
    if i == 61 { 0x20 } else
    if i == 510 { 0x55 } else
    if i == 511 { 0xAA } else
    { 0 }
}

/// First sector of each FAT copy.
pub open spec fn fat_sector_bytes() -> Seq<u8> {
    Seq::new(512, |i: int| fat_sector_bytes_at(i))
}

/// Byte `i` of [`fat_sector_bytes`].
pub open spec fn fat_sector_bytes_at(i: int) -> u8 {
    if i == 0 { 0xF0 } else
    if i == 1 { 0xFF } else
    if i == 2 { 0xFF } else
    if i == 3 { 0xFF } else
    if i == 4 { 0x0F } else
    { 0 }
}

/// Root directory sector holding the `HELLO.TXT` entry.
pub open spec fn root_dir_sector_bytes() -> Seq<u8> {
    Seq::new(512, |i: int| root_dir_sector_bytes_at(i))
}

/// Byte `i` of [`root_dir_sector_bytes`].
pub open spec fn root_dir_sector_bytes_at(i: int) -> u8 {
    if i == 0 { 0x48 } else
    if i == 1 { 0x45 } else
    if i == 2 { 0x4C } else
    if i == 3 { 0x4C } else
    if i == 4 { 0x4F } else
    if i == 5 { 0x20 } else
    if i == 6 { 0x20 } else
    if i == 7 { 0x20 } else
    if i == 8 { 0x54 } else
    if i == 9 { 0x58 } else
    if i == 10 { 0x54 } else
    if i == 11 { 0x20 } else
    if i == 26 { 0x02 } else
    if i == 28 { 0x1D } else
    { 0 }
}

/// Data sector of `HELLO.TXT`.
pub open spec fn hello_data_sector_bytes() -> Seq<u8> {
    Seq::new(512, |i: int| hello_data_sector_bytes_at(i))
}

/// Byte `i` of [`hello_data_sector_bytes`].
pub open spec fn hello_data_sector_bytes_at(i: int) -> u8 {
    if i == 0 { 0x48 } else
    if i == 1 { 0x65 } else
    if i == 2 { 0x6C } else
    if i == 3 { 0x6C } else
    if i == 4 { 0x6F } else
    if i == 5 { 0x20 } else
    if i == 6 { 0x66 } else
    if i == 7 { 0x72 } else
    if i == 8 { 0x6F } else
    if i == 9 { 0x6D } else
    if i == 10 { 0x20 } else
    if i == 11 { 0x52 } else
    if i == 12 { 0x75 } else
    if i == 13 { 0x73 } else
    if i == 14 { 0x74 } else
    if i == 15 { 0x20 } else
    if i == 16 { 0x62 } else
    if i == 17 { 0x61 } else
    if i == 18 { 0x72 } else
    if i == 19 { 0x65 } else
    if i == 20 { 0x2D } else
    if i == 21 { 0x6D } else
    if i == 22 { 0x65 } else
    if i == 23 { 0x74 } else
    if i == 24 { 0x61 } else
    if i == 25 { 0x6C } else
    if i == 26 { 0x21 } else
    if i == 27 { 0x0D } else
    if i == 28 { 0x0A } else
    { 0 }
}




/// Builds the boot sector / BIOS parameter block.
pub fn build_boot_sector() -> (r: [u8; 512])
    ensures
        r@ == boot_sector_bytes(),
{
    let mut buf = [0u8; 512];
    buf[0] = 0xEB;
    buf[1] = 0x3C;
    buf[2] = 0x90;
    buf[3] = 0x4D;
    buf[4] = 0x53;
    buf[5] = 0x44;
    buf[6] = 0x4F;
    buf[7] = 0x53;
    buf[8] = 0x35;
    buf[9] = 0x2E;
    buf[10] = 0x30;
    buf[11] = 0x00;
    buf[12] = 0x02;
    buf[13] = 0x02;
    buf[14] = 0x01;
    buf[15] = 0x00;
    buf[16] = 0x02;
    buf[17] = 0x70;
    buf[18] = 0x00;
    buf[19] = 0xD0;
    buf[20] = 0x02;
    buf[21] = 0xFD;
    buf[22] = 0x02;
    buf[23] = 0x00;
    buf[38] = 0x29;
    buf[43] = 0x52;
    buf[44] = 0x55;
    buf[45] = 0x53;
    buf[46] = 0x54;
    buf[47] = 0x20;
    buf[48] = 0x44;
    buf[49] = 0x49;
    buf[50] = 0x53;
    buf[51] = 0x4B;
    buf[52] = 0x20;
    buf[53] = 0x20;
    buf[54] = 0x46;
    buf[55] = 0x41;
    buf[56] = 0x54;
    buf[57] = 0x31;
    buf[58] = 0x32;
    buf[59] = 0x20;
    buf[60] = 0x20;
    buf[61] = 0x20;
    buf[510] = 0x55;
    buf[511] = 0xAA;
    assert(buf@ =~= boot_sector_bytes());
    buf
}

/// Builds the first sector of a FAT copy.
pub fn fat_sector() -> (r: [u8; 512])
    ensures
        r@ == fat_sector_bytes(),
{
    let mut buf = [0u8; 512];
    buf[0] = 0xF0;
    buf[1] = 0xFF;
    buf[2] = 0xFF;
    buf[3] = 0xFF;
    buf[4] = 0x0F;
    assert(buf@ =~= fat_sector_bytes());
    buf
}

/// Builds the root directory sector.
pub fn root_dir_sector() -> (r: [u8; 512])
    ensures
        r@ == root_dir_sector_bytes(),
{
    let mut buf = [0u8; 512];
    buf[0] = 0x48;
    buf[1] = 0x45;
    buf[2] = 0x4C;
    buf[3] = 0x4C;
    buf[4] = 0x4F;
    buf[5] = 0x20;
    buf[6] = 0x20;
    buf[7] = 0x20;
    buf[8] = 0x54;
    buf[9] = 0x58;
    buf[10] = 0x54;
    buf[11] = 0x20;
    buf[26] = 0x02;
    buf[27] = 0x00;
    buf[28] = 0x1D;
    assert(buf@ =~= root_dir_sector_bytes());
    buf
}

/// Builds the data sector of `HELLO.TXT`.
pub fn hello_data_sector() -> (r: [u8; 512])
    ensures
        r@ == hello_data_sector_bytes(),
{
    let mut buf = [0u8; 512];
    buf[0] = 0x48;
    buf[1] = 0x65;
    buf[2] = 0x6C;
    buf[3] = 0x6C;
    buf[4] = 0x6F;
    buf[5] = 0x20;
    buf[6] = 0x66;
    buf[7] = 0x72;
    buf[8] = 0x6F;
    buf[9] = 0x6D;
    buf[10] = 0x20;
    buf[11] = 0x52;
    buf[12] = 0x75;
    buf[13] = 0x73;
    buf[14] = 0x74;
    buf[15] = 0x20;
    buf[16] = 0x62;
    buf[17] = 0x61;
    buf[18] = 0x72;
    buf[19] = 0x65;
    buf[20] = 0x2D;
    buf[21] = 0x6D;
    buf[22] = 0x65;
    buf[23] = 0x74;
    buf[24] = 0x61;
    buf[25] = 0x6C;
    buf[26] = 0x21;
    buf[27] = 0x0D;
    buf[28] = 0x0A;
    assert(buf@ =~= hello_data_sector_bytes());
    buf
}

/// Little-endian 16-bit field at `off` of `s`.
pub open spec fn le16_at(s: Seq<u8>, off: int) -> int {
    s[off] + s[off + 1] * 256
}

/// The capacity reported by READ CAPACITY(10) (last LBA + 1, block length)
/// matches the geometry of the FAT12 boot sector: 720 sectors of 512 bytes.
pub proof fn lemma_capacity_matches_boot_sector()
    ensures
        from_be32(capacity_data()[0], capacity_data()[1], capacity_data()[2], capacity_data()[3]) + 1
            == le16_at(boot_sector_bytes(), 19),
        from_be32(capacity_data()[4], capacity_data()[5], capacity_data()[6], capacity_data()[7])
            == le16_at(boot_sector_bytes(), 11),
        boot_sector_bytes()[510] == 0x55 && boot_sector_bytes()[511] == 0xAA,
{
    let boot = boot_sector_bytes();
    assert(boot[19] == 0xD0 && boot[20] == 0x02 && boot[11] == 0 && boot[12] == 2);
}

} // verus!
