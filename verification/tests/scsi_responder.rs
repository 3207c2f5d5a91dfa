use hasm_openbmc::scsi::consts::{ScsiStatus, DISK_SIZE, SECTOR_COUNT};
use hasm_openbmc::scsi::fake_fs::{build_boot_sector, hello_data_sector};
use hasm_openbmc::scsi::handle_scsi_cmd;

#[test]
fn responder_answers_inquiry_into_buffer() {
    let mut buf = [0u8; 64];
    let r = handle_scsi_cmd(&[0x12, 0, 0, 0, 36, 0], &mut buf);
    assert_eq!(r.status.code(), 0);
    assert_eq!((r.residue, r.resp_len), (0, 36));
    assert_eq!(&buf[8..16], b"RustBMC ");
    assert_eq!(&buf[16..32], b"STM32 VirtualUSB");
}

#[test]
fn responder_truncates_to_buffer() {
    let mut buf = [0u8; 4];
    let r = handle_scsi_cmd(&[0x03, 0, 0, 0, 18, 0], &mut buf);
    assert_eq!((r.residue, r.resp_len), (14, 4));
    assert_eq!(buf, [0x70, 0, 0, 0]);
}

#[test]
fn responder_capacity_and_mode_sense() {
    let mut buf = [0u8; 16];
    let r = handle_scsi_cmd(&[0x25, 0, 0, 0, 0, 0, 0, 0, 0, 0], &mut buf);
    assert_eq!(r.resp_len, 8);
    assert_eq!(&buf[0..8], &[0x00, 0x00, 0x02, 0xCF, 0x00, 0x00, 0x02, 0x00]);
    let r = handle_scsi_cmd(&[0x1A, 0, 0x3F, 0, 4, 0], &mut buf);
    assert_eq!(r.resp_len, 4);
    assert_eq!(&buf[0..4], &[0x03, 0x00, 0x80, 0x00]);
    assert_eq!(SECTOR_COUNT, 64);
    assert_eq!(DISK_SIZE, 32768);
}

#[test]
fn responder_read10_checks_disk_bounds() {
    let mut buf = [0u8; 8];
    let r = handle_scsi_cmd(&[0x28, 0, 0, 0, 0, 0, 0, 0, 64, 0], &mut buf);
    assert_eq!(r.status.code(), 0);
    assert_eq!(r.resp_len, 32768);
    let r = handle_scsi_cmd(&[0x28, 0, 0, 0, 0, 1, 0, 0, 64, 0], &mut buf);
    assert_eq!(r.status.code(), 1);
    assert_eq!(r.resp_len, 0);
}

#[test]
fn responder_rejects_unknown_and_empty() {
    let mut buf = [0u8; 8];
    let r = handle_scsi_cmd(&[0x2A, 0, 0, 0, 0, 0, 0, 0, 1, 0], &mut buf);
    assert!(matches!(r.status, ScsiStatus::ScsiFail));
    let r = handle_scsi_cmd(&[], &mut buf);
    assert!(matches!(r.status, ScsiStatus::ScsiFail));
    let r = handle_scsi_cmd(&[0x00, 0, 0, 0, 0, 0], &mut buf);
    assert!(matches!(r.status, ScsiStatus::ScsiSuccess));
    assert_eq!(r.resp_len, 0);
}

#[test]
fn fake_fat12_image() {
    let boot = build_boot_sector();
    assert_eq!(&boot[510..512], &[0x55, 0xAA]);
    assert_eq!(u16::from_le_bytes([boot[11], boot[12]]), 512);
    assert_eq!(u16::from_le_bytes([boot[19], boot[20]]), 720);
    let hello = hello_data_sector();
    assert!(hello.iter().any(|&b| b != 0));
}
