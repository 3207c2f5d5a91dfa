use hasm_openbmc::firmware::bmc::{bmc_power_signal, route_bmc_request};
use hasm_openbmc::firmware::usb_msc::{
    begin_command, cbw_command_ok, handle_scsi_command, MscTransfer, VIRTUAL_SECTOR_COUNT,
};
use hasm_openbmc::services::web_server::is_reset_post;
use hasm_openbmc::services::web_server::HttpReply;

fn cbw_packet(tag: u32, dtl: u32, flags: u8, cmd: &[u8]) -> [u8; 31] {
    let mut b = [0u8; 31];
    b[0..4].copy_from_slice(&0x4342_5355u32.to_le_bytes());
    b[4..8].copy_from_slice(&tag.to_le_bytes());
    b[8..12].copy_from_slice(&dtl.to_le_bytes());
    b[12] = flags;
    b[14] = cmd.len() as u8;
    b[15..15 + cmd.len()].copy_from_slice(cmd);
    b
}

fn run(t: &mut MscTransfer, fail_at: Option<usize>) -> Vec<Vec<u8>> {
    let mut sent = Vec::new();
    let mut k = 0;
    while let Some(c) = t.next_chunk() {
        let ok = Some(k) != fail_at;
        if ok {
            sent.push(c);
        }
        t.on_chunk_written(ok);
        k += 1;
    }
    sent
}

#[test]
fn blank_disk_inquiry() {
    let mut buf = [0u8; 64];
    let (status, residue, len) = handle_scsi_command(&[0x12, 0, 0, 0, 36, 0], &mut buf);
    assert_eq!((status, residue, len), (0, 0, 36));
    assert_eq!(&buf[0..8], &[0x00, 0x80, 0x02, 0x02, 31, 0, 0, 0]);
    assert_eq!(&buf[8..16], b"MyBMC   ");
    assert_eq!(&buf[16..32], b"STM32 VirtualUSB");
    assert_eq!(&buf[32..36], b"1.00");
    assert_eq!(&buf[36..], &[0u8; 28]);
}

#[test]
fn blank_disk_short_buffer_reports_residue() {
    let mut buf = [0u8; 10];
    let (status, residue, len) = handle_scsi_command(&[0x12, 0, 0, 0, 36, 0], &mut buf);
    assert_eq!((status, residue, len), (0, 26, 10));
    assert_eq!(&buf[8..10], b"My");
}

#[test]
fn blank_disk_capacity_and_formats() {
    let mut buf = [0u8; 16];
    assert_eq!(handle_scsi_command(&[0x25, 0, 0, 0, 0, 0, 0, 0, 0, 0], &mut buf), (0, 0, 8));
    assert_eq!(&buf[0..8], &[0x00, 0x00, 0x1F, 0xFF, 0x00, 0x00, 0x02, 0x00]);
    assert_eq!(VIRTUAL_SECTOR_COUNT, 8192);
    let mut buf = [0u8; 16];
    assert_eq!(handle_scsi_command(&[0x23, 0, 0, 0, 0, 0, 0, 0, 12, 0], &mut buf), (0, 0, 12));
    assert_eq!(&buf[0..12], &[0, 0, 0, 8, 0x00, 0x00, 0x20, 0x00, 0x02, 0x00, 0x02, 0x00]);
    let mut buf = [0xEEu8; 8];
    assert_eq!(handle_scsi_command(&[0x1A, 0, 0x3F, 0, 4, 0], &mut buf), (0, 0, 4));
    assert_eq!(buf, [0x03, 0x00, 0x00, 0x00, 0xEE, 0xEE, 0xEE, 0xEE]);
    let mut buf = [0u8; 18];
    assert_eq!(handle_scsi_command(&[0x03, 0, 0, 0, 18, 0], &mut buf), (0, 0, 18));
    assert_eq!(buf[0], 0x70);
    assert_eq!(buf[7], 10);
}

#[test]
fn blank_disk_read10_and_unknown_commands() {
    let mut buf = [7u8; 4];
    assert_eq!(handle_scsi_command(&[0x28, 0, 0, 0, 0, 5, 0, 0, 3, 0], &mut buf), (0, 0, 1536));
    assert_eq!(buf, [7u8; 4]);
    assert_eq!(handle_scsi_command(&[0x00, 0, 0, 0, 0, 0], &mut buf), (0, 0, 0));
    assert_eq!(handle_scsi_command(&[0x2A, 0, 0, 0, 0, 0, 0, 0, 1, 0], &mut buf), (1, 0, 0));
    assert_eq!(handle_scsi_command(&[], &mut buf), (1, 0, 0));
}

#[test]
fn short_or_unsigned_cbw_is_dropped() {
    let mut buf = [0u8; 64];
    let p = cbw_packet(1, 36, 0x80, &[0x12, 0, 0, 0, 36, 0]);
    assert!(begin_command(&p, 30, &mut buf).is_none());
    let mut bad = p;
    bad[0] = 0;
    assert!(begin_command(&bad, 31, &mut buf).is_none());
    assert_eq!(buf, [0u8; 64]);
}

#[test]
fn inquiry_transfer_sends_response_then_csw() {
    let mut buf = [0u8; 4096];
    let p = cbw_packet(0x1122_3344, 36, 0x80, &[0x12, 0, 0, 0, 36, 0]);
    let mut t = begin_command(&p, 31, &mut buf).unwrap();
    let sent = run(&mut t, None);
    assert_eq!(sent.len(), 1);
    assert_eq!(&sent[0][..], &buf[0..36]);
    assert_eq!(
        t.csw(),
        [0x55, 0x53, 0x42, 0x53, 0x44, 0x33, 0x22, 0x11, 0, 0, 0, 0, 0]
    );
}

#[test]
fn host_asking_for_more_gets_residue() {
    let mut buf = [0u8; 4096];
    let p = cbw_packet(9, 255, 0x80, &[0x12, 0, 0, 0, 255, 0]);
    let mut t = begin_command(&p, 31, &mut buf).unwrap();
    let sent = run(&mut t, None);
    assert_eq!(sent.concat().len(), 36);
    assert_eq!(t.residue, 219);
    assert_eq!(&t.csw()[8..12], &219u32.to_le_bytes());
}

#[test]
fn read10_is_served_as_zero_chunks() {
    let mut buf = [0xABu8; 4096];
    let p = cbw_packet(2, 1024, 0x80, &[0x28, 0, 0, 0, 0, 0, 0, 0, 2, 0]);
    let mut t = begin_command(&p, 31, &mut buf).unwrap();
    let sent = run(&mut t, None);
    assert_eq!(sent.len(), 16);
    assert!(sent.iter().all(|c| c.len() == 64 && c.iter().all(|&b| b == 0)));
    assert_eq!(t.residue, 0);
    assert_eq!(t.csw()[12], 0);
}

#[test]
fn failed_chunk_reports_unsent_bytes() {
    let mut buf = [0u8; 4096];
    let p = cbw_packet(3, 1024, 0x80, &[0x28, 0, 0, 0, 0, 0, 0, 0, 2, 0]);
    let mut t = begin_command(&p, 31, &mut buf).unwrap();
    let sent = run(&mut t, Some(3));
    assert_eq!(sent.len(), 3);
    assert!(t.failed);
    assert_eq!(t.residue, 1024 - 192);
}

#[test]
fn host_to_device_data_is_skipped() {
    let mut buf = [0u8; 4096];
    let p = cbw_packet(4, 512, 0x00, &[0x2A, 0, 0, 0, 0, 0, 0, 0, 1, 0]);
    let mut t = begin_command(&p, 31, &mut buf).unwrap();
    assert!(t.next_chunk().is_none());
    assert_eq!(t.residue, 512);
    assert_eq!(t.csw()[12], 1);
}

#[test]
fn bmc_routes_power_requests() {
    let on = b"POST /redfish/v1/Systems/1/Actions/ComputerSystem.Reset HTTP/1.1\r\n\r\n{\"ResetType\":\"On\"}";
    let r = route_bmc_request(on);
    assert_eq!(r, HttpReply::PowerOn);
    assert_eq!(bmc_power_signal(&r), Some(true));
    let off = b"POST /redfish/v1/Systems/1/Actions/ComputerSystem.Reset HTTP/1.1\r\n\r\n{\"ResetType\":\"ForceOff\"}";
    let r = route_bmc_request(off);
    assert_eq!(r, HttpReply::ForceOff);
    assert_eq!(bmc_power_signal(&r), Some(false));
    let restart = b"POST /redfish/v1/Systems/1/Actions/ComputerSystem.Reset HTTP/1.1\r\n\r\n{\"ResetType\":\"ForceRestart\"}";
    assert_eq!(route_bmc_request(restart), HttpReply::NotFound);
    assert_eq!(bmc_power_signal(&HttpReply::NotFound), None);
}

#[test]
fn bmc_graceful_shutdown_is_a_power_off() {
    let req = b"POST /redfish/v1/Systems/1/Actions/ComputerSystem.Reset HTTP/1.1\r\n\r\n{\"ResetType\":\"GracefulShutdown\"}";
    let r = route_bmc_request(req);
    assert_eq!(r, HttpReply::ForceOff);
    assert_eq!(bmc_power_signal(&r), Some(false));
    let wrong_path = b"POST /redfish/v1/Systems/1 HTTP/1.1\r\n\r\n{\"ResetType\":\"GracefulShutdown\"}";
    assert_eq!(route_bmc_request(wrong_path), HttpReply::NotFound);
    assert!(is_reset_post(req));
    assert!(!is_reset_post(wrong_path));
}

#[test]
fn blank_disk_cbw_check() {
    let ok = cbw_packet(1, 512, 0x80, &[0x28, 0, 0, 0, 0, 0, 0, 0, 1, 0]);
    assert!(cbw_command_ok(&ok, 31));
    let short = cbw_packet(1, 512, 0x80, &[0x28, 0, 0, 0]);
    assert!(!cbw_command_ok(&short, 31));
    assert!(cbw_command_ok(&short, 20));
}

#[test]
fn bmc_reports_power_on_system() {
    assert_eq!(route_bmc_request(b"GET /redfish/v1/Systems/1 HTTP/1.1\r\n\r\n"), HttpReply::SystemInfo(true));
    assert_eq!(route_bmc_request(b"GET /ping HTTP/1.1\r\n\r\n"), HttpReply::Pong);
}
