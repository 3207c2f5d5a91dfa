use hasm_openbmc::drivers::usb_msc::device::{
    cbw_read_result, BulkInAction, BulkInWrite, ControlRequest, EndpointError, MscHandler,
    OutResponse, Recipient, RequestType, BULK_ONLY_RESET, GET_MAX_LUN,
};
use hasm_openbmc::drivers::usb_msc::scsi::cmd::{
    inquiry, mode_sense_6, read_capacity_10, read_format_capacities, request_sense,
};
use hasm_openbmc::drivers::usb_msc::scsi::consts::{ScsiStatus, CSW_SIGNATURE};
use hasm_openbmc::drivers::usb_msc::scsi::{
    command_in_range, handle_scsi_cmd, ScsiAction, ScsiCommand, ScsiEvent, ScsiPhase, ScsiResponse,
};
use hasm_openbmc::drivers::usb_msc::command_loop::{MscLoop, MscStep};
use hasm_openbmc::drivers::usb_msc::transport::{Cbw, Csw};

fn cbw_packet(tag: u32, dtl: u32, flags: u8, cmd: &[u8]) -> [u8; 31] {
    let mut b = [0u8; 31];
    b[0..4].copy_from_slice(&0x4342_5355u32.to_le_bytes());
    b[4..8].copy_from_slice(&tag.to_le_bytes());
    b[8..12].copy_from_slice(&dtl.to_le_bytes());
    b[12] = flags;
    b[14] = cmd.len() as u8;
    b[15..15 + cmd.len()].copy_from_slice(cmd);
    b
}

#[test]
fn cbw_fields_are_decoded_little_endian() {
    let p = cbw_packet(0xDEAD_BEEF, 512, 0x80, &[0x28, 0, 0, 0, 0, 7, 0, 0, 1, 0]);
    let c = Cbw::from_bytes(&p);
    assert_eq!(c.signature, 0x4342_5355);
    assert_eq!(c.tag, 0xDEAD_BEEF);
    assert_eq!(c.dtl, 512);
    assert_eq!(c.flags, 0x80);
    assert_eq!(c.cb_len, 10);
    assert_eq!(&c.cmd[..10], &[0x28, 0, 0, 0, 0, 7, 0, 0, 1, 0]);
    assert_eq!(&c.cmd[10..], &[0u8; 6]);
}

#[test]
fn cbw_command_length_is_clamped_to_sixteen() {
    let mut p = cbw_packet(1, 0, 0, &[0x12; 16]);
    p[14] = 0xFF;
    let c = Cbw::from_bytes(&p);
    assert_eq!(c.cb_len, 16);
    assert_eq!(c.cmd, [0x12; 16]);
}

#[test]
fn csw_wire_format() {
    let csw = Csw::new(0x0102_0304, 7, 1);
    assert_eq!(csw.signature, CSW_SIGNATURE);
    assert_eq!(
        csw.to_bytes(),
        [0x55, 0x53, 0x42, 0x53, 0x04, 0x03, 0x02, 0x01, 7, 0, 0, 0, 1]
    );
}

#[test]
fn csw_roundtrip_reads_back_fields() {
    let b = Csw::new(0xCAFE_F00D, 0x10_0000, 0).to_bytes();
    assert_eq!(u32::from_le_bytes([b[0], b[1], b[2], b[3]]), CSW_SIGNATURE);
    assert_eq!(u32::from_le_bytes([b[4], b[5], b[6], b[7]]), 0xCAFE_F00D);
    assert_eq!(u32::from_le_bytes([b[8], b[9], b[10], b[11]]), 0x10_0000);
    assert_eq!(b[12], 0);
}

#[test]
fn scsi_payloads() {
    let s = request_sense();
    assert_eq!(s[0], 0x70);
    assert_eq!(s[7], 10);
    assert_eq!(s.iter().filter(|&&b| b != 0).count(), 2);
    let q = inquiry();
    assert_eq!(&q[0..8], &[0x00, 0x80, 0x02, 0x02, 31, 0, 0, 0]);
    assert_eq!(&q[8..16], b"RustBMC ");
    assert_eq!(&q[16..32], b"STM32 VirtualUSB");
    assert_eq!(&q[32..36], b"1.0 ");
    assert_eq!(mode_sense_6(), [0x03, 0x00, 0x80, 0x00]);
    assert_eq!(
        read_format_capacities(),
        [0, 0, 0, 8, 0x00, 0x08, 0x00, 0x00, 0x02, 0x00, 0x02, 0x00]
    );
    assert_eq!(read_capacity_10(), [0x00, 0x07, 0xFF, 0xFF, 0x00, 0x00, 0x02, 0x00]);
}

#[test]
fn scsi_status_codes() {
    assert_eq!(ScsiStatus::ScsiSuccess.code(), 0);
    assert_eq!(ScsiStatus::ScsiFail.code(), 1);
    let ok = ScsiResponse::success();
    assert_eq!(ok.status.code(), 0);
    assert_eq!(ok.residue, 0);
    let bad = ScsiResponse::fail(9);
    assert_eq!(bad.status.code(), 1);
    assert_eq!(bad.residue, 9);
}

#[test]
fn test_unit_ready_completes_at_once() {
    let c = Cbw::from_bytes(&cbw_packet(1, 0, 0, &[0x00; 6]));
    let (s, a) = handle_scsi_cmd(&c);
    assert_eq!(s.phase, ScsiPhase::Finished);
    match a {
        ScsiAction::Complete(r) => {
            assert_eq!(r.status.code(), 0);
            assert_eq!(r.residue, 0);
        }
        _ => panic!("expected completion"),
    }
}

#[test]
fn inquiry_sends_its_payload_then_succeeds() {
    let c = Cbw::from_bytes(&cbw_packet(2, 36, 0x80, &[0x12, 0, 0, 0, 36, 0]));
    let (s, a) = handle_scsi_cmd(&c);
    match a {
        ScsiAction::SendData(v) => assert_eq!(v, inquiry().to_vec()),
        _ => panic!("expected data"),
    }
    let (s, a) = s.on_event(ScsiEvent::Sent(Ok(())));
    assert_eq!(s.phase, ScsiPhase::Finished);
    assert!(matches!(a, ScsiAction::Complete(r) if r.status.code() == 0 && r.residue == 0));
}

#[test]
fn unknown_command_fails() {
    let c = Cbw::from_bytes(&cbw_packet(3, 0, 0, &[0x2A, 0, 0, 0, 0, 0, 0, 0, 1, 0]));
    let (_, a) = handle_scsi_cmd(&c);
    assert!(matches!(a, ScsiAction::Complete(r) if r.status.code() == 1 && r.residue == 0));
}

fn drive_read(mut s: ScsiCommand, mut a: ScsiAction) -> (Vec<u32>, Vec<usize>, ScsiResponse) {
    let mut lbas = Vec::new();
    let mut lens = Vec::new();
    loop {
        match a {
            ScsiAction::ReadBlock(lba) => {
                lbas.push(lba);
                let r = s.on_event(ScsiEvent::BlockRead(Ok(())));
                s = r.0;
                a = r.1;
            }
            ScsiAction::SendSector(len) => {
                lens.push(len);
                let r = s.on_event(ScsiEvent::Sent(Ok(())));
                s = r.0;
                a = r.1;
            }
            ScsiAction::Complete(resp) => return (lbas, lens, resp),
            ScsiAction::SendData(_) => panic!("unexpected payload"),
        }
    }
}

#[test]
fn read10_reads_each_block_in_order() {
    let c = Cbw::from_bytes(&cbw_packet(4, 1024, 0x80, &[0x28, 0, 0, 0, 0, 10, 0, 0, 2, 0]));
    let (s, a) = handle_scsi_cmd(&c);
    let (lbas, lens, resp) = drive_read(s, a);
    assert_eq!(lbas, vec![10, 11]);
    assert_eq!(lens, vec![512, 512]);
    assert_eq!(resp.status.code(), 0);
    assert_eq!(resp.residue, 0);
}

#[test]
fn read10_shorter_than_transfer_length_reports_residue() {
    let c = Cbw::from_bytes(&cbw_packet(8, 2048, 0x80, &[0x28, 0, 0, 0, 0, 0, 0, 0, 2, 0]));
    let (s, a) = handle_scsi_cmd(&c);
    let (lbas, lens, resp) = drive_read(s, a);
    assert_eq!(lbas, vec![0, 1]);
    assert_eq!(lens, vec![512, 512]);
    assert_eq!(resp.status.code(), 0);
    assert_eq!(resp.residue, 1024);
}

#[test]
fn read10_failure_after_a_sector_reports_the_rest() {
    let c = Cbw::from_bytes(&cbw_packet(9, 1024, 0x80, &[0x28, 0, 0, 0, 0, 0, 0, 0, 2, 0]));
    let (s, _) = handle_scsi_cmd(&c);
    let (s, a) = s.on_event(ScsiEvent::BlockRead(Ok(())));
    assert!(matches!(a, ScsiAction::SendSector(512)));
    let (s, a) = s.on_event(ScsiEvent::Sent(Ok(())));
    assert!(matches!(a, ScsiAction::ReadBlock(1)));
    let (_, a) = s.on_event(ScsiEvent::BlockRead(Err(())));
    assert!(matches!(a, ScsiAction::Complete(r) if r.status.code() == 1 && r.residue == 512));
}

#[test]
fn read10_stops_at_the_transfer_length() {
    let c = Cbw::from_bytes(&cbw_packet(5, 700, 0x80, &[0x28, 0, 0, 0, 0, 0, 0, 0, 3, 0]));
    let (s, a) = handle_scsi_cmd(&c);
    let (lbas, lens, resp) = drive_read(s, a);
    assert_eq!(lbas, vec![0, 1]);
    assert_eq!(lens, vec![512, 188]);
    assert_eq!(resp.status.code(), 0);
    assert_eq!(resp.residue, 0);
}

#[test]
fn read10_past_the_disk_fails_with_full_residue() {
    let lba: u32 = 256 * 1024 * 2;
    let b = lba.to_be_bytes();
    let c = Cbw::from_bytes(&cbw_packet(6, 512, 0x80, &[0x28, 0, b[0], b[1], b[2], b[3], 0, 0, 1, 0]));
    assert!(command_in_range(&c));
    let far = Cbw::from_bytes(&cbw_packet(6, 512, 0x80, &[0x28, 0, 0xFF, 0xFF, 0xFF, 0xFF, 0, 0, 1, 0]));
    assert!(!command_in_range(&far));
    let (s, a) = handle_scsi_cmd(&c);
    assert_eq!(s.phase, ScsiPhase::Finished);
    assert!(matches!(a, ScsiAction::Complete(r) if r.status.code() == 1 && r.residue == 512));
}

#[test]
fn read10_block_error_reports_whole_length() {
    let c = Cbw::from_bytes(&cbw_packet(7, 1024, 0x80, &[0x28, 0, 0, 0, 0, 0, 0, 0, 2, 0]));
    let (s, a) = handle_scsi_cmd(&c);
    assert!(matches!(a, ScsiAction::ReadBlock(0)));
    let (_, a) = s.on_event(ScsiEvent::BlockRead(Err(())));
    assert!(matches!(a, ScsiAction::Complete(r) if r.status.code() == 1 && r.residue == 1024));
}

fn run_loop(packet: &[u8; 31]) -> (Vec<String>, [u8; 13]) {
    let (mut lp, step) = MscLoop::new();
    assert!(matches!(step, MscStep::ReadCbw));
    assert!(MscLoop::cbw_in_range(packet));
    let mut step = lp.on_cbw(Ok(()), packet);
    let mut trace = Vec::new();
    loop {
        step = match step {
            MscStep::SendData(d) => {
                trace.push(format!("data {}", d.len()));
                lp.on_scsi_event(ScsiEvent::Sent(Ok(())))
            }
            MscStep::ReadBlock(lba) => {
                trace.push(format!("read {}", lba));
                lp.on_scsi_event(ScsiEvent::BlockRead(Ok(())))
            }
            MscStep::SendSector(n) => {
                trace.push(format!("sector {}", n));
                lp.on_scsi_event(ScsiEvent::Sent(Ok(())))
            }
            MscStep::SendCsw(b) => {
                assert!(matches!(lp.on_csw_sent(), MscStep::ReadCbw));
                return (trace, b);
            }
            MscStep::ReadCbw => panic!("CBW read before the CSW"),
        };
    }
}

#[test]
fn command_loop_sends_one_csw_after_the_data() {
    let (trace, csw) = run_loop(&cbw_packet(0x0A0B_0C0D, 36, 0x80, &[0x12, 0, 0, 0, 36, 0]));
    assert_eq!(trace, vec!["data 36".to_string()]);
    assert_eq!(csw, [0x55, 0x53, 0x42, 0x53, 0x0D, 0x0C, 0x0B, 0x0A, 0, 0, 0, 0, 0]);
    let (trace, csw) = run_loop(&cbw_packet(7, 2048, 0x80, &[0x28, 0, 0, 0, 0, 3, 0, 0, 2, 0]));
    assert_eq!(trace, vec!["read 3", "sector 512", "read 4", "sector 512"]);
    assert_eq!(&csw[4..8], &7u32.to_le_bytes());
    assert_eq!(&csw[8..12], &1024u32.to_le_bytes());
    assert_eq!(csw[12], 0);
    let (trace, csw) = run_loop(&cbw_packet(8, 0, 0, &[0x00; 6]));
    assert!(trace.is_empty());
    assert_eq!(csw[12], 0);
}

#[test]
fn command_loop_failed_read_sends_no_csw() {
    let (mut lp, _) = MscLoop::new();
    let p = cbw_packet(1, 0, 0, &[0x00; 6]);
    assert!(matches!(lp.on_cbw(Err(EndpointError::Disabled), &p), MscStep::ReadCbw));
    assert!(matches!(lp.on_cbw(Ok(()), &p), MscStep::SendCsw(_)));
}

#[test]
fn get_max_lun_recognised() {
    let h = MscHandler { iface_num: 0 };
    assert!(h.is_get_max_lun(class_req(GET_MAX_LUN, 0)));
    assert!(!h.is_get_max_lun(class_req(BULK_ONLY_RESET, 0)));
}

#[test]
fn cbw_read_outcomes() {
    assert_eq!(cbw_read_result(Some(Ok(31))), Ok(()));
    assert_eq!(cbw_read_result(Some(Ok(30))), Err(EndpointError::Disabled));
    assert_eq!(cbw_read_result(None), Err(EndpointError::Disabled));
    assert_eq!(
        cbw_read_result(Some(Err(EndpointError::BufferOverflow))),
        Err(EndpointError::BufferOverflow)
    );
}

#[test]
fn bulk_in_write_is_chunked_by_64() {
    let (mut w, mut a) = BulkInWrite::start(150, true);
    let mut chunks = Vec::new();
    while let BulkInAction::SendChunk { start, end } = a {
        chunks.push((start, end));
        a = w.on_chunk(start, end, Ok(()));
    }
    assert_eq!(chunks, vec![(0, 64), (64, 128), (128, 150)]);
    assert!(matches!(a, BulkInAction::Done(Ok(()))));
}

#[test]
fn bulk_in_write_error_reports_residue() {
    let (mut w, a) = BulkInWrite::start(150, true);
    let (s, e) = match a {
        BulkInAction::SendChunk { start, end } => (start, end),
        _ => panic!(),
    };
    let a = w.on_chunk(s, e, Ok(()));
    let (s, e) = match a {
        BulkInAction::SendChunk { start, end } => (start, end),
        _ => panic!(),
    };
    let a = w.on_chunk(s, e, Err(EndpointError::BufferOverflow));
    match a {
        BulkInAction::Done(Err(err)) => {
            assert_eq!(err.residue, 86);
            assert_eq!(err.usb_error, EndpointError::BufferOverflow);
        }
        _ => panic!(),
    }
    let (_, a) = BulkInWrite::start(20, false);
    assert!(matches!(a, BulkInAction::Done(Err(e)) if e.residue == 20));
}

fn class_req(request: u8, index: u16) -> ControlRequest {
    ControlRequest {
        request_type: RequestType::Class,
        recipient: Recipient::Interface,
        request,
        value: 0,
        index,
        length: 1,
    }
}

#[test]
fn get_max_lun_reports_single_lun() {
    let mut h = MscHandler { iface_num: 0 };
    let mut buf = [0xFFu8; 4];
    assert_eq!(h.control_in(class_req(GET_MAX_LUN, 0), &mut buf), Some(1));
    assert_eq!(buf, [0, 0xFF, 0xFF, 0xFF]);
    let mut buf = [0xFFu8; 4];
    assert_eq!(h.control_in(class_req(GET_MAX_LUN, 1), &mut buf), None);
    assert_eq!(buf, [0xFF; 4]);
}

#[test]
fn bulk_only_reset_is_accepted() {
    let mut h = MscHandler { iface_num: 0 };
    assert_eq!(h.control_out(class_req(BULK_ONLY_RESET, 0), &[]), Some(OutResponse::Accepted));
    assert_eq!(h.control_out(class_req(0x01, 0), &[]), None);
}
