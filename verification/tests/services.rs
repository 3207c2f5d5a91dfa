use hasm_openbmc::drivers::led::{led_level, Level, LedTracker};
use hasm_openbmc::services::console::normalize_console_input;
use hasm_openbmc::services::power_control::{
    is_power_on, power_off_pulse, power_on_pulse, power_task_step, request_power_action,
    set_power_state, PowerAction, PowerController, PowerPulse, PowerState,
};
use hasm_openbmc::services::vnc_server::{
    clamp_update_request, encode_row, generate_gradient_pixel, pixel_size, server_init_message,
    update_header, Rect, VncAction, VncPhase, VncSession,
};
use hasm_openbmc::services::web_server::{
    route_http_request, send_response, HttpReply, HttpRequestBuffer, ROOT_RESOURCE,
    SYSTEM_RESOURCE,
};
use hasm_openbmc::utils::{SYSTEM_INFO_OFF, SYSTEM_INFO_ON};

const RESET: &[u8] = b"POST /redfish/v1/Systems/1/Actions/ComputerSystem.Reset HTTP/1.1\r\nHost: bmc\r\n\r\n";

fn reset_with(body: &str) -> Vec<u8> {
    let mut v = RESET.to_vec();
    v.extend_from_slice(body.as_bytes());
    v
}

#[test]
fn routes_read_only_endpoints() {
    assert_eq!(route_http_request(b"GET /ping HTTP/1.1\r\n\r\n", true), HttpReply::Pong);
    assert_eq!(route_http_request(b"GET /redfish/v1 HTTP/1.1\r\n\r\n", true), HttpReply::ServiceRoot);
    assert_eq!(
        route_http_request(b"GET  /redfish/v1/Systems   HTTP/1.1\r\n\r\n", true),
        HttpReply::SystemsCollection
    );
    assert_eq!(
        route_http_request(b"GET /redfish/v1/Systems/1 HTTP/1.1\r\n\r\n", false),
        HttpReply::SystemInfo(false)
    );
    assert_eq!(route_http_request(b"GET /redfish/v1/ HTTP/1.1\r\n\r\n", true), HttpReply::NotFound);
    assert_eq!(route_http_request(b"POST /ping HTTP/1.1\r\n\r\n", true), HttpReply::NotFound);
    assert_eq!(route_http_request(b"", true), HttpReply::NotFound);
}

#[test]
fn routes_reset_types() {
    assert_eq!(route_http_request(&reset_with("{\"ResetType\":\"On\"}"), false), HttpReply::PowerOn);
    assert_eq!(route_http_request(&reset_with("{\"ResetType\":\"ForceOff\"}"), true), HttpReply::ForceOff);
    assert_eq!(
        route_http_request(&reset_with("{\"ResetType\":\"ForceRestart\"}"), true),
        HttpReply::ForceRestart
    );
    assert_eq!(
        route_http_request(&reset_with("{\"ResetType\": \"On\"}"), true),
        HttpReply::NotFound
    );
    assert_eq!(
        route_http_request(b"GET /redfish/v1/Systems/1/Actions/ComputerSystem.Reset HTTP/1.1\r\n\r\n{\"ResetType\":\"On\"}", true),
        HttpReply::NotFound
    );
}

#[test]
fn invalid_utf8_request_is_not_routed() {
    assert_eq!(route_http_request(b"GET /ping HTTP/1.1\r\nX: \xff\r\n\r\n", true), HttpReply::NotFound);
}

#[test]
fn reply_parts() {
    assert_eq!(HttpReply::Pong.status(), 200);
    assert_eq!(HttpReply::NotFound.status(), 404);
    assert_eq!(HttpReply::NotFound.reason(), "Not Found");
    assert_eq!(HttpReply::PowerOn.reason(), "OK");
    assert_eq!(HttpReply::Pong.body(), "connection up!");
    assert_eq!(HttpReply::ServiceRoot.body(), ROOT_RESOURCE);
    assert_eq!(HttpReply::SystemsCollection.body(), SYSTEM_RESOURCE);
    assert_eq!(HttpReply::SystemInfo(true).body(), SYSTEM_INFO_ON);
    assert_eq!(HttpReply::SystemInfo(false).body(), SYSTEM_INFO_OFF);
    assert_eq!(HttpReply::ForceOff.body(), "Force Power Off!");
    assert_eq!(HttpReply::NotFound.body(), "");
    assert_eq!(HttpReply::ForceRestart.action(), Some(PowerAction::ForceRestart));
    assert_eq!(HttpReply::Pong.action(), None);
}

#[test]
fn response_bytes() {
    let r = send_response(200, b"OK", b"Power On!");
    assert_eq!(
        r,
        b"HTTP/1.1 200 OK\r\nContent-Type: application/json\r\nContent-Length: 9\r\nConnection: close\r\n\r\nPower On!".to_vec()
    );
    let r = send_response(404, b"Not Found", b"");
    assert_eq!(
        r,
        b"HTTP/1.1 404 Not Found\r\nContent-Type: application/json\r\nContent-Length: 0\r\nConnection: close\r\n\r\n".to_vec()
    );
}

#[test]
fn request_buffer_stops_at_blank_line() {
    let mut b = HttpRequestBuffer::new();
    assert!(b.on_read(Ok(b"GET /ping HTTP/1.1\r\n")));
    assert!(!b.on_read(Ok(b"Host: x\r\n\r\n")));
    assert_eq!(b.request(), b"GET /ping HTTP/1.1\r\nHost: x\r\n\r\n");
    let mut b = HttpRequestBuffer::new();
    assert!(b.on_read(Ok(b"GET")));
    assert!(!b.on_read(Ok(b"")));
    assert_eq!(b.request(), b"GET");
    let mut b = HttpRequestBuffer::new();
    assert!(!b.on_read(Err(())));
    assert_eq!(b.request(), b"");
}

#[test]
fn request_buffer_stops_when_full() {
    let mut b = HttpRequestBuffer::new();
    let chunk = [b'a'; 512];
    assert!(b.on_read(Ok(&chunk)));
    assert!(!b.on_read(Ok(&chunk)));
    assert_eq!(b.request().len(), 1024);
}

#[test]
fn power_state_reads_back_what_was_written() {
    let mut p = PowerState::new();
    assert!(is_power_on(&p));
    assert!(!set_power_state(&mut p, false));
    assert!(!is_power_on(&p));
    assert!(set_power_state(&mut p, true));
    assert!(is_power_on(&p));
}

#[test]
fn pulses_only_on_state_change() {
    let on = PowerState { power_on: true };
    let off = PowerState { power_on: false };
    assert_eq!(power_on_pulse(&on), None);
    assert_eq!(power_on_pulse(&off), Some(PowerPulse::PowerOn));
    assert_eq!(power_off_pulse(&on), Some(PowerPulse::PowerOff));
    assert_eq!(power_off_pulse(&off), None);
}

#[test]
fn power_task_pulses_on_state_change() {
    let mut p = PowerState { power_on: false };
    assert_eq!(power_task_step(&mut p, true), Some(PowerPulse::PowerOn));
    assert!(p.power_on);
    assert_eq!(power_task_step(&mut p, true), None);
    assert!(p.power_on);
    assert_eq!(power_task_step(&mut p, false), Some(PowerPulse::PowerOff));
    assert!(!p.power_on);
    assert_eq!(power_task_step(&mut p, false), None);
}

#[test]
fn controller_pulses_once_per_state_change() {
    let mut c = PowerController::new();
    assert!(c.is_power_on());
    assert_eq!(c.request(PowerAction::ForceOff), Some(false));
    assert!(!c.is_power_on());
    assert!(c.board.power_on);
    assert_eq!(c.on_signal(false), Some(PowerPulse::PowerOff));
    assert!(!c.board.power_on);
    assert_eq!(c.on_signal(false), None);
    assert_eq!(c.request(PowerAction::On), Some(true));
    assert_eq!(c.on_signal(true), Some(PowerPulse::PowerOn));
    assert!(c.is_power_on() && c.board.power_on);
    assert_eq!(c.request(PowerAction::ForceRestart), None);
    assert!(c.is_power_on());
}

#[test]
fn power_actions() {
    let mut p = PowerState { power_on: false };
    assert_eq!(request_power_action(&mut p, PowerAction::On), Some(true));
    assert!(p.power_on);
    assert_eq!(request_power_action(&mut p, PowerAction::ForceRestart), None);
    assert!(p.power_on);
    assert_eq!(request_power_action(&mut p, PowerAction::ForceOff), Some(false));
    assert!(!p.power_on);
}

#[test]
fn led_follows_power_state() {
    assert_eq!(led_level(true), Level::Low);
    assert_eq!(led_level(false), Level::High);
    let (mut t, l) = LedTracker::new(true);
    assert_eq!(l, Level::Low);
    assert_eq!(t.poll(true), None);
    assert_eq!(t.poll(false), Some(Level::High));
    assert_eq!(t.poll(false), None);
    assert_eq!(t.poll(true), Some(Level::Low));
}

#[test]
fn console_reads_are_rewritten_one_at_a_time() {
    let mut out = normalize_console_input(b"ls\r");
    out.extend(normalize_console_input(b"\nabc"));
    assert_eq!(out, b"ls\n\nabc".to_vec());
}

#[test]
fn console_line_discipline() {
    assert_eq!(normalize_console_input(b"ls\r\n"), b"ls\n".to_vec());
    assert_eq!(normalize_console_input(b"ls\r"), b"ls\n".to_vec());
    assert_eq!(normalize_console_input(b"a\x7fb"), b"a\x08b".to_vec());
    assert_eq!(normalize_console_input(b"\r\r\n\n"), b"\n\n\n".to_vec());
    assert_eq!(normalize_console_input(b""), Vec::<u8>::new());
}

#[test]
fn gradient_pixels() {
    assert_eq!(generate_gradient_pixel(0, 0), [200, 200, 0]);
    assert_eq!(generate_gradient_pixel(50, 0), [200, 50, 0]);
    assert_eq!(generate_gradient_pixel(100, 100), [0, 200, 200]);
}

#[test]
fn vnc_messages() {
    assert_eq!(pixel_size(32), 4);
    assert_eq!(pixel_size(16), 2);
    assert_eq!(pixel_size(0), 1);
    let init = server_init_message();
    assert_eq!(&init[0..4], &[0, 200, 0, 200]);
    assert_eq!(&init[4..8], &[32, 24, 0, 1]);
    assert_eq!(&init[20..24], &[0, 0, 0, 8]);
    assert_eq!(&init[24..], b"STM32VNC");
    let rect = Rect { x: 1, y: 2, width: 3, height: 4 };
    assert_eq!(update_header(rect), vec![0, 0, 0, 1, 0, 1, 0, 2, 0, 3, 0, 4, 0, 0, 0, 0]);
    let row = encode_row(Rect { x: 0, y: 0, width: 2, height: 1 }, 0, 32);
    assert_eq!(row.len(), 8);
    assert_eq!(&row[0..4], &[0, 200, 200, 0]);
}

#[test]
fn update_requests_are_clamped_to_the_screen() {
    let r = clamp_update_request(&[0, 0, 150, 0, 10, 0x01, 0x00, 0x01, 0x00]);
    assert_eq!((r.x, r.y, r.width, r.height), (150, 10, 50, 190));
    let r = clamp_update_request(&[0, 0x01, 0x00, 0, 0, 0, 10, 0, 10]);
    assert_eq!((r.x, r.width), (200, 0));
}

fn write_bytes(a: &VncAction) -> Vec<u8> {
    match a {
        VncAction::Write(v) => v.clone(),
        _ => panic!("expected a write"),
    }
}

#[test]
fn vnc_handshake_and_update() {
    let (s, a) = VncSession::new();
    assert_eq!(write_bytes(&a), b"RFB 003.008\n".to_vec());
    let (s, a) = s.on_written();
    assert!(matches!(a, VncAction::ReadExact(12)));
    let (s, a) = s.on_read(true, b"RFB 003.008\n");
    assert_eq!(write_bytes(&a), vec![1, 1]);
    let (s, a) = s.on_written();
    assert!(matches!(a, VncAction::ReadExact(1)));
    let (s, a) = s.on_read(true, &[1]);
    assert_eq!(write_bytes(&a), vec![0, 0, 0, 0]);
    let (s, a) = s.on_written();
    let (s, a2) = {
        assert!(matches!(a, VncAction::ReadExact(1)));
        s.on_read(true, &[1])
    };
    assert_eq!(write_bytes(&a2), server_init_message());
    let (s, a) = s.on_written();
    assert!(matches!(a, VncAction::ReadExact(1)));
    let (s, a) = s.on_read(true, &[3]);
    assert!(matches!(a, VncAction::ReadExact(9)));
    let (s, a) = s.on_read(true, &[0, 0, 0, 0, 0, 0, 2, 0, 2]);
    assert_eq!(write_bytes(&a), update_header(Rect { x: 0, y: 0, width: 2, height: 2 }));
    assert!(s.next_row_fits());
    let (s, a) = s.on_written();
    assert_eq!(write_bytes(&a).len(), 8);
    let (s, a) = s.on_written();
    assert_eq!(write_bytes(&a), encode_row(Rect { x: 0, y: 0, width: 2, height: 2 }, 1, 32));
    let (s, a) = s.on_written();
    assert!(matches!(a, VncAction::ReadExact(1)));
    let (s, a) = s.on_read(true, &[9]);
    assert!(matches!(a, VncAction::Close));
    assert!(matches!(s.phase, VncPhase::Closed));
}

fn handshake() -> (VncSession, VncAction) {
    let (s, _) = VncSession::new();
    let (s, _) = s.on_written();
    let (s, _) = s.on_read(true, b"RFB 003.008\n");
    let (s, _) = s.on_written();
    let (s, _) = s.on_read(true, &[1]);
    let (s, _) = s.on_written();
    let (s, _) = s.on_read(true, &[1]);
    s.on_written()
}

#[test]
fn vnc_pixel_format_sets_bits_per_pixel() {
    let (s, _) = handshake();
    let (s, a) = s.on_read(true, &[0]);
    assert!(matches!(a, VncAction::ReadExact(19)));
    let mut pf = [0u8; 19];
    pf[3] = 32;
    pf[4] = 24;
    pf[6] = 1;
    let (s, _) = s.on_read(true, &pf);
    assert_eq!(s.bpp, 32);
    let (s, _) = s.on_read(true, &[3]);
    let (s, a) = s.on_read(true, &[0, 0, 0, 0, 0, 0, 10, 0, 1]);
    assert_eq!(write_bytes(&a).len(), 16);
    let (_, a) = s.on_written();
    assert_eq!(write_bytes(&a).len(), 40);
}

#[test]
fn vnc_pixel_format_sixteen_and_sixty_four_bits() {
    let (s, _) = handshake();
    let (s, _) = s.on_read(true, &[0]);
    let mut pf = [0u8; 19];
    pf[3] = 16;
    let (s, _) = s.on_read(true, &pf);
    assert_eq!(s.bpp, 16);
    let (s, _) = s.on_read(true, &[0]);
    pf[3] = 64;
    let (s, _) = s.on_read(true, &pf);
    assert_eq!(s.bpp, 64);
    let (s, _) = s.on_read(true, &[3]);
    let (s, a) = s.on_read(true, &[0, 0, 0, 0, 0, 0, 100, 0, 1]);
    assert_eq!(write_bytes(&a).len(), 16);
    let (s, a) = s.on_written();
    let row = write_bytes(&a);
    assert_eq!(row.len(), 800);
    assert!(row.iter().enumerate().all(|(i, &b)| i % 8 == 0 || b == 0));
    let (s, _) = s.on_written();
    let (s, _) = s.on_read(true, &[3]);
    let (s, a) = s.on_read(true, &[0, 0, 0, 0, 0, 0, 200, 0, 1]);
    assert!(matches!(a, VncAction::Close));
    assert!(matches!(s.phase, VncPhase::Closed));
}

#[test]
fn vnc_rejects_unknown_security_type() {
    let (s, _) = VncSession::new();
    let (s, _) = s.on_written();
    let (s, _) = s.on_read(true, b"RFB 003.008\n");
    let (s, _) = s.on_written();
    let (s, a) = s.on_read(true, &[2]);
    assert!(matches!(a, VncAction::Close));
    assert!(matches!(s.phase, VncPhase::Closed));
}
