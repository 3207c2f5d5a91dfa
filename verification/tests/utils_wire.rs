use hasm_openbmc::config::{get_board_ip, get_host_ip};
use hasm_openbmc::consts::{BOARD_IP, HOST_IP, IMG_SERVER_PORT, TELNET_PORT, UART_BAUDRATE};
use hasm_openbmc::utils::{
    decimal_len, dump_system_info, find_header_end, format_ip, itoa, u32_to_ascii, Ipv4Address,
    SYSTEM_INFO_OFF, SYSTEM_INFO_ON,
};
use hasm_openbmc::wire::{
    copy_prefix, u16_from_be_bytes, u16_to_be_bytes, u32_from_be_bytes, u32_from_le_bytes,
    u32_to_be_bytes, u32_to_le_bytes,
};

#[test]
fn itoa_formats_zero_as_single_digit() {
    let mut buf = [0xAAu8; 8];
    assert_eq!(itoa(0, &mut buf), b"0");
    assert_eq!(buf, [0xAAu8; 8]);
}

#[test]
fn itoa_formats_status_codes() {
    let mut buf = [0u8; 8];
    assert_eq!(itoa(200, &mut buf), b"200");
    assert_eq!(itoa(404, &mut buf), b"404");
    assert_eq!(itoa(65535, &mut buf), b"65535");
}

#[test]
fn itoa_keeps_least_significant_digits_when_buffer_is_short() {
    let mut buf = [0u8; 2];
    assert_eq!(itoa(123, &mut buf), b"23");
    let mut empty: [u8; 0] = [];
    assert_eq!(itoa(7, &mut empty), b"");
}

#[test]
fn u32_to_ascii_formats_range_offsets() {
    let mut buf = [0u8; 10];
    assert_eq!(u32_to_ascii(0, &mut buf), b"0");
    assert_eq!(u32_to_ascii(511, &mut buf), b"511");
    assert_eq!(u32_to_ascii(4_294_967_295, &mut buf), b"4294967295");
}

#[test]
fn decimal_len_counts_digits() {
    assert_eq!(decimal_len(0), 1);
    assert_eq!(decimal_len(9), 1);
    assert_eq!(decimal_len(10), 2);
    assert_eq!(decimal_len(4_294_967_295), 10);
}

#[test]
fn format_ip_writes_dotted_quad() {
    let mut out = [0u8; 15];
    let ip = Ipv4Address::new(192, 168, 2, 177);
    assert_eq!(format_ip(ip, &mut out), b"192.168.2.177");
    let mut out = [b'x'; 20];
    assert_eq!(format_ip(Ipv4Address::new(0, 0, 0, 0), &mut out), b"0.0.0.0");
    assert_eq!(&out[7..], b"xxxxxxxxxxxxx");
}

#[test]
fn board_and_host_addresses() {
    assert_eq!(get_board_ip().octets(), BOARD_IP);
    assert_eq!(get_host_ip().octets(), HOST_IP);
    assert_eq!(BOARD_IP, [169, 254, 77, 2]);
    assert_eq!(HOST_IP, [169, 254, 77, 1]);
    assert_eq!(UART_BAUDRATE, 115_200);
    assert_eq!(TELNET_PORT, 2323);
    assert_eq!(IMG_SERVER_PORT, 8000);
}

#[test]
fn system_info_reports_power_state() {
    assert_eq!(dump_system_info("1", true), SYSTEM_INFO_ON);
    assert_eq!(dump_system_info("1", false), SYSTEM_INFO_OFF);
    assert!(SYSTEM_INFO_ON.contains("\"PowerState\": \"On\""));
    assert!(SYSTEM_INFO_OFF.contains("\"PowerState\": \"Off\""));
    assert!(!SYSTEM_INFO_ON.contains("\"ForceOff\","));
    assert_eq!(SYSTEM_INFO_ON.replace("\"PowerState\": \"On\"", "\"PowerState\": \"Off\""), SYSTEM_INFO_OFF);
}

#[test]
fn header_end_is_found_only_in_filled_part() {
    let h = b"GET / HTTP/1.1\r\nHost: x\r\n\r\nbody";
    assert_eq!(find_header_end(h, h.len()), 23);
    assert_eq!(find_header_end(h, 26), -1);
    assert_eq!(find_header_end(h, 27), 23);
    assert_eq!(find_header_end(b"\r\n\r", 3), -1);
}

#[test]
fn byte_order_helpers() {
    assert_eq!(u32_to_le_bytes(0x1234_5678), [0x78, 0x56, 0x34, 0x12]);
    assert_eq!(u32_to_be_bytes(0x1234_5678), [0x12, 0x34, 0x56, 0x78]);
    assert_eq!(u16_to_be_bytes(0xABCD), [0xAB, 0xCD]);
    assert_eq!(u32_from_le_bytes(0x55, 0x53, 0x42, 0x43), 0x4342_5355);
    assert_eq!(u32_from_be_bytes(0, 0, 0x02, 0x00), 512);
    assert_eq!(u16_from_be_bytes(0x01, 0x02), 0x0102);
}

#[test]
fn copy_prefix_copies_what_fits() {
    let mut dst = [9u8; 3];
    assert_eq!(copy_prefix(&[1, 2, 3, 4, 5], &mut dst), 3);
    assert_eq!(dst, [1, 2, 3]);
    let mut dst = [9u8; 5];
    assert_eq!(copy_prefix(&[1, 2], &mut dst), 2);
    assert_eq!(dst, [1, 2, 9, 9, 9]);
}
