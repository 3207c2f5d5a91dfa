use hasm_openbmc::block::cached_data::{CacheLookup, CachedData, CACHE_BLOCKS, CACHE_BYTES};
use hasm_openbmc::block::example_fs::{
    build_boot_sector, fat_sector, hello_data_sector, root_dir_sector, ExampleBlockDevice,
};
use hasm_openbmc::block::remote::{
    build_range_request, FetchAction, FetchPhase, RangeFetch, RemoteBlockDevice, HEADER_CAPACITY,
};
use hasm_openbmc::block::{block_span, blocks_to_read, copy_block_into, multi_block_in_range, BLOCK_SIZE};
use hasm_openbmc::storage::remote::RemoteBlockDevice as PrototypeRemoteBlockDevice;
use hasm_openbmc::utils::Ipv4Address;

#[test]
fn block_arithmetic() {
    assert_eq!(BLOCK_SIZE, 512);
    assert_eq!(blocks_to_read(0), 0);
    assert_eq!(blocks_to_read(1), 1);
    assert_eq!(blocks_to_read(512), 1);
    assert_eq!(blocks_to_read(513), 2);
    assert_eq!(block_span(10, 0, 2048), (10, 0, 512));
    assert_eq!(block_span(10, 3, 2048), (13, 1536, 2048));
    assert_eq!(block_span(10, 1, 700), (11, 512, 700));
}

#[test]
fn partial_final_sector_is_cut_to_the_buffer() {
    let mut buf = vec![0xEEu8; 700];
    let a = [1u8; 512];
    let b = [2u8; 512];
    copy_block_into(&mut buf, 0, &a);
    copy_block_into(&mut buf, 1, &b);
    assert!(buf[..512].iter().all(|&x| x == 1));
    assert!(buf[512..].iter().all(|&x| x == 2));
    assert!(multi_block_in_range(0, 700));
    assert!(!multi_block_in_range(u32::MAX, 1024));
    assert!(multi_block_in_range(u32::MAX, 512));
}

#[test]
fn example_disk_layout() {
    let boot = build_boot_sector();
    assert_eq!(&boot[0..3], &[0xEB, 0x3C, 0x90]);
    assert_eq!(&boot[3..11], b"MSDOS5.0");
    assert_eq!(u16::from_le_bytes([boot[11], boot[12]]), 512);
    assert_eq!(boot[13], 16);
    assert_eq!(u16::from_le_bytes([boot[14], boot[15]]), 1);
    assert_eq!(boot[16], 2);
    assert_eq!(u16::from_le_bytes([boot[17], boot[18]]), 512);
    assert_eq!(boot[21], 0xF8);
    assert_eq!(u16::from_le_bytes([boot[22], boot[23]]), 256);
    assert_eq!(u32::from_le_bytes([boot[32], boot[33], boot[34], boot[35]]), 524_288);
    assert_eq!(&boot[43..54], b"RUST DISK  ");
    assert_eq!(&boot[54..62], b"FAT16   ");
    assert_eq!(&boot[510..512], &[0x55, 0xAA]);
    assert_eq!(&fat_sector()[0..6], &[0xF8, 0xFF, 0xFF, 0xFF, 0xFF, 0xFF]);
    let dir = root_dir_sector();
    assert_eq!(&dir[0..11], b"HELLO   TXT");
    assert_eq!(u16::from_le_bytes([dir[26], dir[27]]), 2);
    assert_eq!(u32::from_le_bytes([dir[28], dir[29], dir[30], dir[31]]), 29);
    let hello = hello_data_sector();
    assert_eq!(&hello[0..29], b"Welcome to 256MB Rust Disk!\r\n");
    assert!(hello[29..].iter().all(|&b| b == 0));
}

#[test]
fn example_device_serves_sectors() {
    let mut dev = ExampleBlockDevice;
    let mut buf = [0xAAu8; 512];
    assert_eq!(dev.read_block(0, &mut buf), Ok(()));
    assert_eq!(buf, build_boot_sector());
    assert_eq!(dev.read_block(257, &mut buf), Ok(()));
    assert_eq!(buf, fat_sector());
    assert_eq!(dev.read_block(545, &mut buf), Ok(()));
    assert_eq!(buf, hello_data_sector());
    assert_eq!(dev.read_block(2, &mut buf), Ok(()));
    assert_eq!(buf, [0u8; 512]);
    let mut small = [7u8; 16];
    assert_eq!(dev.read_block(9, &mut small), Ok(()));
    assert_eq!(small, [0u8; 16]);
}

#[test]
fn example_device_multi_block_read_and_no_writes() {
    let mut dev = ExampleBlockDevice;
    let mut buf = vec![0xAAu8; 1536];
    assert_eq!(dev.read_blocks(512, &mut buf), Ok(()));
    assert_eq!(&buf[0..512], &[0u8; 512]);
    assert_eq!(&buf[512..1024], &root_dir_sector());
    assert_eq!(&buf[1024..1536], &[0u8; 512]);
    assert_eq!(dev.write_block(0, &[0u8; 512]), Err(()));
}

#[test]
fn cache_hits_after_a_fill() {
    assert_eq!(CACHE_BLOCKS, 24);
    assert_eq!(CACHE_BYTES, 24 * 512);
    let mut cache = CachedData::new(ExampleBlockDevice);
    let mut buf = [0u8; 512];
    assert_eq!(cache.read_block(0, &mut buf), CacheLookup::Miss);
    let res = {
        let (dev, window) = cache.fill_parts();
        dev.read_blocks(0, window)
    };
    assert_eq!(cache.finish_fill(res, &mut buf), Ok(()));
    assert_eq!(buf, build_boot_sector());
    assert_eq!(cache.read_block(1, &mut buf), CacheLookup::Hit);
    assert_eq!(buf, fat_sector());
    assert_eq!(cache.read_block(23, &mut buf), CacheLookup::Hit);
    assert_eq!(buf, [0u8; 512]);
    assert_eq!(cache.read_block(24, &mut buf), CacheLookup::Miss);
}

#[test]
fn cache_miss_realigns_window() {
    let mut cache = CachedData::new(ExampleBlockDevice);
    let mut buf = [0u8; 512];
    assert_eq!(cache.read_block(545, &mut buf), CacheLookup::Miss);
    let res = {
        let (dev, window) = cache.fill_parts();
        dev.read_blocks(545, window)
    };
    assert_eq!(cache.finish_fill(res, &mut buf), Ok(()));
    assert_eq!(buf, hello_data_sector());
    assert_eq!(cache.read_block(545, &mut buf), CacheLookup::Hit);
    assert_eq!(buf, hello_data_sector());
    assert_eq!(cache.read_block(544, &mut buf), CacheLookup::Miss);
}

#[test]
fn cache_fill_failure_is_passed_on() {
    let mut cache = CachedData::new(ExampleBlockDevice);
    let mut buf = [3u8; 512];
    assert_eq!(cache.read_block(4, &mut buf), CacheLookup::Miss);
    assert_eq!(cache.finish_fill(Err(()), &mut buf), Err(()));
    assert_eq!(buf, [3u8; 512]);
    assert_eq!(cache.read_block(4, &mut buf), CacheLookup::Miss);
}

#[test]
fn cache_failed_reload_is_not_served() {
    let mut cache = CachedData::new(ExampleBlockDevice);
    let mut buf = [0u8; 512];
    assert_eq!(cache.read_block(0, &mut buf), CacheLookup::Miss);
    let res = {
        let (dev, window) = cache.fill_parts();
        dev.read_blocks(0, window)
    };
    assert_eq!(cache.finish_fill(res, &mut buf), Ok(()));
    assert_eq!(cache.read_block(100, &mut buf), CacheLookup::Miss);
    assert_eq!(cache.finish_fill(Err(()), &mut buf), Err(()));
    assert_eq!(cache.read_block(101, &mut buf), CacheLookup::Miss);
    assert_eq!(cache.read_block(1, &mut buf), CacheLookup::Miss);
}

#[test]
fn cache_lookup_range_check() {
    let cache = CachedData::new(ExampleBlockDevice);
    assert!(cache.lookup_in_range(u32::MAX));
    assert!(RemoteBlockDevice::range_in_bounds(0, 512));
    assert!(!RemoteBlockDevice::range_in_bounds(u32::MAX / 512, 1024));
    assert!(ExampleBlockDevice::read_blocks_in_bounds(0, 1024));
    assert!(!ExampleBlockDevice::read_blocks_in_bounds(0, 700));
    assert!(ExampleBlockDevice::is_data_sector(545));
    assert!(!ExampleBlockDevice::is_data_sector(2));
}

#[test]
fn range_request_is_inclusive() {
    let server = Ipv4Address::new(169, 254, 77, 1);
    let req = build_range_request(server, 0, 511);
    assert_eq!(
        req,
        b"GET /image HTTP/1.1\r\nHost: 169.254.77.1\r\nRange: bytes=0-511\r\nConnection: close\r\n\r\n".to_vec()
    );
    let mut dev = RemoteBlockDevice::new(server, 8000);
    let (f, a) = dev.read_blocks(2, 1024);
    assert_eq!((f.start, f.end, f.total), (1024, 2047, 1024));
    assert_eq!(f.phase, FetchPhase::Connecting);
    assert!(matches!(a, FetchAction::Connect));
    let (f, a) = dev.read_block(0, 512);
    assert_eq!((f.start, f.end), (0, 511));
    assert!(matches!(a, FetchAction::Connect));
    let (f, a) = dev.read_blocks(5, 0);
    assert_eq!(f.phase, FetchPhase::Finished);
    assert!(matches!(a, FetchAction::Done(Ok(()))));
}

#[test]
fn prototype_device_uses_the_lba_as_offset() {
    let mut dev = PrototypeRemoteBlockDevice::new(Ipv4Address::new(10, 0, 0, 1), 8000);
    let (f, _) = dev.read_block(3, 512);
    assert_eq!((f.start, f.end, f.total), (3, 514, 512));
}

fn start_fetch(total: usize) -> RangeFetch {
    let (mut f, a) = RangeFetch::new(Ipv4Address::new(169, 254, 77, 1), 0, (total - 1) as u32, total);
    assert!(matches!(a, FetchAction::Connect));
    match f.on_connect(true) {
        FetchAction::Send(v) => assert!(v.starts_with(b"GET /image HTTP/1.1\r\n")),
        _ => panic!("expected request"),
    }
    assert!(matches!(f.on_sent(), FetchAction::ReadHeader(n) if n == HEADER_CAPACITY));
    f
}

#[test]
fn fetch_copies_body_that_came_with_the_header() {
    let mut f = start_fetch(8);
    let mut buf = [0u8; 8];
    let a = f.on_header_data(Ok(b"HTTP/1.1 206 Partial\r\nX: y\r\n\r\nABC"), &mut buf);
    assert!(matches!(a, FetchAction::ReadBody(3)));
    assert_eq!(&buf[0..3], b"ABC");
    assert!(matches!(f.on_body_read(Ok(2)), FetchAction::ReadBody(5)));
    assert!(matches!(f.on_body_read(Ok(3)), FetchAction::Done(Ok(()))));
    assert_eq!(f.phase, FetchPhase::Finished);
}

#[test]
fn fetch_header_in_pieces_and_complete_body() {
    let mut f = start_fetch(2);
    let mut buf = [0u8; 2];
    assert!(matches!(f.on_header_data(Ok(b"HTTP/1.1 206 OK\r\n"), &mut buf), FetchAction::ReadHeader(n) if n == HEADER_CAPACITY - 17));
    let a = f.on_header_data(Ok(b"\r\nXYZ"), &mut buf);
    assert!(matches!(a, FetchAction::Done(Ok(()))));
    assert_eq!(&buf, b"XY");
}

#[test]
fn fetch_failures() {
    let (mut f, _) = RangeFetch::new(Ipv4Address::new(1, 2, 3, 4), 0, 511, 512);
    assert!(matches!(f.on_connect(false), FetchAction::Done(Err(()))));
    let mut f = start_fetch(4);
    let mut buf = [0u8; 4];
    assert!(matches!(f.on_header_data(Ok(b""), &mut buf), FetchAction::Done(Err(()))));
    let mut f = start_fetch(4);
    assert!(matches!(f.on_header_data(Err(()), &mut buf), FetchAction::Done(Err(()))));
    let mut f = start_fetch(4);
    assert!(matches!(f.on_header_data(Ok(b"HTTP/1.1 200 OK\r\n\r\n"), &mut buf), FetchAction::ReadBody(0)));
    assert!(matches!(f.on_body_read(Ok(0)), FetchAction::Done(Err(()))));
    let mut f = start_fetch(4);
    let big = [b'a'; HEADER_CAPACITY];
    assert!(matches!(f.on_header_data(Ok(&big), &mut buf), FetchAction::Done(Err(()))));
}
