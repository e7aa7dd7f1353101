use linux::kty::{epoll_event, f_owner_ex, pollfd, timespec, winsize};
use linux::lmem;
use linux::pod::{u16_read_le, u32_read_le, u64_read_le, u32_write_le, Pod};

#[test]
fn little_endian_encoding_exact() {
    let mut out: Vec<u8> = Vec::new();
    u32_write_le(0x1234_5678, &mut out);
    assert_eq!(out, vec![0x78, 0x56, 0x34, 0x12]);
}

#[test]
fn little_endian_round_trips() {
    let mut out: Vec<u8> = Vec::new();
    0x8001u16.pod_write(&mut out);
    0xdead_beefu32.pod_write(&mut out);
    0x0102_0304_0506_0708u64.pod_write(&mut out);
    assert_eq!(u16_read_le(&out, 0), 0x8001);
    assert_eq!(u32_read_le(&out, 2), 0xdead_beef);
    assert_eq!(u64_read_le(&out, 6), 0x0102_0304_0506_0708);
}

#[test]
fn signed_values_round_trip() {
    let mut out: Vec<u8> = Vec::new();
    (-2i32).pod_write(&mut out);
    assert_eq!(out, vec![0xfe, 0xff, 0xff, 0xff]);
    let back = i32::pod_read(&out, 0);
    assert_eq!(back, -2);
}

#[test]
fn zero_filled_buffer_reinterprets_to_zero_value() {
    // a type whose fields are all built-in holders: two 32-bit integers
    let buf = vec![0u8; 8];
    let from_buf = f_owner_ex::pod_read(&buf, 0);
    let zeroed: f_owner_ex = lmem::zeroed();
    assert_eq!(from_buf, zeroed);
    assert_eq!(zeroed.type_, 0);
    assert_eq!(zeroed.pid, 0);
}

#[test]
fn struct_images_round_trip() {
    let ev = epoll_event { events: 5, data: 0x10_0000_0001 };
    let img = lmem::as_data(&ev);
    assert_eq!(img.len(), 12);
    let back = epoll_event::pod_read(&img, 0);
    assert_eq!(back, ev);

    let p = pollfd { fd: 3, events: -1, revents: 2 };
    let img = lmem::as_data(&p);
    assert_eq!(img.len(), 8);
    assert_eq!(pollfd::pod_read(&img, 0), p);

    let w = winsize { ws_row: 24, ws_col: 80, ws_xpixel: 0, ws_ypixel: 0 };
    let img = lmem::as_data(&w);
    assert_eq!(img, vec![24, 0, 80, 0, 0, 0, 0, 0]);

    let ts = timespec { tv_sec: -1, tv_nsec: 7 };
    let img = lmem::as_data(&ts);
    assert_eq!(img.len(), 16);
    assert_eq!(timespec::pod_read(&img, 0), ts);
}

#[test]
fn from_bytes_needs_room() {
    let buf = vec![1u8, 0, 0, 0];
    let v: Option<u32> = lmem::from_bytes(&buf);
    assert_eq!(v, Some(1));
    let v: Option<u64> = lmem::from_bytes(&buf);
    assert_eq!(v, None);
    assert!(lmem::is_suitable_for::<u32>(&buf));
    assert!(!lmem::is_suitable_for::<u64>(&buf));
}

#[test]
fn copy_takes_the_minimum() {
    let mut dst = vec![9u8, 9, 9, 9];
    let n = lmem::copy(&mut dst, &[1, 2]);
    assert_eq!(n, 2);
    assert_eq!(dst, vec![1, 2, 9, 9]);
    let mut dst = vec![9u8, 9];
    let n = lmem::copy(&mut dst, &[1, 2, 3]);
    assert_eq!(n, 2);
    assert_eq!(dst, vec![1, 2]);
}

#[test]
fn alignment_gap() {
    assert_eq!(lmem::align_for(8, 8, 100), 0);
    assert_eq!(lmem::align_for(9, 8, 100), 7);
    assert_eq!(lmem::align_for(15, 8, 100), 1);
    assert_eq!(lmem::align_for(9, 8, 3), 3);
    assert_eq!(lmem::align_for(5, 1, 100), 0);
}

#[test]
fn d8_wraps_a_byte() {
    let b = linux::lmem::d8::new(7);
    assert_eq!(b.0, 7);
}
