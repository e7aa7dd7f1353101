use linux::io::{BufRead, MemReader, MemWriter, Read, Write};
use linux::result::{Errno, ENOSPC};

#[test]
fn reading_in_bounded_chunks() {
    let mut r = MemReader::new(b"abcdef".to_vec());
    assert_eq!(r.remaining(), 6);
    assert_eq!(r.read(2), Ok(b"ab".to_vec()));
    assert_eq!(r.read(10), Ok(b"cdef".to_vec()));
    assert_eq!(r.read(1), Ok(Vec::new()));
}

#[test]
fn read_all_collects_until_the_end() {
    let mut r = MemReader::new(b"abcdef".to_vec());
    assert_eq!(r.read_all(4), Ok(b"abcd".to_vec()));
    assert_eq!(r.read_all(10), Ok(b"ef".to_vec()));
}

#[test]
fn consume_skips() {
    let mut r = MemReader::new(b"abcdef".to_vec());
    assert_eq!(r.consume(2), 2);
    assert_eq!(r.read(2), Ok(b"cd".to_vec()));
    assert_eq!(r.consume(99), 2);
    assert_eq!(r.remaining(), 0);
}

#[test]
fn copy_until_the_marker() {
    let mut r = MemReader::new(b"key=value\nrest".to_vec());
    let mut dst: Vec<u8> = Vec::new();
    // the marker byte itself is copied
    assert_eq!(r.copy_until(&mut dst, b'\n'), Ok(10));
    assert_eq!(dst, b"key=value\n".to_vec());
    // without an occurrence, everything left is copied
    let mut dst: Vec<u8> = Vec::new();
    assert_eq!(r.copy_until(&mut dst, b'\n'), Ok(4));
    assert_eq!(dst, b"rest".to_vec());
}

#[test]
fn writing_respects_capacity() {
    let mut w = MemWriter::new(4);
    assert_eq!(w.write(b"ab"), Ok(2));
    assert_eq!(w.room(), 2);
    assert_eq!(w.write(b"cdef"), Ok(2));
    assert_eq!(w.write(b"gh"), Ok(0));
    assert_eq!(w.flush(), Ok(()));
    assert_eq!(w.into_vec(), b"abcd".to_vec());
}

#[test]
fn write_all_is_complete_or_fails() {
    let mut w = MemWriter::new(8);
    assert_eq!(w.write_all(b"abc"), Ok(3));
    assert_eq!(w.write_all(b"defgh"), Ok(5));
    // the sink is full: a further complete write reports the device full
    assert_eq!(w.write_all(b"x"), Err(Errno(ENOSPC)));
    assert_eq!(w.into_vec(), b"abcdefgh".to_vec());
}
