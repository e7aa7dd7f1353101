use linux::kstr::KStr;
use linux::string::byte_str::ByteStr;
use linux::string::c_str::CStr;
use linux::string::no_null_str::NoNullStr;
use linux::string::util::{debug_str_no_quotes, longest_sequence};

#[test]
fn trim_removes_spaces_and_tabs() {
    let s = ByteStr::from_vec(b" \t hello \t ".to_vec());
    assert_eq!(s.trim().as_bytes(), &b"hello".to_vec());
    let s = ByteStr::from_vec(b"hi".to_vec());
    assert_eq!(s.trim().as_bytes(), &b"hi".to_vec());
    let s = ByteStr::from_vec(b" \t\t ".to_vec());
    assert_eq!(s.trim().len(), 0);
    let s = ByteStr::from_vec(b"a b".to_vec());
    assert_eq!(s.trim().as_bytes(), &b"a b".to_vec());
}

#[test]
fn byte_equality() {
    let s = ByteStr::from_vec(b"abc".to_vec());
    assert!(s.eq_bytes(b"abc"));
    assert!(!s.eq_bytes(b"abd"));
    assert!(!s.eq_bytes(b"ab"));
    assert!(!s.eq_bytes(b"abcd"));
}

#[test]
fn starts_with_prefixes() {
    let s = ByteStr::from_vec(b"hello".to_vec());
    assert!(s.starts_with(b"he"));
    assert!(s.starts_with(b""));
    assert!(s.starts_with(b"hello"));
    assert!(!s.starts_with(b"hello!"));
    assert!(!s.starts_with(b"eh"));
}

#[test]
fn no_null_construction() {
    assert!(NoNullStr::from_bytes(b"a/b".to_vec()).is_some());
    assert!(NoNullStr::from_bytes(b"a\0b".to_vec()).is_none());
}

#[test]
fn no_null_set() {
    let mut s = NoNullStr::from_bytes(b"abc".to_vec()).unwrap();
    s.set(1, b'x');
    assert_eq!(s.as_bytes(), &b"axc".to_vec());
}

#[test]
fn split_path_components() {
    let s = NoNullStr::from_bytes(b"usr/local/bin".to_vec()).unwrap();
    let (dir, file) = s.split_path();
    assert_eq!(dir.as_bytes(), &b"usr/local".to_vec());
    assert_eq!(file.as_bytes(), &b"bin".to_vec());
    assert_eq!(s.dir().as_bytes(), &b"usr/local".to_vec());
    assert_eq!(s.file().as_bytes(), &b"bin".to_vec());

    let s = NoNullStr::from_bytes(b"name".to_vec()).unwrap();
    let (dir, file) = s.split_path();
    assert_eq!(dir.len(), 0);
    assert_eq!(file.as_bytes(), &b"name".to_vec());

    let s = NoNullStr::from_bytes(b"dir/".to_vec()).unwrap();
    let (dir, file) = s.split_path();
    assert_eq!(dir.as_bytes(), &b"dir".to_vec());
    assert_eq!(file.len(), 0);
}

#[test]
fn c_str_construction_and_split() {
    let e = CStr::empty();
    assert_eq!(e.bytes_with_null(), &vec![0u8]);
    assert_eq!(e.len(), 0);

    let s = CStr::from_bytes(b"etc/passwd").unwrap();
    assert_eq!(s.bytes_with_null(), &b"etc/passwd\0".to_vec());
    assert_eq!(s.len(), 10);
    assert!(CStr::from_bytes(b"a\0b").is_none());

    let (dir, file) = s.split_path();
    assert_eq!(dir.as_bytes(), &b"etc".to_vec());
    assert_eq!(file.bytes_with_null(), &b"passwd\0".to_vec());
    assert_eq!(s.file().bytes_with_null(), &b"passwd\0".to_vec());

    let s = CStr::from_bytes(b"plain").unwrap();
    assert_eq!(s.file().bytes_with_null(), &b"plain\0".to_vec());
    assert_eq!(s.as_no_null().as_bytes(), &b"plain".to_vec());
}

#[test]
fn kernel_string_rejects_embedded_terminator() {
    let k = KStr::new(b"render").unwrap();
    assert_eq!(k.bytes_with_null(), &b"render\0".to_vec());
    assert_eq!(k.len(), 6);
    assert!(KStr::new(b"bad\0byte").is_none());
    let empty = KStr::new(b"").unwrap();
    assert_eq!(empty.bytes_with_null(), &vec![0u8]);
}

#[test]
fn utf8_prefix_lengths() {
    assert_eq!(longest_sequence(b"plain ascii"), 11);
    assert_eq!(longest_sequence(b""), 0);
    // a two-byte character followed by ascii
    assert_eq!(longest_sequence(&[0xC3, 0xA9, b'x']), 3);
    // a lone continuation byte cannot begin a character
    assert_eq!(longest_sequence(&[0x80, b'a']), 0);
    // a truncated two-byte character stops the scan
    assert_eq!(longest_sequence(&[b'a', b'b', 0xC3]), 2);
    // overlong leads are rejected outright
    assert_eq!(longest_sequence(&[0xC0, 0x80]), 0);
    // a three-byte character with the surrogate range excluded
    assert_eq!(longest_sequence(&[0xE2, 0x82, 0xAC]), 3);
    assert_eq!(longest_sequence(&[0xED, 0xA0, 0x80]), 0);
    // a four-byte character within the planes
    assert_eq!(longest_sequence(&[0xF0, 0x9F, 0x92, 0x96]), 4);
    assert_eq!(longest_sequence(&[0xF4, 0x90, 0x80, 0x80]), 0);
    // past the last accepted lead byte
    assert_eq!(longest_sequence(&[0xFF]), 0);
}

#[test]
fn escaping_characters() {
    let chars: Vec<char> = vec!['a', '\\', '"', '\n', '\''];
    let out = debug_str_no_quotes(&chars);
    assert_eq!(out, b"a\\\\\\\"\\u{a}'".to_vec());
    let chars: Vec<char> = vec!['\u{1F496}'];
    let out = debug_str_no_quotes(&chars);
    assert_eq!(out, b"\\u{1f496}".to_vec());
}
