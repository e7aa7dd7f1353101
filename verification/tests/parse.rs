use linux::parse::{Parsable, Parse};
use linux::result::{Errno, EINVAL};
use linux::string::byte_str::ByteStr;

/// A little-endian 32-bit word parsed from the front of a buffer.
struct Word(u32);

impl Parsable for Word {
    fn parse_bytes_init(bytes: &[u8]) -> Result<(Word, usize), Errno> {
        if bytes.len() >= 4 {
            let v = u32::from_le_bytes([bytes[0], bytes[1], bytes[2], bytes[3]]);
            Ok((Word(v), 4))
        } else {
            Err(Errno(EINVAL))
        }
    }
}

#[test]
fn whole_buffer_parse() {
    let w: Word = Word::parse_bytes(&[1, 0, 0, 0]).unwrap();
    assert_eq!(w.0, 1);
    // an initial parse that leaves bytes over fails the whole-buffer parse
    let r: Result<Word, Errno> = Word::parse_bytes(&[1, 0, 0, 0, 5]);
    assert_eq!(r.err(), Some(Errno(EINVAL)));
    let r: Result<Word, Errno> = Word::parse_bytes(&[1, 0]);
    assert!(r.is_err());
}

#[test]
fn parse_through_byte_str() {
    let s = ByteStr::from_vec(vec![2, 0, 0, 0]);
    let w: Word = s.parse().unwrap();
    assert_eq!(w.0, 2);
}
