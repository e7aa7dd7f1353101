//! Byte-stream reading and writing. The traits describe what any stream
//! offers; the in-memory streams implement them with exact contracts and
//! carry the buffering logic — bounded reads, complete writes, and copying
//! up to a marker byte — that descriptor-backed streams at the embedder's
//! edge reuse unchanged.

use vstd::prelude::*;
use crate::result::{Errno, ENOSPC};
use crate::string::util::{
    bytes_between, contains_byte, first_index_of, lemma_first_index_of, memchr_first,
};

verus! {

/// Objects that wrap a byte stream for reading.
pub trait Read: Sized {
    /// Reads up to `n` bytes from the stream; an empty result on a
    /// request for more than zero bytes signals end-of-stream.
    fn read(&mut self, n: usize) -> (r: Result<Vec<u8>, Errno>)
        ensures
            (r matches Ok(v) ==> v@.len() <= n),
    ;

    /// Reads until `n` bytes have been collected or the stream ends: reads
    /// are repeated, and a read that returns nothing ends the collection.
    /// On an error, everything read so far is lost.
    fn read_all(&mut self, n: usize) -> (r: Result<Vec<u8>, Errno>)
        ensures
            (r matches Ok(v) ==> v@.len() <= n),
    {
        let mut got: Vec<u8> = Vec::new();
        loop
            invariant
                got@.len() <= n,
            decreases n - got@.len(),
        {
            let want = n - got.len();
            if want == 0 {
                return Ok(got);
            }
            match self.read(want) {
                Err(e) => {
                    return Err(e);
                },
                Ok(chunk) => {
                    if chunk.len() == 0 {
                        return Ok(got);
                    }
                    let mut chunk = chunk;
                    got.append(&mut chunk);
                },
            }
        }
    }
}

/// Objects that wrap a byte stream for writing.
pub trait Write: Sized {
    /// Writes the front of `buf` to the stream, returning how many bytes
    /// were taken; zero on a non-empty buffer signals a full sink.
    fn write(&mut self, buf: &[u8]) -> (r: Result<usize, Errno>)
        ensures
            (r matches Ok(k) ==> k <= buf@.len()),
    ;

    /// Flushes whatever the stream buffers.
    fn flush(&mut self) -> Result<(), Errno>;

    /// Writes the complete buffer: writes are repeated on the remainder,
    /// and a write that takes nothing fails with the device-full error.
    /// On an error, the number of bytes already written is lost.
    fn write_all(&mut self, buf: &[u8]) -> (r: Result<usize, Errno>)
        ensures
            (r matches Ok(t) ==> t == buf@.len()),
    {
        let total = buf.len();
        let mut off: usize = 0;
        while off < total
            invariant
                off <= total,
                total == buf@.len(),
            decreases total - off,
        {
            let rest = bytes_between(buf, off, total);
            match self.write(rest.as_slice()) {
                Err(e) => {
                    return Err(e);
                },
                Ok(0) => {
                    return Err(Errno(ENOSPC));
                },
                Ok(k) => {
                    off = off + k;
                },
            }
        }
        Ok(off)
    }
}

/// Objects that read from a byte stream they buffer themselves.
pub trait BufRead: Read {
    /// Copies bytes from the stream into `dst` up to and including the
    /// first occurrence of `b`, or to the end of the stream if `b` does
    /// not occur; returns how many bytes were copied.
    fn copy_until(&mut self, dst: &mut Vec<u8>, b: u8) -> Result<usize, Errno>;

    /// Removes up to `num` bytes from the front of the buffer, returning
    /// how many were actually there to remove.
    fn consume(&mut self, num: usize) -> usize;
}

/// An in-memory stream read from front to back.
pub struct MemReader {
    data: Vec<u8>,
    pos: usize,
}

impl MemReader {
    #[verifier::type_invariant]
    spec fn type_inv(self) -> bool {
        self.pos <= self.data@.len()
    }

    /// The bytes not yet consumed.
    pub closed spec fn stream(&self) -> Seq<u8> {
        self.data@.skip(self.pos as int)
    }

    /// Wraps a byte buffer as a stream positioned at its start.
    pub fn new(data: Vec<u8>) -> (r: MemReader)
        ensures
            r.stream() == data@,
    {
        let r = MemReader { data, pos: 0 };
        proof {
            assert(r.stream() =~= r.data@);
        }
        r
    }

    /// How many bytes remain.
    pub fn remaining(&self) -> (n: usize)
        ensures
            n == self.stream().len(),
    {
        proof {
            use_type_invariant(self);
        }
        self.data.len() - self.pos
    }
}

impl Read for MemReader {
    /// Hands out the next `n` buffered bytes, or all that remain if fewer.
    fn read(&mut self, n: usize) -> (r: Result<Vec<u8>, Errno>)
        ensures
            (r matches Ok(v) ==> {
                let k = if n <= old(self).stream().len() {
                    n as int
                } else {
                    old(self).stream().len() as int
                };
                v@ == old(self).stream().take(k) && final(self).stream() == old(
                    self,
                ).stream().skip(k)
            }),
            r is Ok,
    {
        proof {
            use_type_invariant(&*self);
        }
        let avail = self.data.len() - self.pos;
        let k = if n <= avail {
            n
        } else {
            avail
        };
        let out = bytes_between(self.data.as_slice(), self.pos, self.pos + k);
        self.pos = self.pos + k;
        proof {
            assert(out@ =~= old(self).stream().take(k as int));
            assert(self.stream() =~= old(self).stream().skip(k as int));
        }
        Ok(out)
    }
}

impl BufRead for MemReader {
    /// Copies everything up to and including the first `b`, or the whole
    /// rest of the stream when `b` does not occur.
    fn copy_until(&mut self, dst: &mut Vec<u8>, b: u8) -> (r: Result<usize, Errno>)
        ensures
            ({
                let rem = old(self).stream();
                let k = if contains_byte(rem, b) {
                    first_index_of(rem, b) + 1
                } else {
                    rem.len() as int
                };
                r == Ok::<usize, Errno>(k as usize) && final(dst)@ == old(dst)@ + rem.take(k)
                    && final(self).stream() == rem.skip(k)
            }),
    {
        proof {
            use_type_invariant(&*self);
        }
        let rest = bytes_between(self.data.as_slice(), self.pos, self.data.len());
        proof {
            assert(rest@ =~= old(self).stream());
        }
        let k = match memchr_first(b, rest.as_slice()) {
            Some(idx) => {
                proof {
                    lemma_first_index_of(rest@, b, idx as int);
                }
                idx + 1
            },
            None => rest.len(),
        };
        let mut chunk = bytes_between(rest.as_slice(), 0, k);
        proof {
            assert(chunk@ =~= old(self).stream().take(k as int));
        }
        dst.append(&mut chunk);
        self.pos = self.pos + k;
        proof {
            assert(self.stream() =~= old(self).stream().skip(k as int));
        }
        Ok(k)
    }

    /// Skips up to `num` buffered bytes.
    fn consume(&mut self, num: usize) -> (n: usize)
        ensures
            n == if num <= old(self).stream().len() {
                num as int
            } else {
                old(self).stream().len() as int
            },
            final(self).stream() == old(self).stream().skip(n as int),
    {
        proof {
            use_type_invariant(&*self);
        }
        let avail = self.data.len() - self.pos;
        let n = if num <= avail {
            num
        } else {
            avail
        };
        self.pos = self.pos + n;
        proof {
            assert(self.stream() =~= old(self).stream().skip(n as int));
        }
        n
    }
}

/// An in-memory sink of a fixed capacity, filled from its start.
pub struct MemWriter {
    buf: Vec<u8>,
    cap: usize,
}

impl MemWriter {
    #[verifier::type_invariant]
    spec fn type_inv(self) -> bool {
        self.buf@.len() <= self.cap
    }

    /// The bytes written so far.
    pub closed spec fn contents(&self) -> Seq<u8> {
        self.buf@
    }

    /// The sink's capacity.
    pub closed spec fn capacity(&self) -> nat {
        self.cap as nat
    }

    /// An empty sink that accepts `cap` bytes.
    pub fn new(cap: usize) -> (r: MemWriter)
        ensures
            r.contents() == Seq::<u8>::empty(),
            r.capacity() == cap,
    {
        let r = MemWriter { buf: Vec::new(), cap };
        proof {
            assert(r.contents() =~= Seq::<u8>::empty());
        }
        r
    }

    /// How much room is left.
    pub fn room(&self) -> (n: usize)
        ensures
            n == self.capacity() - self.contents().len(),
    {
        proof {
            use_type_invariant(self);
        }
        self.cap - self.buf.len()
    }

    /// The written bytes, giving up the sink.
    pub fn into_vec(self) -> (r: Vec<u8>)
        ensures
            r@ == self.contents(),
    {
        let MemWriter { buf, cap: _ } = self;
        buf
    }
}

impl Write for MemWriter {
    /// Takes as much of the front of `buf` as the remaining room allows.
    fn write(&mut self, buf: &[u8]) -> (r: Result<usize, Errno>)
        ensures
            ({
                let k = if buf@.len() <= old(self).capacity() - old(self).contents().len() {
                    buf@.len() as int
                } else {
                    old(self).capacity() - old(self).contents().len()
                };
                r == Ok::<usize, Errno>(k as usize) && final(self).contents() == old(
                    self,
                ).contents() + buf@.take(k) && final(self).capacity() == old(self).capacity()
            }),
    {
        proof {
            use_type_invariant(&*self);
        }
        let room = self.cap - self.buf.len();
        let k = if buf.len() <= room {
            buf.len()
        } else {
            room
        };
        let mut chunk = bytes_between(buf, 0, k);
        proof {
            assert(chunk@ =~= buf@.take(k as int));
        }
        let mut grown = bytes_between(self.buf.as_slice(), 0, self.buf.len());
        proof {
            assert(grown@ =~= self.buf@);
        }
        grown.append(&mut chunk);
        self.buf = grown;
        Ok(k)
    }

    /// Nothing is buffered beyond the sink itself.
    fn flush(&mut self) -> (r: Result<(), Errno>)
        ensures
            final(self).contents() == old(self).contents(),
            final(self).capacity() == old(self).capacity(),
            r is Ok,
    {
        Ok(())
    }
}

} // verus!
