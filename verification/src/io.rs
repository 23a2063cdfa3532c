//! Big-endian wire primitives and the in-memory byte streams they read from
//! and write to.
//!
//! Every protocol field on the wire is an unsigned 8-, 16- or 32-bit integer
//! or a signed 32-bit integer, most significant byte first.  The spec
//! functions of this module say what those bytes are; `ReadBytesExt` and
//! `WriteBytesExt` move them out of a `Source` and into a `Sink`.

use vstd::prelude::*;
use vstd::slice::{slice_subrange, slice_to_vec};

verus! {

/// The two bytes of `v` on the wire, most significant first.
pub open spec fn be16(v: u16) -> Seq<u8> {
    seq![(v / 0x100) as u8, (v % 0x100) as u8]
}

/// The value that two wire bytes stand for.
pub open spec fn from_be16(s: Seq<u8>) -> u16
    recommends
        s.len() == 2,
{
    (s[0] * 0x100 + s[1]) as u16
}

/// The four bytes of `v` on the wire, most significant first.
pub open spec fn be32(v: u32) -> Seq<u8> {
    seq![
        (v / 0x100_0000) as u8,
        ((v / 0x1_0000) % 0x100) as u8,
        ((v / 0x100) % 0x100) as u8,
        (v % 0x100) as u8,
    ]
}

/// The value that four wire bytes stand for.
pub open spec fn from_be32(s: Seq<u8>) -> u32
    recommends
        s.len() == 4,
{
    (s[0] * 0x100_0000 + s[1] * 0x1_0000 + s[2] * 0x100 + s[3]) as u32
}

/// The two's-complement bit pattern of a signed 32-bit value.
pub open spec fn bits_of_i32(v: i32) -> u32 {
    if v >= 0 {
        v as u32
    } else {
        (v + 0x1_0000_0000) as u32
    }
}

/// The signed value of a 32-bit two's-complement bit pattern.
pub open spec fn i32_of_bits(u: u32) -> i32 {
    if u < 0x8000_0000 {
        u as i32
    } else {
        (u - 0x1_0000_0000) as i32
    }
}

/// The four bytes of a signed `v` on the wire: its two's-complement
/// pattern, most significant byte first.
pub open spec fn be32_signed(v: i32) -> Seq<u8> {
    be32(bits_of_i32(v))
}

/// The signed value that four wire bytes stand for.
pub open spec fn from_be32_signed(s: Seq<u8>) -> i32
    recommends
        s.len() == 4,
{
    i32_of_bits(from_be32(s))
}

/// Encoding a 16-bit value and decoding the bytes gives the value back, and
/// decoding two bytes and encoding the value gives the bytes back.
pub proof fn lemma_be16_round_trip(v: u16, s: Seq<u8>)
    ensures
        be16(v).len() == 2,
        from_be16(be16(v)) == v,
        s.len() == 2 ==> be16(from_be16(s)) == s,
{
    if s.len() == 2 {
        assert(be16(from_be16(s)) =~= s);
    }
}

proof fn lemma_split_u32(v: u32)
    ensures
        v == (v / 0x100_0000) * 0x100_0000 + ((v / 0x1_0000) % 0x100) * 0x1_0000 + ((v / 0x100)
            % 0x100) * 0x100 + v % 0x100,
{
    assert(v == (v / 0x100_0000) * 0x100_0000 + ((v / 0x1_0000) % 0x100) * 0x1_0000 + ((v / 0x100)
        % 0x100) * 0x100 + v % 0x100) by (bit_vector);
}

proof fn lemma_join_u32(a: u8, b: u8, c: u8, d: u8) -> (v: u32)
    ensures
        v == a * 0x100_0000 + b * 0x1_0000 + c * 0x100 + d,
        v / 0x100_0000 == a,
        (v / 0x1_0000) % 0x100 == b,
        (v / 0x100) % 0x100 == c,
        v % 0x100 == d,
{
    let v = (a * 0x100_0000 + b * 0x1_0000 + c * 0x100 + d) as u32;
    assert(v == a * 0x100_0000 + b * 0x1_0000 + c * 0x100 + d ==> v / 0x100_0000 == a && (v
        / 0x1_0000) % 0x100 == b && (v / 0x100) % 0x100 == c && v % 0x100 == d) by (bit_vector);
    v
}

/// Encoding a 32-bit value and decoding the bytes gives the value back, and
/// decoding four bytes and encoding the value gives the bytes back.
pub proof fn lemma_be32_round_trip(v: u32, s: Seq<u8>)
    ensures
        be32(v).len() == 4,
        from_be32(be32(v)) == v,
        s.len() == 4 ==> be32(from_be32(s)) == s,
{
    lemma_split_u32(v);
    if s.len() == 4 {
        let joined = lemma_join_u32(s[0], s[1], s[2], s[3]);
        assert(from_be32(s) == joined);
        assert(be32(joined) =~= s);
    }
}

/// A signed 32-bit value survives the passage through its bit pattern, and
/// through its four wire bytes.
pub proof fn lemma_be32_signed_round_trip(v: i32, s: Seq<u8>)
    ensures
        i32_of_bits(bits_of_i32(v)) == v,
        be32_signed(v).len() == 4,
        from_be32_signed(be32_signed(v)) == v,
        s.len() == 4 ==> be32_signed(from_be32_signed(s)) == s,
{
    lemma_be32_round_trip(bits_of_i32(v), s);
    if s.len() == 4 {
        assert(bits_of_i32(i32_of_bits(from_be32(s))) == from_be32(s));
    }
}

/// Why a stream operation did not take place.
#[derive(Clone, Copy, Debug, PartialEq, Eq, Structural)]
pub enum StreamError {
    /// The source holds fewer bytes than were asked for.
    UnexpectedEof,
    /// The sink does not take the bytes.
    WriteZero,
}

/// A stream of bytes to read from.  `pending` is what has not been read.
pub trait Source {
    /// The bytes that are still to be read, in order.
    spec fn pending(&self) -> Seq<u8>;

    /// Takes exactly `n` bytes off the front.  Fails, consuming nothing,
    /// exactly when fewer than `n` bytes are pending.
    fn read_exact(&mut self, n: usize) -> (r: Result<Vec<u8>, StreamError>)
        ensures
            match r {
                Ok(bytes) => {
                    &&& n <= old(self).pending().len()
                    &&& bytes@ == old(self).pending().take(n as int)
                    &&& final(self).pending() == old(self).pending().skip(n as int)
                },
                Err(e) => {
                    &&& n > old(self).pending().len()
                    &&& e == StreamError::UnexpectedEof
                    &&& final(self).pending() == old(self).pending()
                },
            },
    ;
}

/// A stream of bytes to write to.  `written` is what it has taken so far.
pub trait Sink {
    /// The bytes written so far, in order.
    spec fn written(&self) -> Seq<u8>;

    /// Whether the sink, as it stands, takes `n` more bytes.
    spec fn accepts(&self, n: nat) -> bool;

    /// Appends all of `bytes`.  Fails, writing nothing, exactly when the
    /// sink does not accept that many bytes.
    fn write_all(&mut self, bytes: &[u8]) -> (r: Result<(), StreamError>)
        ensures
            match r {
                Ok(_) => {
                    &&& old(self).accepts(bytes@.len())
                    &&& final(self).written() == old(self).written() + bytes@
                },
                Err(e) => {
                    &&& !old(self).accepts(bytes@.len())
                    &&& e == StreamError::WriteZero
                    &&& final(self).written() == old(self).written()
                },
            },
    ;
}

/// Reads of the wire's integer primitives, for every `Source`.
pub trait ReadBytesExt: Source {
    /// Reads one byte.
    fn read_u8(&mut self) -> (r: Result<u8, StreamError>)
        ensures
            match r {
                Ok(v) => {
                    &&& 1 <= old(self).pending().len()
                    &&& v == old(self).pending()[0]
                    &&& final(self).pending() == old(self).pending().skip(1)
                },
                Err(e) => {
                    &&& old(self).pending().len() < 1
                    &&& e == StreamError::UnexpectedEof
                    &&& final(self).pending() == old(self).pending()
                },
            },
    {
        let buf = self.read_exact(1)?;
        Ok(buf[0])
    }

    /// Reads a big-endian unsigned 16-bit value.
    fn read_u16_from_be(&mut self) -> (r: Result<u16, StreamError>)
        ensures
            match r {
                Ok(v) => {
                    &&& 2 <= old(self).pending().len()
                    &&& v == from_be16(old(self).pending().take(2))
                    &&& final(self).pending() == old(self).pending().skip(2)
                },
                Err(e) => {
                    &&& old(self).pending().len() < 2
                    &&& e == StreamError::UnexpectedEof
                    &&& final(self).pending() == old(self).pending()
                },
            },
    {
        let buf = self.read_exact(2)?;
        Ok(u16_from_be_bytes([buf[0], buf[1]]))
    }

    /// Reads a big-endian unsigned 32-bit value.
    fn read_u32_from_be(&mut self) -> (r: Result<u32, StreamError>)
        ensures
            match r {
                Ok(v) => {
                    &&& 4 <= old(self).pending().len()
                    &&& v == from_be32(old(self).pending().take(4))
                    &&& final(self).pending() == old(self).pending().skip(4)
                },
                Err(e) => {
                    &&& old(self).pending().len() < 4
                    &&& e == StreamError::UnexpectedEof
                    &&& final(self).pending() == old(self).pending()
                },
            },
    {
        let buf = self.read_exact(4)?;
        Ok(u32_from_be_bytes([buf[0], buf[1], buf[2], buf[3]]))
    }

    /// Reads a big-endian signed 32-bit value.
    fn read_i32_from_be(&mut self) -> (r: Result<i32, StreamError>)
        ensures
            match r {
                Ok(v) => {
                    &&& 4 <= old(self).pending().len()
                    &&& v == from_be32_signed(old(self).pending().take(4))
                    &&& final(self).pending() == old(self).pending().skip(4)
                },
                Err(e) => {
                    &&& old(self).pending().len() < 4
                    &&& e == StreamError::UnexpectedEof
                    &&& final(self).pending() == old(self).pending()
                },
            },
    {
        let buf = self.read_exact(4)?;
        Ok(i32_from_be_bytes([buf[0], buf[1], buf[2], buf[3]]))
    }
}

impl<R: Source> ReadBytesExt for R {

}

/// Writes of the wire's integer primitives, for every `Sink`.
pub trait WriteBytesExt: Sink {
    /// Writes one byte.
    fn write_u8(&mut self, v: u8) -> (r: Result<(), StreamError>)
        ensures
            match r {
                Ok(_) => {
                    &&& old(self).accepts(1)
                    &&& final(self).written() == old(self).written().push(v)
                },
                Err(e) => {
                    &&& !old(self).accepts(1)
                    &&& e == StreamError::WriteZero
                    &&& final(self).written() == old(self).written()
                },
            },
    {
        let buf = [v];
        proof {
            assert(old(self).written() + buf@ =~= old(self).written().push(v));
        }
        self.write_all(buf.as_slice())
    }

    /// Writes an unsigned 16-bit value, most significant byte first.
    fn write_u16_as_be(&mut self, v: u16) -> (r: Result<(), StreamError>)
        ensures
            match r {
                Ok(_) => {
                    &&& old(self).accepts(2)
                    &&& final(self).written() == old(self).written() + be16(v)
                },
                Err(e) => {
                    &&& !old(self).accepts(2)
                    &&& e == StreamError::WriteZero
                    &&& final(self).written() == old(self).written()
                },
            },
    {
        let buf = u16_to_be_bytes(v);
        self.write_all(buf.as_slice())
    }

    /// Writes an unsigned 32-bit value, most significant byte first.
    fn write_u32_as_be(&mut self, v: u32) -> (r: Result<(), StreamError>)
        ensures
            match r {
                Ok(_) => {
                    &&& old(self).accepts(4)
                    &&& final(self).written() == old(self).written() + be32(v)
                },
                Err(e) => {
                    &&& !old(self).accepts(4)
                    &&& e == StreamError::WriteZero
                    &&& final(self).written() == old(self).written()
                },
            },
    {
        let buf = u32_to_be_bytes(v);
        self.write_all(buf.as_slice())
    }

    /// Writes a signed 32-bit value, most significant byte first.
    fn write_i32_as_be(&mut self, v: i32) -> (r: Result<(), StreamError>)
        ensures
            match r {
                Ok(_) => {
                    &&& old(self).accepts(4)
                    &&& final(self).written() == old(self).written() + be32_signed(v)
                },
                Err(e) => {
                    &&& !old(self).accepts(4)
                    &&& e == StreamError::WriteZero
                    &&& final(self).written() == old(self).written()
                },
            },
    {
        let buf = i32_to_be_bytes(v);
        self.write_all(buf.as_slice())
    }
}

impl<W: Sink> WriteBytesExt for W {

}

/// The big-endian bytes of an unsigned 16-bit value.
pub fn u16_to_be_bytes(v: u16) -> (r: [u8; 2])
    ensures
        r@ == be16(v),
{
    let r = [(v / 0x100) as u8, (v % 0x100) as u8];
    assert(r@ =~= be16(v));
    r
}

/// The unsigned 16-bit value of two big-endian bytes.
pub fn u16_from_be_bytes(b: [u8; 2]) -> (r: u16)
    ensures
        r == from_be16(b@),
{
    (b[0] as u16) * 0x100 + (b[1] as u16)
}

/// The big-endian bytes of an unsigned 32-bit value.
pub fn u32_to_be_bytes(v: u32) -> (r: [u8; 4])
    ensures
        r@ == be32(v),
{
    let r = [
        (v / 0x100_0000) as u8,
        ((v / 0x1_0000) % 0x100) as u8,
        ((v / 0x100) % 0x100) as u8,
        (v % 0x100) as u8,
    ];
    assert(r@ =~= be32(v));
    r
}

/// The unsigned 32-bit value of four big-endian bytes.
pub fn u32_from_be_bytes(b: [u8; 4]) -> (r: u32)
    ensures
        r == from_be32(b@),
{
    (b[0] as u32) * 0x100_0000 + (b[1] as u32) * 0x1_0000 + (b[2] as u32) * 0x100 + (b[3] as u32)
}

/// The big-endian two's-complement bytes of a signed 32-bit value.
pub fn i32_to_be_bytes(v: i32) -> (r: [u8; 4])
    ensures
        r@ == be32_signed(v),
{
    let bits: u32 = if v >= 0 {
        v as u32
    } else {
        (v as i64 + 0x1_0000_0000) as u32
    };
    u32_to_be_bytes(bits)
}

/// The signed 32-bit value of four big-endian two's-complement bytes.
pub fn i32_from_be_bytes(b: [u8; 4]) -> (r: i32)
    ensures
        r == from_be32_signed(b@),
{
    let bits = u32_from_be_bytes(b);
    if bits < 0x8000_0000 {
        bits as i32
    } else {
        (bits as i64 - 0x1_0000_0000) as i32
    }
}

/// A `Source` over a borrowed run of bytes.
pub struct ByteReader<'a> {
    rest: &'a [u8],
}

impl<'a> ByteReader<'a> {
    /// A reader with all of `bytes` pending.
    pub fn new(bytes: &'a [u8]) -> (r: Self)
        ensures
            r.pending() == bytes@,
    {
        ByteReader { rest: bytes }
    }

    /// How many bytes are still unread.
    pub fn remaining(&self) -> (n: usize)
        ensures
            n == self.pending().len(),
    {
        self.rest.len()
    }
}

impl<'a> Source for ByteReader<'a> {
    closed spec fn pending(&self) -> Seq<u8> {
        self.rest@
    }

    fn read_exact(&mut self, n: usize) -> (r: Result<Vec<u8>, StreamError>) {
        let len = self.rest.len();
        if n <= len {
            let bytes = slice_to_vec(slice_subrange(self.rest, 0, n));
            self.rest = slice_subrange(self.rest, n, len);
            Ok(bytes)
        } else {
            Err(StreamError::UnexpectedEof)
        }
    }
}

/// A growable byte vector takes every write.
impl Sink for Vec<u8> {
    open spec fn written(&self) -> Seq<u8> {
        self@
    }

    open spec fn accepts(&self, n: nat) -> bool {
        true
    }

    fn write_all(&mut self, bytes: &[u8]) -> (r: Result<(), StreamError>) {
        append(self, bytes);
        Ok(())
    }
}

/// A `Sink` in memory that holds no more than `limit` bytes.
#[derive(Debug, PartialEq, Eq)]
pub struct ByteWriter {
    /// What has been written.
    pub bytes: Vec<u8>,
    /// The number of bytes that the writer holds at most.
    pub limit: usize,
}

impl ByteWriter {
    /// An empty writer that takes `limit` bytes.
    pub fn with_limit(limit: usize) -> (w: ByteWriter)
        ensures
            w.written() == Seq::<u8>::empty(),
            w.limit == limit,
    {
        ByteWriter { bytes: Vec::new(), limit }
    }
}

impl Sink for ByteWriter {
    open spec fn written(&self) -> Seq<u8> {
        self.bytes@
    }

    open spec fn accepts(&self, n: nat) -> bool {
        self.bytes@.len() + n <= self.limit
    }

    fn write_all(&mut self, bytes: &[u8]) -> (r: Result<(), StreamError>)
        ensures
            final(self).limit == old(self).limit,
    {
        if self.bytes.len() > self.limit || bytes.len() > self.limit - self.bytes.len() {
            return Err(StreamError::WriteZero);
        }
        append(&mut self.bytes, bytes);
        Ok(())
    }
}

/// Appends all of `bytes` to `out`.
pub fn append(out: &mut Vec<u8>, bytes: &[u8])
    ensures
        final(out)@ == old(out)@ + bytes@,
{
    let mut i: usize = 0;
    while i < bytes.len()
        invariant
            i <= bytes@.len(),
            out@ == old(out)@ + bytes@.take(i as int),
        decreases bytes@.len() - i,
    {
        out.push(bytes[i]);
        i = i + 1;
        assert(out@ =~= old(out)@ + bytes@.take(i as int));
    }
    assert(bytes@.take(i as int) =~= bytes@);
}

/// Whether two runs of bytes are the same.
pub fn same_bytes(a: &[u8], b: &[u8]) -> (r: bool)
    ensures
        r == (a@ == b@),
{
    if a.len() != b.len() {
        return false;
    }
    let mut i: usize = 0;
    while i < a.len()
        invariant
            a@.len() == b@.len(),
            i <= a@.len(),
            a@.take(i as int) == b@.take(i as int),
        decreases a@.len() - i,
    {
        if a[i] != b[i] {
            assert(a@[i as int] != b@[i as int]);
            return false;
        }
        i = i + 1;
        assert(a@.take(i as int) =~= a@.take(i - 1).push(a@[i - 1]));
        assert(b@.take(i as int) =~= b@.take(i - 1).push(b@[i - 1]));
    }
    assert(a@.take(i as int) =~= a@);
    assert(b@.take(i as int) =~= b@);
    true
}

} // verus!
