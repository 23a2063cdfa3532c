//! The structures of the remote-framebuffer protocol, revision 3.8, and
//! their layouts on the wire.
//!
//! Each structure has a spec function `wire` that gives its bytes and a spec
//! function `parse` that reads them back; the executable encoders and
//! decoders are proved against these.

use crate::io::{
    be16, be32, be32_signed, from_be16, from_be32_signed, i32_from_be_bytes,
    lemma_be16_round_trip, lemma_be32_signed_round_trip, u16_from_be_bytes, Sink, Source,
    StreamError, WriteBytesExt,
};
use vstd::prelude::*;

verus! {

/// The byte that stands for a boolean on the wire.
pub open spec fn flag(b: bool) -> u8 {
    if b {
        1
    } else {
        0
    }
}

/// The version token of protocol revision 3.8: the text `RFB 003.008`
/// and a line feed.
pub open spec fn version_token() -> Seq<u8> {
    seq![0x52u8, 0x46, 0x42, 0x20, 0x30, 0x30, 0x33, 0x2e, 0x30, 0x30, 0x38, 0x0a]
}

/// The number of bytes of a version token.
pub const VERSION_LEN: usize = 12;

/// The version token that the server announces and requires.
pub fn server_version() -> (r: [u8; 12])
    ensures
        r@ == version_token(),
{
    let r = [0x52u8, 0x46, 0x42, 0x20, 0x30, 0x30, 0x33, 0x2e, 0x30, 0x30, 0x38, 0x0a];
    assert(r@ =~= version_token());
    r
}

/// A way for the client to prove who it is.
#[derive(Clone, Copy, Debug, PartialEq, Eq, Structural)]
pub enum SecurityType {
    /// No authentication: the one type that the server offers.
    NoAuthentication,
    /// Any other type, by its number on the wire.
    Other(u8),
}

impl SecurityType {
    /// `Other` never holds the number of a named type.
    pub open spec fn valid(self) -> bool {
        self matches SecurityType::Other(c) ==> c != 1
    }

    /// The number of the type on the wire.
    pub open spec fn code(self) -> u8 {
        match self {
            SecurityType::NoAuthentication => 1,
            SecurityType::Other(c) => c,
        }
    }

    /// The type that a number on the wire stands for.
    pub open spec fn of_code(c: u8) -> SecurityType {
        if c == 1 {
            SecurityType::NoAuthentication
        } else {
            SecurityType::Other(c)
        }
    }

    /// The number of the type on the wire.
    pub fn to_code(self) -> (c: u8)
        ensures
            c == self.code(),
    {
        match self {
            SecurityType::NoAuthentication => 1,
            SecurityType::Other(c) => c,
        }
    }

    /// The type that a number on the wire stands for.
    pub fn from_code(c: u8) -> (t: SecurityType)
        ensures
            t == SecurityType::of_code(c),
            t.valid(),
    {
        if c == 1 {
            SecurityType::NoAuthentication
        } else {
            SecurityType::Other(c)
        }
    }
}

/// How the pixels of a rectangle are written down.
#[derive(Clone, Copy, Debug, PartialEq, Eq, Structural)]
pub enum Encoding {
    /// Pixel after pixel, row after row, untransformed.
    Raw,
    /// Any other encoding, by its number on the wire.
    Other(i32),
}

impl Encoding {
    /// `Other` never holds the number of a named encoding.
    pub open spec fn valid(self) -> bool {
        self matches Encoding::Other(c) ==> c != 0
    }

    /// The number of the encoding on the wire.
    pub open spec fn code(self) -> i32 {
        match self {
            Encoding::Raw => 0,
            Encoding::Other(c) => c,
        }
    }

    /// The encoding that a number on the wire stands for.
    pub open spec fn of_code(c: i32) -> Encoding {
        if c == 0 {
            Encoding::Raw
        } else {
            Encoding::Other(c)
        }
    }

    /// The number of the encoding on the wire.
    pub fn to_code(self) -> (c: i32)
        ensures
            c == self.code(),
    {
        match self {
            Encoding::Raw => 0,
            Encoding::Other(c) => c,
        }
    }

    /// The encoding that a number on the wire stands for.
    pub fn from_code(c: i32) -> (e: Encoding)
        ensures
            e == Encoding::of_code(c),
            e.valid(),
    {
        if c == 0 {
            Encoding::Raw
        } else {
            Encoding::Other(c)
        }
    }
}

/// How a pixel value is laid out.
#[derive(Clone, Copy, Debug, PartialEq, Eq, Structural)]
pub struct PixelFormat {
    pub bits_per_pixel: u8,
    pub depth: u8,
    pub big_endian: bool,
    pub true_colour: bool,
    pub red_max: u16,
    pub green_max: u16,
    pub blue_max: u16,
    pub red_shift: u8,
    pub green_shift: u8,
    pub blue_shift: u8,
}

/// The number of bytes of a pixel format on the wire.
pub const PIXEL_FORMAT_LEN: usize = 16;

impl PixelFormat {
    /// The sixteen bytes of the format on the wire; the last three are
    /// padding and zero.
    pub open spec fn wire(self) -> Seq<u8> {
        seq![self.bits_per_pixel, self.depth, flag(self.big_endian), flag(self.true_colour)]
            + be16(self.red_max) + be16(self.green_max) + be16(self.blue_max) + seq![
            self.red_shift,
            self.green_shift,
            self.blue_shift,
            0u8,
            0u8,
            0u8,
        ]
    }

    /// The format that sixteen bytes stand for.  A flag is set by any byte
    /// but zero; the padding is not looked at.
    pub open spec fn parse(s: Seq<u8>) -> PixelFormat
        recommends
            s.len() == 16,
    {
        PixelFormat {
            bits_per_pixel: s[0],
            depth: s[1],
            big_endian: s[2] != 0,
            true_colour: s[3] != 0,
            red_max: from_be16(s.subrange(4, 6)),
            green_max: from_be16(s.subrange(6, 8)),
            blue_max: from_be16(s.subrange(8, 10)),
            red_shift: s[10],
            green_shift: s[11],
            blue_shift: s[12],
        }
    }

    /// Writes the format to `w`: all sixteen bytes, or nothing where `w`
    /// does not take them.
    pub fn write_to<W: Sink>(&self, w: &mut W) -> (r: Result<(), StreamError>)
        ensures
            match r {
                Ok(_) => {
                    &&& old(w).accepts(16)
                    &&& final(w).written() == old(w).written() + self.wire()
                },
                Err(e) => {
                    &&& !old(w).accepts(16)
                    &&& e == StreamError::WriteZero
                    &&& final(w).written() == old(w).written()
                },
            },
    {
        let mut buf: Vec<u8> = Vec::new();
        buf.write_u8(self.bits_per_pixel)?;
        buf.write_u8(self.depth)?;
        buf.write_u8(if self.big_endian { 1 } else { 0 })?;
        buf.write_u8(if self.true_colour { 1 } else { 0 })?;
        buf.write_u16_as_be(self.red_max)?;
        buf.write_u16_as_be(self.green_max)?;
        buf.write_u16_as_be(self.blue_max)?;
        buf.write_u8(self.red_shift)?;
        buf.write_u8(self.green_shift)?;
        buf.write_u8(self.blue_shift)?;
        buf.write_u8(0)?;
        buf.write_u8(0)?;
        buf.write_u8(0)?;
        assert(buf@ =~= self.wire());
        w.write_all(buf.as_slice())
    }

    /// Reads a format from `r`: sixteen bytes, or nothing where fewer are
    /// pending.
    pub fn read_from<R: Source>(r: &mut R) -> (res: Result<PixelFormat, StreamError>)
        ensures
            match res {
                Ok(format) => {
                    &&& 16 <= old(r).pending().len()
                    &&& format == PixelFormat::parse(old(r).pending().take(16))
                    &&& final(r).pending() == old(r).pending().skip(16)
                },
                Err(e) => {
                    &&& old(r).pending().len() < 16
                    &&& e == StreamError::UnexpectedEof
                    &&& final(r).pending() == old(r).pending()
                },
            },
    {
        let bytes = r.read_exact(PIXEL_FORMAT_LEN)?;
        Ok(PixelFormat::decode(bytes.as_slice()))
    }

    fn decode(bytes: &[u8]) -> (format: PixelFormat)
        requires
            bytes@.len() == 16,
        ensures
            format == PixelFormat::parse(bytes@),
    {
        PixelFormat {
            bits_per_pixel: bytes[0],
            depth: bytes[1],
            big_endian: bytes[2] != 0,
            true_colour: bytes[3] != 0,
            red_max: u16_from_be_bytes([bytes[4], bytes[5]]),
            green_max: u16_from_be_bytes([bytes[6], bytes[7]]),
            blue_max: u16_from_be_bytes([bytes[8], bytes[9]]),
            red_shift: bytes[10],
            green_shift: bytes[11],
            blue_shift: bytes[12],
        }
    }
}

/// Writing a pixel format down and reading it back gives the same format.
pub proof fn lemma_pixel_format_round_trip(format: PixelFormat)
    ensures
        format.wire().len() == 16,
        PixelFormat::parse(format.wire()) == format,
{
    let s = format.wire();
    lemma_be16_round_trip(format.red_max, s);
    lemma_be16_round_trip(format.green_max, s);
    lemma_be16_round_trip(format.blue_max, s);
    assert(s.subrange(4, 6) =~= be16(format.red_max));
    assert(s.subrange(6, 8) =~= be16(format.green_max));
    assert(s.subrange(8, 10) =~= be16(format.blue_max));
}

/// A rectangle of the framebuffer and the encoding of its pixels, as it
/// heads the pixel data of an update.
#[derive(Clone, Copy, Debug, PartialEq, Eq, Structural)]
pub struct Rectangle {
    pub x_position: u16,
    pub y_position: u16,
    pub width: u16,
    pub height: u16,
    pub encoding: Encoding,
}

/// The number of bytes of a rectangle header on the wire.
pub const RECTANGLE_LEN: usize = 12;

impl Rectangle {
    /// The twelve bytes of the header on the wire.
    pub open spec fn wire(self) -> Seq<u8> {
        be16(self.x_position) + be16(self.y_position) + be16(self.width) + be16(self.height)
            + be32_signed(self.encoding.code())
    }

    /// The header that twelve bytes stand for.
    pub open spec fn parse(s: Seq<u8>) -> Rectangle
        recommends
            s.len() == 12,
    {
        Rectangle {
            x_position: from_be16(s.subrange(0, 2)),
            y_position: from_be16(s.subrange(2, 4)),
            width: from_be16(s.subrange(4, 6)),
            height: from_be16(s.subrange(6, 8)),
            encoding: Encoding::of_code(from_be32_signed(s.subrange(8, 12))),
        }
    }

    /// Writes the header to `w`: all twelve bytes, or nothing where `w`
    /// does not take them.
    pub fn write_to<W: Sink>(&self, w: &mut W) -> (r: Result<(), StreamError>)
        ensures
            match r {
                Ok(_) => {
                    &&& old(w).accepts(12)
                    &&& final(w).written() == old(w).written() + self.wire()
                },
                Err(e) => {
                    &&& !old(w).accepts(12)
                    &&& e == StreamError::WriteZero
                    &&& final(w).written() == old(w).written()
                },
            },
    {
        let mut buf: Vec<u8> = Vec::new();
        buf.write_u16_as_be(self.x_position)?;
        buf.write_u16_as_be(self.y_position)?;
        buf.write_u16_as_be(self.width)?;
        buf.write_u16_as_be(self.height)?;
        buf.write_i32_as_be(self.encoding.to_code())?;
        assert(buf@ =~= self.wire());
        w.write_all(buf.as_slice())
    }

    /// Reads a header from `r`: twelve bytes, or nothing where fewer are
    /// pending.
    pub fn read_from<R: Source>(r: &mut R) -> (res: Result<Rectangle, StreamError>)
        ensures
            match res {
                Ok(rectangle) => {
                    &&& 12 <= old(r).pending().len()
                    &&& rectangle == Rectangle::parse(old(r).pending().take(12))
                    &&& final(r).pending() == old(r).pending().skip(12)
                },
                Err(e) => {
                    &&& old(r).pending().len() < 12
                    &&& e == StreamError::UnexpectedEof
                    &&& final(r).pending() == old(r).pending()
                },
            },
    {
        let bytes = r.read_exact(RECTANGLE_LEN)?;
        Ok(Rectangle::decode(bytes.as_slice()))
    }

    fn decode(bytes: &[u8]) -> (rectangle: Rectangle)
        requires
            bytes@.len() == 12,
        ensures
            rectangle == Rectangle::parse(bytes@),
            rectangle.encoding.valid(),
    {
        Rectangle {
            x_position: u16_from_be_bytes([bytes[0], bytes[1]]),
            y_position: u16_from_be_bytes([bytes[2], bytes[3]]),
            width: u16_from_be_bytes([bytes[4], bytes[5]]),
            height: u16_from_be_bytes([bytes[6], bytes[7]]),
            encoding: Encoding::from_code(i32_from_be_bytes([bytes[8], bytes[9], bytes[10], bytes[11]])),
        }
    }
}

/// Writing a rectangle header down and reading it back gives the same
/// header.
pub proof fn lemma_rectangle_round_trip(rectangle: Rectangle)
    requires
        rectangle.encoding.valid(),
    ensures
        rectangle.wire().len() == 12,
        Rectangle::parse(rectangle.wire()) == rectangle,
{
    let s = rectangle.wire();
    lemma_be16_round_trip(rectangle.x_position, s);
    lemma_be16_round_trip(rectangle.y_position, s);
    lemma_be16_round_trip(rectangle.width, s);
    lemma_be16_round_trip(rectangle.height, s);
    lemma_be32_signed_round_trip(rectangle.encoding.code(), s);
    assert(s.subrange(0, 2) =~= be16(rectangle.x_position));
    assert(s.subrange(2, 4) =~= be16(rectangle.y_position));
    assert(s.subrange(4, 6) =~= be16(rectangle.width));
    assert(s.subrange(6, 8) =~= be16(rectangle.height));
    assert(s.subrange(8, 12) =~= be32_signed(rectangle.encoding.code()));
}

/// The message that ends the handshake: the geometry of the framebuffer,
/// the format of its pixels and the name of the desktop.
#[derive(Debug, PartialEq, Eq)]
pub struct ServerInit {
    pub framebuffer_width: u16,
    pub framebuffer_height: u16,
    pub pixel_format: PixelFormat,
    pub name: Vec<u8>,
}

/// A `ServerInit` as a mathematical value.
pub struct ServerInitView {
    pub framebuffer_width: u16,
    pub framebuffer_height: u16,
    pub pixel_format: PixelFormat,
    pub name: Seq<u8>,
}

impl View for ServerInit {
    type V = ServerInitView;

    open spec fn view(&self) -> ServerInitView {
        ServerInitView {
            framebuffer_width: self.framebuffer_width,
            framebuffer_height: self.framebuffer_height,
            pixel_format: self.pixel_format,
            name: self.name@,
        }
    }
}

impl ServerInitView {
    /// Whether the message can be written down: the length of the name
    /// fits its field.
    pub open spec fn valid(self) -> bool {
        self.name.len() <= 0xffff_ffff
    }

    /// The bytes of the message on the wire: width, height, pixel format,
    /// the length of the name and the name.
    pub open spec fn wire(self) -> Seq<u8> {
        be16(self.framebuffer_width) + be16(self.framebuffer_height) + self.pixel_format.wire()
            + be32(self.name.len() as u32) + self.name
    }
}

impl ServerInit {
    /// The bytes of the message on the wire, or nothing where the length
    /// of the name does not fit its field.
    pub fn encode(&self) -> (bytes: Option<Vec<u8>>)
        ensures
            match bytes {
                Some(bytes) => self@.valid() && bytes@ == self@.wire(),
                None => !self@.valid(),
            },
    {
        if self.name.len() > 0xffff_ffff {
            return None;
        }
        let mut buf: Vec<u8> = Vec::new();
        let _ = buf.write_u16_as_be(self.framebuffer_width);
        let _ = buf.write_u16_as_be(self.framebuffer_height);
        let _ = self.pixel_format.write_to(&mut buf);
        let _ = buf.write_u32_as_be(self.name.len() as u32);
        let _ = buf.write_all(self.name.as_slice());
        assert(buf@ =~= self@.wire());
        Some(buf)
    }
}

/// The message by which the server offers its security types: their
/// count, then one byte for each.
pub open spec fn security_types_wire(types: Seq<SecurityType>) -> Seq<u8>
    recommends
        types.len() <= 0xff,
{
    seq![types.len() as u8] + Seq::new(types.len(), |i: int| types[i].code())
}

/// The result of the security handshake on the wire: zero says that it
/// succeeded.
pub open spec fn security_result_wire(succeeded: bool) -> Seq<u8> {
    be32(
        if succeeded {
            0
        } else {
            1
        },
    )
}

/// What precedes the rectangles of a framebuffer update: the kind byte of
/// the message, a byte of padding and the number of rectangles.
pub open spec fn framebuffer_update_wire(rectangles: u16) -> Seq<u8> {
    seq![0u8, 0u8] + be16(rectangles)
}

} // verus!
