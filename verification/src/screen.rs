//! Where the pixels of the screen lie in the memory of the process that
//! draws them.
//!
//! The process keeps the address of its framebuffer in one machine word at
//! a fixed place of its own memory image.  That word, read once at startup,
//! and the geometry of the screen give the span of memory that every frame
//! is read from.

use crate::io::from_be32;
use crate::touch::ByteOrder;
use vstd::prelude::*;
use vstd::slice::slice_subrange;

verus! {

/// Where the process keeps the address of its framebuffer.  The place
/// belongs to one build of the program that draws the screen.
pub const FRAMEBUFFER_POINTER_ADDRESS: u64 = 0x004a_c7f8;

/// The value that four bytes stand for, least significant first.
pub open spec fn from_le32(s: Seq<u8>) -> u32
    recommends
        s.len() == 4,
{
    (s[3] * 0x100_0000 + s[2] * 0x1_0000 + s[1] * 0x100 + s[0]) as u32
}

/// The value that four bytes in the given order stand for.
pub open spec fn from_ordered32(order: ByteOrder, s: Seq<u8>) -> u32
    recommends
        s.len() == 4,
{
    match order {
        ByteOrder::Little => from_le32(s),
        ByteOrder::Big => from_be32(s),
    }
}

/// The value of a machine word of four or eight bytes in the given order.
pub open spec fn word_value(order: ByteOrder, word: Seq<u8>) -> nat
    recommends
        word.len() == 4 || word.len() == 8,
{
    if word.len() == 4 {
        from_ordered32(order, word) as nat
    } else {
        match order {
            ByteOrder::Little => (from_le32(word.subrange(4, 8)) * 0x1_0000_0000 + from_le32(
                word.subrange(0, 4),
            )) as nat,
            ByteOrder::Big => (from_be32(word.subrange(0, 4)) * 0x1_0000_0000 + from_be32(
                word.subrange(4, 8),
            )) as nat,
        }
    }
}

/// The number of bytes of one frame: a pixel of `pixel_bytes` bytes for
/// every point of the screen.
pub open spec fn frame_len(width: u16, height: u16, pixel_bytes: u8) -> nat {
    (width as nat) * (height as nat) * (pixel_bytes as nat)
}

/// Why the screen memory cannot be described, or not be read.
#[derive(Clone, Copy, Debug, PartialEq, Eq, Structural)]
pub enum ScreenError {
    /// The pointer word has neither four nor eight bytes.
    PointerWidth,
    /// A frame has more bytes than the host can address.
    FrameTooLarge,
    /// The buffer that is to take a frame is smaller than a frame.
    BufferTooSmall,
}

/// A span of memory: where it starts and how many bytes it has.
#[derive(Clone, Copy, Debug, PartialEq, Eq, Structural)]
pub struct Span {
    pub offset: u64,
    pub len: usize,
}

/// The span of the target's memory that holds the frame.
#[derive(Clone, Copy, Debug, PartialEq, Eq, Structural)]
pub struct ScreenMemory {
    off: u64,
    len: usize,
}

fn ordered_u32(order: ByteOrder, bytes: &[u8]) -> (r: u32)
    requires
        bytes@.len() == 4,
    ensures
        r == from_ordered32(order, bytes@),
{
    let (b0, b1, b2, b3) = match order {
        ByteOrder::Little => (bytes[3], bytes[2], bytes[1], bytes[0]),
        ByteOrder::Big => (bytes[0], bytes[1], bytes[2], bytes[3]),
    };
    (b0 as u32) * 0x100_0000 + (b1 as u32) * 0x1_0000 + (b2 as u32) * 0x100 + (b3 as u32)
}

impl ScreenMemory {
    /// Where the frame starts in the target's memory.
    pub closed spec fn start(&self) -> u64 {
        self.off
    }

    /// How many bytes the frame has.
    pub closed spec fn size(&self) -> usize {
        self.len
    }

    /// Describes the frame from the pointer word, as it was read at
    /// `FRAMEBUFFER_POINTER_ADDRESS` in the byte order `order`, and from the
    /// geometry of the screen.
    ///
    /// The frame starts at the address that the word holds and has
    /// `width * height * pixel_bytes` bytes.
    pub fn new(order: ByteOrder, word: &[u8], width: u16, height: u16, pixel_bytes: u8) -> (r:
        Result<ScreenMemory, ScreenError>)
        ensures
            match r {
                Ok(screen) => {
                    &&& word@.len() == 4 || word@.len() == 8
                    &&& screen.start() == word_value(order, word@)
                    &&& screen.size() == frame_len(width, height, pixel_bytes)
                },
                Err(ScreenError::PointerWidth) => word@.len() != 4 && word@.len() != 8,
                Err(ScreenError::FrameTooLarge) => {
                    &&& word@.len() == 4 || word@.len() == 8
                    &&& frame_len(width, height, pixel_bytes) > usize::MAX
                },
                Err(ScreenError::BufferTooSmall) => false,
            },
    {
        let off: u64 = if word.len() == 4 {
            ordered_u32(order, word) as u64
        } else if word.len() == 8 {
            let first = ordered_u32(order, slice_subrange(word, 0, 4)) as u64;
            let second = ordered_u32(order, slice_subrange(word, 4, 8)) as u64;
            match order {
                ByteOrder::Little => second * 0x1_0000_0000 + first,
                ByteOrder::Big => first * 0x1_0000_0000 + second,
            }
        } else {
            return Err(ScreenError::PointerWidth);
        };
        assert((width as u64) * (height as u64) <= 0xffff * 0xffff) by (nonlinear_arith)
            requires
                width <= 0xffff,
                height <= 0xffff,
        ;
        let points: u64 = (width as u64) * (height as u64);
        assert(points * (pixel_bytes as u64) <= 0xffff * 0xffff * 0xff) by (nonlinear_arith)
            requires
                points <= 0xffff * 0xffff,
                pixel_bytes <= 0xff,
        ;
        let len: u64 = points * (pixel_bytes as u64);
        if len > usize::MAX as u64 {
            return Err(ScreenError::FrameTooLarge);
        }
        Ok(ScreenMemory { off, len: len as usize })
    }

    /// How many bytes the frame has.
    pub fn len(&self) -> (n: usize)
        ensures
            n == self.size(),
    {
        self.len
    }

    /// Where the frame starts in the target's memory.
    pub fn offset(&self) -> (off: u64)
        ensures
            off == self.start(),
    {
        self.off
    }

    /// Plans the read of one frame into a buffer of `capacity` bytes.
    ///
    /// Fails when the buffer is smaller than the frame.  Otherwise the
    /// result is the span to read: from the start of the frame, exactly
    /// the frame's length, no byte less.
    pub fn read(&self, capacity: usize) -> (r: Result<Span, ScreenError>)
        ensures
            capacity < self.size() ==> r == Err::<Span, ScreenError>(ScreenError::BufferTooSmall),
            capacity >= self.size() ==> r == Ok::<Span, ScreenError>(
                Span { offset: self.start(), len: self.size() },
            ),
    {
        if capacity < self.len {
            return Err(ScreenError::BufferTooSmall);
        }
        Ok(Span { offset: self.off, len: self.len })
    }
}

} // verus!
