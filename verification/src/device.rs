//! The device that the server was made for: a tablet with a portrait
//! screen of 1404 by 1872 points, two bytes to the pixel.

use crate::protocol::{PixelFormat, ServerInit};
use vstd::prelude::*;

verus! {

/// The width of the screen, in points.
pub const SCREEN_WIDTH: u16 = 1404;

/// The height of the screen, in points.
pub const SCREEN_HEIGHT: u16 = 1872;

/// The number of bytes of a pixel.
pub const PIXEL_BYTE_DEPTH: u8 = 2;

/// Whether a pixel has its most significant byte first.
pub const PIXEL_IS_BIG_ENDIAN: bool = false;

/// The name under which the desktop presents itself: `remarkable2`.
pub open spec fn desktop_name() -> Seq<u8> {
    seq![0x72u8, 0x65, 0x6d, 0x61, 0x72, 0x6b, 0x61, 0x62, 0x6c, 0x65, 0x32]
}

/// The format of the screen's pixels: sixteen bits of true colour, five of
/// red above six of green above five of blue.
pub open spec fn screen_format() -> PixelFormat {
    PixelFormat {
        bits_per_pixel: 16,
        depth: 16,
        big_endian: PIXEL_IS_BIG_ENDIAN,
        true_colour: true,
        red_max: 0b0001_1111,
        green_max: 0b0011_1111,
        blue_max: 0b0001_1111,
        red_shift: 11,
        green_shift: 5,
        blue_shift: 0,
    }
}

/// The format of the screen's pixels.
pub fn pixel_format() -> (format: PixelFormat)
    ensures
        format == screen_format(),
        format.bits_per_pixel == 8 * PIXEL_BYTE_DEPTH,
{
    PixelFormat {
        bits_per_pixel: 8 * PIXEL_BYTE_DEPTH,
        depth: 8 * PIXEL_BYTE_DEPTH,
        big_endian: PIXEL_IS_BIG_ENDIAN,
        true_colour: true,
        red_max: 0b0001_1111,
        green_max: 0b0011_1111,
        blue_max: 0b0001_1111,
        red_shift: 6 + 5 + 0,
        green_shift: 5 + 0,
        blue_shift: 0,
    }
}

/// What the server says of the device at the end of the handshake.
pub fn server_init() -> (init: ServerInit)
    ensures
        init@.framebuffer_width == SCREEN_WIDTH,
        init@.framebuffer_height == SCREEN_HEIGHT,
        init@.pixel_format == screen_format(),
        init@.name == desktop_name(),
        init@.valid(),
{
    let name: Vec<u8> = vec![0x72u8, 0x65, 0x6d, 0x61, 0x72, 0x6b, 0x61, 0x62, 0x6c, 0x65, 0x32];
    assert(name@ =~= desktop_name());
    ServerInit {
        framebuffer_width: SCREEN_WIDTH,
        framebuffer_height: SCREEN_HEIGHT,
        pixel_format: pixel_format(),
        name,
    }
}

} // verus!
