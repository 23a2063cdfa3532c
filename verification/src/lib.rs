//! A remote-framebuffer server for a touchscreen device, without the I/O.
//!
//! The server shows the screen of a device to a standard viewer and turns
//! the viewer's clicks into taps on the device.  This library holds what
//! the server decides and computes; the program around it owns the
//! socket, the memory of the process that draws the screen, and the touch
//! device.
//!
//! - `io`: the big-endian integers of the wire, and byte streams in memory.
//! - `protocol`: the structures of the protocol and their layouts.
//! - `message`: the client's messages and their decoder.
//! - `session`: the handshake and the message loop, as a state machine.
//! - `touch`: the input events of a tap.
//! - `screen`: where the frame lies in the memory of the drawing process.
//! - `discovery`: the search for the drawing process.
//! - `device`: the geometry and the pixel format of the device.

pub mod device;
pub mod discovery;
pub mod io;
pub mod message;
pub mod protocol;
pub mod screen;
pub mod session;
pub mod touch;
