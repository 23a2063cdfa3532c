//! The messages that a client sends once the handshake is over, and the
//! decoder that takes them off a byte stream.
//!
//! A message is one byte that tells its kind, followed by a body whose
//! layout the kind fixes.  Two kinds have a body of variable length: a list
//! of encodings and a run of clipboard text, each behind its count.

use crate::io::{
    be16, be32, be32_signed, from_be16, from_be32, from_be32_signed, lemma_be16_round_trip,
    lemma_be32_round_trip, lemma_be32_signed_round_trip, ReadBytesExt, Source,
};
use crate::protocol::{flag, lemma_pixel_format_round_trip, Encoding, PixelFormat};
use vstd::prelude::*;

verus! {

/// A message from the client.
#[derive(Debug, PartialEq, Eq)]
pub enum ClientMessage {
    /// The client asks for pixels in this format.
    SetPixelFormat(PixelFormat),
    /// The encodings that the client understands, most wanted first.
    SetEncodings(Vec<Encoding>),
    /// The client asks for the pixels of a region.
    FramebufferUpdateRequest {
        incremental: bool,
        x_position: u16,
        y_position: u16,
        width: u16,
        height: u16,
    },
    /// A key went down or up.
    KeyEvent { down: bool, key: u32 },
    /// The pointer moved, or its buttons changed.  Bit 0 of the mask is the
    /// primary button.
    PointerEvent { button_mask: u8, x_position: u16, y_position: u16 },
    /// The client's clipboard holds this text.
    CutText(Vec<u8>),
}

/// A client message as a mathematical value.
pub enum ClientMessageView {
    SetPixelFormat(PixelFormat),
    SetEncodings(Seq<Encoding>),
    FramebufferUpdateRequest {
        incremental: bool,
        x_position: u16,
        y_position: u16,
        width: u16,
        height: u16,
    },
    KeyEvent { down: bool, key: u32 },
    PointerEvent { button_mask: u8, x_position: u16, y_position: u16 },
    CutText(Seq<u8>),
}

impl View for ClientMessage {
    type V = ClientMessageView;

    open spec fn view(&self) -> ClientMessageView {
        match *self {
            ClientMessage::SetPixelFormat(format) => ClientMessageView::SetPixelFormat(format),
            ClientMessage::SetEncodings(list) => ClientMessageView::SetEncodings(list@),
            ClientMessage::FramebufferUpdateRequest {
                incremental,
                x_position,
                y_position,
                width,
                height,
            } => ClientMessageView::FramebufferUpdateRequest {
                incremental,
                x_position,
                y_position,
                width,
                height,
            },
            ClientMessage::KeyEvent { down, key } => ClientMessageView::KeyEvent { down, key },
            ClientMessage::PointerEvent {
                button_mask,
                x_position,
                y_position,
            } => ClientMessageView::PointerEvent { button_mask, x_position, y_position },
            ClientMessage::CutText(text) => ClientMessageView::CutText(text@),
        }
    }
}

/// The kind bytes of the client messages.
pub const SET_PIXEL_FORMAT: u8 = 0;

pub const SET_ENCODINGS: u8 = 2;

pub const FRAMEBUFFER_UPDATE_REQUEST: u8 = 3;

pub const KEY_EVENT: u8 = 4;

pub const POINTER_EVENT: u8 = 5;

pub const CUT_TEXT: u8 = 6;

/// The bytes of a list of encodings: four for each, in order.
pub open spec fn encodings_wire(list: Seq<Encoding>) -> Seq<u8> {
    Seq::new(4 * list.len(), |j: int| be32_signed(list[j / 4].code())[j % 4])
}

/// The list of `count` encodings that the front of `s` stands for.
pub open spec fn parse_encodings(s: Seq<u8>, count: nat) -> Seq<Encoding>
    recommends
        4 * count <= s.len(),
{
    Seq::new(count, |k: int| Encoding::of_code(from_be32_signed(s.subrange(4 * k, 4 * k + 4))))
}

impl ClientMessageView {
    /// Whether the message can be written down: its counts fit their
    /// fields, and every encoding is valid.
    pub open spec fn valid(self) -> bool {
        match self {
            ClientMessageView::SetEncodings(list) => {
                &&& list.len() <= 0xffff
                &&& forall|k: int| 0 <= k < list.len() ==> (#[trigger] list[k]).valid()
            },
            ClientMessageView::CutText(text) => text.len() <= 0xffff_ffff,
            _ => true,
        }
    }

    /// The kind byte of the message.
    pub open spec fn kind(self) -> u8 {
        match self {
            ClientMessageView::SetPixelFormat(_) => SET_PIXEL_FORMAT,
            ClientMessageView::SetEncodings(_) => SET_ENCODINGS,
            ClientMessageView::FramebufferUpdateRequest { .. } => FRAMEBUFFER_UPDATE_REQUEST,
            ClientMessageView::KeyEvent { .. } => KEY_EVENT,
            ClientMessageView::PointerEvent { .. } => POINTER_EVENT,
            ClientMessageView::CutText(_) => CUT_TEXT,
        }
    }

    /// The bytes that follow the kind byte; padding bytes are zero.
    pub open spec fn body(self) -> Seq<u8> {
        match self {
            ClientMessageView::SetPixelFormat(format) => seq![0u8, 0u8, 0u8] + format.wire(),
            ClientMessageView::SetEncodings(list) => seq![0u8] + be16(list.len() as u16)
                + encodings_wire(list),
            ClientMessageView::FramebufferUpdateRequest {
                incremental,
                x_position,
                y_position,
                width,
                height,
            } => seq![flag(incremental)] + be16(x_position) + be16(y_position) + be16(width)
                + be16(height),
            ClientMessageView::KeyEvent { down, key } => seq![flag(down), 0u8, 0u8] + be32(key),
            ClientMessageView::PointerEvent { button_mask, x_position, y_position } => seq![
                button_mask,
            ] + be16(x_position) + be16(y_position),
            ClientMessageView::CutText(text) => seq![0u8, 0u8, 0u8] + be32(text.len() as u32)
                + text,
        }
    }

    /// The whole message on the wire.
    pub open spec fn wire(self) -> Seq<u8> {
        seq![self.kind()] + self.body()
    }
}

/// What the front of a byte stream holds.
pub enum Parsed {
    /// A whole message, and the number of bytes it takes up.
    Message(ClientMessageView, nat),
    /// The front of a message of a known kind, or nothing at all.
    Incomplete,
    /// A kind byte that no client message has.
    UnknownKind(u8),
}

/// What the bytes behind the kind byte `kind` hold.  The count of a whole
/// message is that of its body.
pub open spec fn parse_body(kind: u8, b: Seq<u8>) -> Parsed {
    if kind == SET_PIXEL_FORMAT {
        if b.len() < 19 {
            Parsed::Incomplete
        } else {
            Parsed::Message(
                ClientMessageView::SetPixelFormat(PixelFormat::parse(b.subrange(3, 19))),
                19,
            )
        }
    } else if kind == SET_ENCODINGS {
        if b.len() < 3 {
            Parsed::Incomplete
        } else {
            let count = from_be16(b.subrange(1, 3)) as nat;
            if b.len() < 3 + 4 * count {
                Parsed::Incomplete
            } else {
                Parsed::Message(
                    ClientMessageView::SetEncodings(parse_encodings(b.skip(3), count)),
                    3 + 4 * count,
                )
            }
        }
    } else if kind == FRAMEBUFFER_UPDATE_REQUEST {
        if b.len() < 9 {
            Parsed::Incomplete
        } else {
            Parsed::Message(
                ClientMessageView::FramebufferUpdateRequest {
                    incremental: b[0] != 0,
                    x_position: from_be16(b.subrange(1, 3)),
                    y_position: from_be16(b.subrange(3, 5)),
                    width: from_be16(b.subrange(5, 7)),
                    height: from_be16(b.subrange(7, 9)),
                },
                9,
            )
        }
    } else if kind == KEY_EVENT {
        if b.len() < 7 {
            Parsed::Incomplete
        } else {
            Parsed::Message(
                ClientMessageView::KeyEvent { down: b[0] != 0, key: from_be32(b.subrange(3, 7)) },
                7,
            )
        }
    } else if kind == POINTER_EVENT {
        if b.len() < 5 {
            Parsed::Incomplete
        } else {
            Parsed::Message(
                ClientMessageView::PointerEvent {
                    button_mask: b[0],
                    x_position: from_be16(b.subrange(1, 3)),
                    y_position: from_be16(b.subrange(3, 5)),
                },
                5,
            )
        }
    } else if kind == CUT_TEXT {
        if b.len() < 7 {
            Parsed::Incomplete
        } else {
            let len = from_be32(b.subrange(3, 7)) as nat;
            if b.len() < 7 + len {
                Parsed::Incomplete
            } else {
                Parsed::Message(ClientMessageView::CutText(b.subrange(7, 7 + len as int)), 7 + len)
            }
        }
    } else {
        Parsed::UnknownKind(kind)
    }
}

/// What the front of `s` holds: the message that starts there and its
/// length, or why there is none.
pub open spec fn parse_client_message(s: Seq<u8>) -> Parsed {
    if s.len() == 0 {
        Parsed::Incomplete
    } else {
        match parse_body(s[0], s.skip(1)) {
            Parsed::Message(message, n) => Parsed::Message(message, n + 1),
            other => other,
        }
    }
}

/// Why no message came off the stream.
#[derive(Clone, Copy, Debug, PartialEq, Eq, Structural)]
pub enum DecodeError {
    /// The stream ended before the message did.
    Incomplete,
    /// The message starts with a kind byte that no client message has.
    UnknownKind(u8),
}

/// Whether the outcome of a read agrees with what the stream held: the
/// same message and the stream advanced past it, or the same failure.
pub open spec fn reads_as(
    res: Result<ClientMessage, DecodeError>,
    before: Seq<u8>,
    after: Seq<u8>,
    expected: Parsed,
) -> bool {
    match res {
        Ok(message) => expected matches Parsed::Message(v, n) && message@ == v && n
            <= before.len() && after == before.skip(n as int),
        Err(DecodeError::Incomplete) => expected is Incomplete,
        Err(DecodeError::UnknownKind(kind)) => expected == Parsed::UnknownKind(kind),
    }
}

proof fn lemma_window(s: Seq<u8>, a: int, n: int)
    requires
        0 <= a,
        0 <= n,
        a + n <= s.len(),
    ensures
        s.skip(a).take(n) == s.subrange(a, a + n),
        s.skip(a).skip(n) == s.skip(a + n),
{
    assert(s.skip(a).take(n) =~= s.subrange(a, a + n));
    assert(s.skip(a).skip(n) =~= s.skip(a + n));
}

impl ClientMessage {
    /// Reads one message off the front of `r`.
    ///
    /// Where the stream starts with a whole message, that message is
    /// returned and the stream stands behind it.  Where it ends too early,
    /// the result is `Incomplete`; where it starts with a byte that is no
    /// kind, `UnknownKind`.  After a failure the stream may have lost the
    /// bytes read so far.
    pub fn read_from<R: Source>(r: &mut R) -> (res: Result<ClientMessage, DecodeError>)
        ensures
            reads_as(
                res,
                old(r).pending(),
                final(r).pending(),
                parse_client_message(old(r).pending()),
            ),
    {
        let kind = match r.read_u8() {
            Ok(kind) => kind,
            Err(_) => {
                return Err(DecodeError::Incomplete);
            },
        };
        let res = if kind == SET_PIXEL_FORMAT {
            Self::read_set_pixel_format(r)
        } else if kind == SET_ENCODINGS {
            Self::read_set_encodings(r)
        } else if kind == FRAMEBUFFER_UPDATE_REQUEST {
            Self::read_update_request(r)
        } else if kind == KEY_EVENT {
            Self::read_key_event(r)
        } else if kind == POINTER_EVENT {
            Self::read_pointer_event(r)
        } else if kind == CUT_TEXT {
            Self::read_cut_text(r)
        } else {
            Err(DecodeError::UnknownKind(kind))
        };
        proof {
            if let Parsed::Message(_, n) = parse_body(kind, old(r).pending().skip(1)) {
                if res is Ok {
                    lemma_window(old(r).pending(), 1, n as int);
                }
            }
        }
        res
    }

    fn read_set_pixel_format<R: Source>(r: &mut R) -> (res: Result<ClientMessage, DecodeError>)
        ensures
            reads_as(
                res,
                old(r).pending(),
                final(r).pending(),
                parse_body(SET_PIXEL_FORMAT, old(r).pending()),
            ),
    {
        let ghost b = r.pending();
        if r.read_exact(3).is_err() {
            return Err(DecodeError::Incomplete);
        }
        match PixelFormat::read_from(r) {
            Ok(format) => {
                proof {
                    lemma_window(b, 3, 16);
                }
                Ok(ClientMessage::SetPixelFormat(format))
            },
            Err(_) => Err(DecodeError::Incomplete),
        }
    }

    fn read_set_encodings<R: Source>(r: &mut R) -> (res: Result<ClientMessage, DecodeError>)
        ensures
            reads_as(
                res,
                old(r).pending(),
                final(r).pending(),
                parse_body(SET_ENCODINGS, old(r).pending()),
            ),
    {
        let ghost b = r.pending();
        if r.read_u8().is_err() {
            return Err(DecodeError::Incomplete);
        }
        let count = match r.read_u16_from_be() {
            Ok(count) => count,
            Err(_) => {
                return Err(DecodeError::Incomplete);
            },
        };
        proof {
            lemma_window(b, 1, 2);
        }
        let ghost list_bytes = b.skip(3);
        let mut list: Vec<Encoding> = Vec::new();
        let mut i: u16 = 0;
        while i < count
            invariant
                i <= count,
                b == old(r).pending(),
                3 <= b.len(),
                count == from_be16(b.subrange(1, 3)),
                list_bytes == b.skip(3),
                4 * i <= list_bytes.len(),
                r.pending() == list_bytes.skip(4 * i),
                list@ == parse_encodings(list_bytes, i as nat),
            decreases count - i,
        {
            let code = match r.read_i32_from_be() {
                Ok(code) => code,
                Err(_) => {
                    return Err(DecodeError::Incomplete);
                },
            };
            proof {
                lemma_window(list_bytes, 4 * i, 4);
            }
            list.push(Encoding::from_code(code));
            i = i + 1;
            assert(list@ =~= parse_encodings(list_bytes, i as nat));
        }
        proof {
            lemma_window(b, 3, 4 * count);
            assert(list@ =~= parse_encodings(list_bytes, count as nat));
        }
        Ok(ClientMessage::SetEncodings(list))
    }

    fn read_update_request<R: Source>(r: &mut R) -> (res: Result<ClientMessage, DecodeError>)
        ensures
            reads_as(
                res,
                old(r).pending(),
                final(r).pending(),
                parse_body(FRAMEBUFFER_UPDATE_REQUEST, old(r).pending()),
            ),
    {
        let ghost b = r.pending();
        let incremental = match r.read_u8() {
            Ok(v) => v != 0,
            Err(_) => {
                return Err(DecodeError::Incomplete);
            },
        };
        let x_position = match r.read_u16_from_be() {
            Ok(v) => v,
            Err(_) => {
                return Err(DecodeError::Incomplete);
            },
        };
        proof {
            lemma_window(b, 1, 2);
        }
        let y_position = match r.read_u16_from_be() {
            Ok(v) => v,
            Err(_) => {
                return Err(DecodeError::Incomplete);
            },
        };
        proof {
            lemma_window(b, 3, 2);
        }
        let width = match r.read_u16_from_be() {
            Ok(v) => v,
            Err(_) => {
                return Err(DecodeError::Incomplete);
            },
        };
        proof {
            lemma_window(b, 5, 2);
        }
        let height = match r.read_u16_from_be() {
            Ok(v) => v,
            Err(_) => {
                return Err(DecodeError::Incomplete);
            },
        };
        proof {
            lemma_window(b, 7, 2);
        }
        Ok(
            ClientMessage::FramebufferUpdateRequest {
                incremental,
                x_position,
                y_position,
                width,
                height,
            },
        )
    }

    fn read_key_event<R: Source>(r: &mut R) -> (res: Result<ClientMessage, DecodeError>)
        ensures
            reads_as(
                res,
                old(r).pending(),
                final(r).pending(),
                parse_body(KEY_EVENT, old(r).pending()),
            ),
    {
        let ghost b = r.pending();
        let down = match r.read_u8() {
            Ok(v) => v != 0,
            Err(_) => {
                return Err(DecodeError::Incomplete);
            },
        };
        if r.read_exact(2).is_err() {
            return Err(DecodeError::Incomplete);
        }
        proof {
            lemma_window(b, 1, 2);
        }
        let key = match r.read_u32_from_be() {
            Ok(v) => v,
            Err(_) => {
                return Err(DecodeError::Incomplete);
            },
        };
        proof {
            lemma_window(b, 3, 4);
        }
        Ok(ClientMessage::KeyEvent { down, key })
    }

    fn read_pointer_event<R: Source>(r: &mut R) -> (res: Result<ClientMessage, DecodeError>)
        ensures
            reads_as(
                res,
                old(r).pending(),
                final(r).pending(),
                parse_body(POINTER_EVENT, old(r).pending()),
            ),
    {
        let ghost b = r.pending();
        let button_mask = match r.read_u8() {
            Ok(v) => v,
            Err(_) => {
                return Err(DecodeError::Incomplete);
            },
        };
        let x_position = match r.read_u16_from_be() {
            Ok(v) => v,
            Err(_) => {
                return Err(DecodeError::Incomplete);
            },
        };
        proof {
            lemma_window(b, 1, 2);
        }
        let y_position = match r.read_u16_from_be() {
            Ok(v) => v,
            Err(_) => {
                return Err(DecodeError::Incomplete);
            },
        };
        proof {
            lemma_window(b, 3, 2);
        }
        Ok(ClientMessage::PointerEvent { button_mask, x_position, y_position })
    }

    fn read_cut_text<R: Source>(r: &mut R) -> (res: Result<ClientMessage, DecodeError>)
        ensures
            reads_as(
                res,
                old(r).pending(),
                final(r).pending(),
                parse_body(CUT_TEXT, old(r).pending()),
            ),
    {
        let ghost b = r.pending();
        if r.read_exact(3).is_err() {
            return Err(DecodeError::Incomplete);
        }
        let len = match r.read_u32_from_be() {
            Ok(v) => v,
            Err(_) => {
                return Err(DecodeError::Incomplete);
            },
        };
        proof {
            lemma_window(b, 3, 4);
        }
        match r.read_exact(len as usize) {
            Ok(text) => {
                proof {
                    lemma_window(b, 7, len as int);
                }
                Ok(ClientMessage::CutText(text))
            },
            Err(_) => Err(DecodeError::Incomplete),
        }
    }
}

/// The bytes of a list of encodings read back as the list.
proof fn lemma_encodings_round_trip(list: Seq<Encoding>, rest: Seq<u8>)
    requires
        forall|k: int| 0 <= k < list.len() ==> (#[trigger] list[k]).valid(),
    ensures
        encodings_wire(list).len() == 4 * list.len(),
        parse_encodings(encodings_wire(list) + rest, list.len()) == list,
{
    let s = encodings_wire(list) + rest;
    assert forall|k: int| 0 <= k < list.len() implies #[trigger] parse_encodings(
        s,
        list.len(),
    )[k] == list[k] by {
        let code = list[k].code();
        let window = s.subrange(4 * k, 4 * k + 4);
        assert(window =~= be32_signed(code)) by {
            assert forall|j: int| 0 <= j < 4 implies window[j] == be32_signed(code)[j] by {
                assert((4 * k + j) / 4 == k);
                assert((4 * k + j) % 4 == j);
            }
        }
        lemma_be32_signed_round_trip(code, window);
        assert(list[k].valid());
    }
    assert(parse_encodings(s, list.len()) =~= list);
}

proof fn lemma_set_pixel_format_body(format: PixelFormat, rest: Seq<u8>)
    ensures
        ({
            let m = ClientMessageView::SetPixelFormat(format);
            parse_body(m.kind(), m.body() + rest) == Parsed::Message(m, m.body().len())
        }),
{
    let m = ClientMessageView::SetPixelFormat(format);
    let b = m.body() + rest;
    lemma_pixel_format_round_trip(format);
    assert(b.subrange(3, 19) =~= format.wire());
}

proof fn lemma_set_encodings_body(list: Seq<Encoding>, rest: Seq<u8>)
    requires
        ClientMessageView::SetEncodings(list).valid(),
    ensures
        ({
            let m = ClientMessageView::SetEncodings(list);
            parse_body(m.kind(), m.body() + rest) == Parsed::Message(m, m.body().len())
        }),
{
    let m = ClientMessageView::SetEncodings(list);
    let b = m.body() + rest;
    let count = list.len() as u16;
    lemma_be16_round_trip(count, b);
    lemma_encodings_round_trip(list, rest);
    assert(b.subrange(1, 3) =~= be16(count));
    assert(b.skip(3) =~= encodings_wire(list) + rest);
}

proof fn lemma_update_request_body(
    incremental: bool,
    x_position: u16,
    y_position: u16,
    width: u16,
    height: u16,
    rest: Seq<u8>,
)
    ensures
        ({
            let m = ClientMessageView::FramebufferUpdateRequest {
                incremental,
                x_position,
                y_position,
                width,
                height,
            };
            parse_body(m.kind(), m.body() + rest) == Parsed::Message(m, m.body().len())
        }),
{
    let m = ClientMessageView::FramebufferUpdateRequest {
        incremental,
        x_position,
        y_position,
        width,
        height,
    };
    let b = m.body() + rest;
    lemma_be16_round_trip(x_position, b);
    lemma_be16_round_trip(y_position, b);
    lemma_be16_round_trip(width, b);
    lemma_be16_round_trip(height, b);
    assert(b.subrange(1, 3) =~= be16(x_position));
    assert(b.subrange(3, 5) =~= be16(y_position));
    assert(b.subrange(5, 7) =~= be16(width));
    assert(b.subrange(7, 9) =~= be16(height));
}

proof fn lemma_key_event_body(down: bool, key: u32, rest: Seq<u8>)
    ensures
        ({
            let m = ClientMessageView::KeyEvent { down, key };
            parse_body(m.kind(), m.body() + rest) == Parsed::Message(m, m.body().len())
        }),
{
    let m = ClientMessageView::KeyEvent { down, key };
    let b = m.body() + rest;
    lemma_be32_round_trip(key, b);
    assert(b.subrange(3, 7) =~= be32(key));
}

proof fn lemma_pointer_event_body(button_mask: u8, x_position: u16, y_position: u16, rest: Seq<u8>)
    ensures
        ({
            let m = ClientMessageView::PointerEvent { button_mask, x_position, y_position };
            parse_body(m.kind(), m.body() + rest) == Parsed::Message(m, m.body().len())
        }),
{
    let m = ClientMessageView::PointerEvent { button_mask, x_position, y_position };
    let b = m.body() + rest;
    lemma_be16_round_trip(x_position, b);
    lemma_be16_round_trip(y_position, b);
    assert(b.subrange(1, 3) =~= be16(x_position));
    assert(b.subrange(3, 5) =~= be16(y_position));
}

proof fn lemma_cut_text_body(text: Seq<u8>, rest: Seq<u8>)
    requires
        ClientMessageView::CutText(text).valid(),
    ensures
        ({
            let m = ClientMessageView::CutText(text);
            parse_body(m.kind(), m.body() + rest) == Parsed::Message(m, m.body().len())
        }),
{
    let m = ClientMessageView::CutText(text);
    let b = m.body() + rest;
    let len = text.len() as u32;
    lemma_be32_round_trip(len, b);
    assert(b.subrange(3, 7) =~= be32(len));
    assert(b.subrange(7, 7 + len as int) =~= text);
}

/// Reading what was written: a stream that starts with the bytes of a valid
/// message parses as that message, whatever follows.
pub proof fn lemma_client_message_round_trip(message: ClientMessageView, rest: Seq<u8>)
    requires
        message.valid(),
    ensures
        parse_client_message(message.wire() + rest) == Parsed::Message(
            message,
            message.wire().len(),
        ),
{
    let s = message.wire() + rest;
    assert(s[0] == message.kind());
    assert(s.skip(1) =~= message.body() + rest);
    match message {
        ClientMessageView::SetPixelFormat(format) => {
            lemma_set_pixel_format_body(format, rest);
        },
        ClientMessageView::SetEncodings(list) => {
            lemma_set_encodings_body(list, rest);
        },
        ClientMessageView::FramebufferUpdateRequest {
            incremental,
            x_position,
            y_position,
            width,
            height,
        } => {
            lemma_update_request_body(incremental, x_position, y_position, width, height, rest);
        },
        ClientMessageView::KeyEvent { down, key } => {
            lemma_key_event_body(down, key, rest);
        },
        ClientMessageView::PointerEvent { button_mask, x_position, y_position } => {
            lemma_pointer_event_body(button_mask, x_position, y_position, rest);
        },
        ClientMessageView::CutText(text) => {
            lemma_cut_text_body(text, rest);
        },
    }
}

} // verus!
