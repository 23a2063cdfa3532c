//! The protocol session: the handshake with one client and the loop that
//! serves its messages.
//!
//! A session passes through its phases in one direction only.  The server
//! announces its version and the session waits in `VersionExchange` for the
//! client's; it offers the one security type and waits in
//! `SecurityNegotiation` for the client's choice; it reports the security
//! result and waits in `ClientInit` for the client's shared-desktop flag; it
//! sends its `ServerInit` and serves messages in `MessageLoop` until the
//! session is `Closed`.
//!
//! The session does no I/O.  The caller hands it what happened as an
//! `Event` and carries out the `Action` of the reply.

use crate::io::{append, same_bytes, u16_to_be_bytes, u32_to_be_bytes, ByteReader};
use crate::message::{
    parse_client_message, ClientMessage, ClientMessageView, DecodeError, Parsed,
};
use crate::protocol::{
    framebuffer_update_wire, lemma_rectangle_round_trip, security_result_wire,
    security_types_wire, server_version, version_token, Encoding, PixelFormat, Rectangle,
    SecurityType, ServerInit, ServerInitView, VERSION_LEN,
};
use crate::screen::{frame_len, ScreenMemory};
use crate::touch::{lemma_after, tap_records, Touchscreen, NO_CONTACT};
use vstd::prelude::*;
use vstd::slice::slice_subrange;

verus! {

/// A breach of the protocol by the client.
#[derive(Clone, Copy, Debug, PartialEq, Eq, Structural)]
pub enum ProtocolViolation {
    /// The client asked for another version than the server's.
    VersionMismatch,
    /// The client chose a security type that the server did not offer.
    SecurityMismatch,
    /// The client set another pixel format than the server's.
    PixelFormatMismatch,
}

/// Why a session is over.
#[derive(Clone, Copy, Debug, PartialEq, Eq, Structural)]
pub enum SessionEnd {
    /// The client broke the protocol.
    Violation(ProtocolViolation),
    /// The client sent a message of an unknown kind.
    Malformed(u8),
    /// The connection failed or was closed.
    Disconnected,
    /// The framebuffer could not be read in full.
    FrameUnavailable,
    /// The touchscreen has no tracking id left for a tap.
    TouchUnavailable,
}

/// Where a session stands.
#[derive(Clone, Copy, Debug, PartialEq, Eq, Structural)]
pub enum Phase {
    VersionExchange,
    SecurityNegotiation,
    ClientInit,
    MessageLoop,
    Closed(SessionEnd),
}

impl Phase {
    /// The place of the phase in the order of the session.
    pub open spec fn rank(self) -> nat {
        match self {
            Phase::VersionExchange => 0,
            Phase::SecurityNegotiation => 1,
            Phase::ClientInit => 2,
            Phase::MessageLoop => 3,
            Phase::Closed(_) => 4,
        }
    }
}

/// What the caller reports to the session.
#[derive(Debug, PartialEq, Eq)]
pub enum Event<'a> {
    /// All bytes that the client has sent and the session has not used.
    Input(&'a [u8]),
    /// The frame that the session asked for.
    Frame(Vec<u8>),
    /// The frame that the session asked for could not be read in full.
    FrameFailed,
    /// The connection failed or was closed.
    Disconnected,
}

/// A session event as a mathematical value.
pub enum EventView {
    Input(Seq<u8>),
    Frame(Seq<u8>),
    FrameFailed,
    Disconnected,
}

impl<'a> View for Event<'a> {
    type V = EventView;

    open spec fn view(&self) -> EventView {
        match *self {
            Event::Input(bytes) => EventView::Input(bytes@),
            Event::Frame(pixels) => EventView::Frame(pixels@),
            Event::FrameFailed => EventView::FrameFailed,
            Event::Disconnected => EventView::Disconnected,
        }
    }
}

/// What the session asks the caller to do.
#[derive(Debug, PartialEq, Eq)]
pub enum Action {
    /// Wait for more bytes from the client, then report the input again.
    NeedInput,
    /// Nothing to do: report the remaining input.
    Continue,
    /// Send these bytes to the client.
    Send(Vec<u8>),
    /// Write these bytes to the touch device.
    Touch(Vec<u8>),
    /// Read one frame from the screen memory and report it.
    ReadFrame,
    /// Send the header and then the pixels to the client.
    SendFrame { header: Vec<u8>, pixels: Vec<u8> },
    /// Close the connection: the session is over.
    Close(SessionEnd),
}

/// An action as a mathematical value.
pub enum ActionView {
    NeedInput,
    Continue,
    Send(Seq<u8>),
    Touch(Seq<u8>),
    ReadFrame,
    SendFrame { header: Seq<u8>, pixels: Seq<u8> },
    Close(SessionEnd),
}

impl View for Action {
    type V = ActionView;

    open spec fn view(&self) -> ActionView {
        match *self {
            Action::NeedInput => ActionView::NeedInput,
            Action::Continue => ActionView::Continue,
            Action::Send(bytes) => ActionView::Send(bytes@),
            Action::Touch(bytes) => ActionView::Touch(bytes@),
            Action::ReadFrame => ActionView::ReadFrame,
            Action::SendFrame { header, pixels } => ActionView::SendFrame {
                header: header@,
                pixels: pixels@,
            },
            Action::Close(end) => ActionView::Close(end),
        }
    }
}

/// The answer of the session to an event: how many bytes of the input it
/// has used up, and what to do.
#[derive(Debug, PartialEq, Eq)]
pub struct Reply {
    pub used: usize,
    pub action: Action,
}

/// A reply as a mathematical value.
pub struct ReplyView {
    pub used: nat,
    pub action: ActionView,
}

impl View for Reply {
    type V = ReplyView;

    open spec fn view(&self) -> ReplyView {
        ReplyView { used: self.used as nat, action: self.action@ }
    }
}

/// Why a server cannot be set up.
#[derive(Clone, Copy, Debug, PartialEq, Eq, Structural)]
pub enum ConfigError {
    /// The length of the desktop name does not fit its field on the wire.
    NameTooLong,
    /// A pixel has neither 8 nor 16 nor 32 bits.
    PixelWidth,
    /// The screen memory has another length than one frame.
    FrameSize,
}

/// What stays the same for every session: what the server says of itself,
/// and where the frame lies.
pub struct Server {
    init: ServerInit,
    init_wire: Vec<u8>,
    screen: ScreenMemory,
}

/// A server as a mathematical value.
pub struct ServerView {
    pub init: ServerInitView,
    pub screen: ScreenMemory,
}

impl ServerView {
    /// The number of bytes of a pixel.
    pub open spec fn pixel_bytes(self) -> u8 {
        self.init.pixel_format.bits_per_pixel / 8
    }

    /// What makes a server: its name fits the wire, a pixel has a whole
    /// number of bytes, and the screen memory holds exactly one frame.
    pub open spec fn valid(self) -> bool {
        &&& self.init.valid()
        &&& config_error(self.init, self.screen) is None
    }

    /// The sixteen bytes that head every frame: an update of one rectangle,
    /// which spans the whole screen and is raw.
    pub open spec fn frame_header(self) -> Seq<u8> {
        framebuffer_update_wire(1) + (Rectangle {
            x_position: 0,
            y_position: 0,
            width: self.init.framebuffer_width,
            height: self.init.framebuffer_height,
            encoding: Encoding::Raw,
        }).wire()
    }
}

/// What is wrong with a configuration, if anything is.
pub open spec fn config_error(init: ServerInitView, screen: ScreenMemory) -> Option<ConfigError> {
    let bits = init.pixel_format.bits_per_pixel;
    if init.name.len() > 0xffff_ffff {
        Some(ConfigError::NameTooLong)
    } else if bits != 8 && bits != 16 && bits != 32 {
        Some(ConfigError::PixelWidth)
    } else if screen.size() != frame_len(
        init.framebuffer_width,
        init.framebuffer_height,
        bits / 8,
    ) {
        Some(ConfigError::FrameSize)
    } else {
        None
    }
}

impl View for Server {
    type V = ServerView;

    closed spec fn view(&self) -> ServerView {
        ServerView { init: self.init@, screen: self.screen }
    }
}

impl Server {
    #[verifier::type_invariant]
    spec fn well_formed(self) -> bool {
        &&& self@.valid()
        &&& self.init_wire@ == self.init@.wire()
    }

    /// A server that presents itself by `init` and reads its frames from
    /// `screen`.
    pub fn new(init: ServerInit, screen: ScreenMemory) -> (r: Result<Server, ConfigError>)
        ensures
            match r {
                Ok(server) => {
                    &&& config_error(init@, screen) is None
                    &&& server@ == (ServerView { init: init@, screen })
                    &&& server@.valid()
                },
                Err(e) => config_error(init@, screen) == Some(e),
            },
    {
        let bits = init.pixel_format.bits_per_pixel;
        let init_wire = match init.encode() {
            Some(bytes) => bytes,
            None => {
                return Err(ConfigError::NameTooLong);
            },
        };
        if bits != 8 && bits != 16 && bits != 32 {
            return Err(ConfigError::PixelWidth);
        }
        let width = init.framebuffer_width as u64;
        let height = init.framebuffer_height as u64;
        assert(width * height <= 0xffff * 0xffff) by (nonlinear_arith)
            requires
                width <= 0xffff,
                height <= 0xffff,
        ;
        let points = width * height;
        assert(points * ((bits / 8) as u64) <= 0xffff * 0xffff * 4) by (nonlinear_arith)
            requires
                points <= 0xffff * 0xffff,
                bits / 8 <= 4,
        ;
        if screen.len() as u64 != points * ((bits / 8) as u64) {
            return Err(ConfigError::FrameSize);
        }
        Ok(Server { init, init_wire, screen })
    }

    /// What the server says of itself at the end of the handshake.
    pub fn init(&self) -> (init: &ServerInit)
        ensures
            init@ == self@.init,
    {
        &self.init
    }

    /// Where the frame lies.
    pub fn screen(&self) -> (screen: ScreenMemory)
        ensures
            screen == self@.screen,
    {
        self.screen
    }

    /// The sixteen bytes that head every frame.
    pub fn frame_header(&self) -> (header: Vec<u8>)
        ensures
            header@ == self@.frame_header(),
    {
        let mut header: Vec<u8> = Vec::new();
        header.push(0);
        header.push(0);
        append(&mut header, u16_to_be_bytes(1).as_slice());
        let rectangle = Rectangle {
            x_position: 0,
            y_position: 0,
            width: self.init.framebuffer_width,
            height: self.init.framebuffer_height,
            encoding: Encoding::Raw,
        };
        let _ = rectangle.write_to(&mut header);
        assert(header@ =~= self@.frame_header());
        header
    }
}

/// Whether the primary button is down in a button mask.
pub open spec fn primary_button(button_mask: u8) -> bool {
    button_mask & 0x01 != 0x00
}

/// The device's Y coordinate of a pointer position: the device counts
/// upward from the lower edge, the pointer downward from the upper edge.
pub open spec fn device_y(height: u16, y_position: u16) -> int {
    height - y_position
}

/// One session with one client.
#[derive(Clone, Copy, Debug, PartialEq, Eq, Structural)]
pub struct Session {
    /// Where the session stands.
    pub phase: Phase,
    /// Whether the session has asked for a frame and not yet got it.  It
    /// counts in the message loop only.
    pub frame_owed: bool,
}

impl Session {
    /// Whether the session has asked for a frame and not yet got it.  Only
    /// a session in its message loop asks for frames.
    pub open spec fn owes_frame(self) -> bool {
        self.phase is MessageLoop && self.frame_owed
    }
}

/// What a step leads to.
pub struct Outcome {
    pub session: Session,
    pub touchscreen: Touchscreen,
    pub reply: ReplyView,
}

/// The outcome of a step that ends the session.
pub open spec fn ended(touchscreen: Touchscreen, used: nat, end: SessionEnd) -> Outcome {
    Outcome {
        session: Session { phase: Phase::Closed(end), frame_owed: false },
        touchscreen,
        reply: ReplyView { used, action: ActionView::Close(end) },
    }
}

/// The outcome of a step that leaves the touchscreen alone.
pub open spec fn moved(
    touchscreen: Touchscreen,
    phase: Phase,
    frame_owed: bool,
    used: nat,
    action: ActionView,
) -> Outcome {
    Outcome {
        session: Session { phase, frame_owed },
        touchscreen,
        reply: ReplyView { used, action },
    }
}

/// What a whole message of `used` bytes leads to in the message loop.
pub open spec fn on_message(
    server: ServerView,
    touchscreen: Touchscreen,
    message: ClientMessageView,
    used: nat,
) -> Outcome {
    match message {
        ClientMessageView::SetPixelFormat(format) => {
            if format == server.init.pixel_format {
                moved(touchscreen, Phase::MessageLoop, false, used, ActionView::Continue)
            } else {
                ended(
                    touchscreen,
                    used,
                    SessionEnd::Violation(ProtocolViolation::PixelFormatMismatch),
                )
            }
        },
        ClientMessageView::PointerEvent { button_mask, x_position, y_position } => {
            if primary_button(button_mask) && y_position <= server.init.framebuffer_height {
                if touchscreen.next_id() == NO_CONTACT {
                    ended(touchscreen, used, SessionEnd::TouchUnavailable)
                } else {
                    Outcome {
                        session: Session { phase: Phase::MessageLoop, frame_owed: false },
                        touchscreen: touchscreen.after(1),
                        reply: ReplyView {
                            used,
                            action: ActionView::Touch(
                                tap_records(
                                    touchscreen.byte_order(),
                                    touchscreen.time_stamp(),
                                    touchscreen.next_id(),
                                    x_position as u32,
                                    device_y(server.init.framebuffer_height, y_position) as u32,
                                ),
                            ),
                        },
                    }
                }
            } else {
                moved(touchscreen, Phase::MessageLoop, false, used, ActionView::Continue)
            }
        },
        ClientMessageView::FramebufferUpdateRequest { .. } => moved(
            touchscreen,
            Phase::MessageLoop,
            true,
            used,
            ActionView::ReadFrame,
        ),
        _ => moved(touchscreen, Phase::MessageLoop, false, used, ActionView::Continue),
    }
}

/// What the client's bytes lead to in a session that is open and owes no
/// frame.
pub open spec fn on_input(
    server: ServerView,
    phase: Phase,
    touchscreen: Touchscreen,
    input: Seq<u8>,
) -> Outcome {
    match phase {
        Phase::VersionExchange => {
            if input.len() < 12 {
                moved(touchscreen, phase, false, 0, ActionView::NeedInput)
            } else if input.take(12) == version_token() {
                moved(
                    touchscreen,
                    Phase::SecurityNegotiation,
                    false,
                    12,
                    ActionView::Send(security_types_wire(seq![SecurityType::NoAuthentication])),
                )
            } else {
                ended(touchscreen, 12, SessionEnd::Violation(ProtocolViolation::VersionMismatch))
            }
        },
        Phase::SecurityNegotiation => {
            if input.len() < 1 {
                moved(touchscreen, phase, false, 0, ActionView::NeedInput)
            } else if SecurityType::of_code(input[0]) == SecurityType::NoAuthentication {
                moved(
                    touchscreen,
                    Phase::ClientInit,
                    false,
                    1,
                    ActionView::Send(security_result_wire(true)),
                )
            } else {
                ended(touchscreen, 1, SessionEnd::Violation(ProtocolViolation::SecurityMismatch))
            }
        },
        Phase::ClientInit => {
            if input.len() < 1 {
                moved(touchscreen, phase, false, 0, ActionView::NeedInput)
            } else {
                moved(
                    touchscreen,
                    Phase::MessageLoop,
                    false,
                    1,
                    ActionView::Send(server.init.wire()),
                )
            }
        },
        Phase::MessageLoop => {
            match parse_client_message(input) {
                Parsed::Incomplete => moved(touchscreen, phase, false, 0, ActionView::NeedInput),
                Parsed::UnknownKind(kind) => ended(touchscreen, 1, SessionEnd::Malformed(kind)),
                Parsed::Message(message, used) => on_message(server, touchscreen, message, used),
            }
        },
        Phase::Closed(end) => ended(touchscreen, 0, end),
    }
}

/// What an event leads to: the session and the touchscreen after the step,
/// and the reply.
///
/// A closed session stays closed.  A failed connection closes the session.
/// While a frame is owed, the frame is all that the session takes: it
/// answers input by asking for the frame again.  A frame that was not
/// asked for is dropped.  A frame can be owed in the message loop only.
pub open spec fn step_spec(
    server: ServerView,
    session: Session,
    touchscreen: Touchscreen,
    event: EventView,
) -> Outcome {
    if let Phase::Closed(end) = session.phase {
        ended(touchscreen, 0, end)
    } else if event is Disconnected {
        ended(touchscreen, 0, SessionEnd::Disconnected)
    } else if session.owes_frame() {
        match event {
            EventView::Frame(pixels) => {
                if pixels.len() == server.screen.size() {
                    moved(
                        touchscreen,
                        session.phase,
                        false,
                        0,
                        ActionView::SendFrame { header: server.frame_header(), pixels },
                    )
                } else {
                    ended(touchscreen, 0, SessionEnd::FrameUnavailable)
                }
            },
            EventView::FrameFailed => ended(touchscreen, 0, SessionEnd::FrameUnavailable),
            _ => moved(touchscreen, session.phase, true, 0, ActionView::ReadFrame),
        }
    } else {
        match event {
            EventView::Input(input) => on_input(server, session.phase, touchscreen, input),
            _ => moved(touchscreen, session.phase, false, 0, ActionView::Continue),
        }
    }
}

impl Session {
    /// A session with a client that has just connected, and the bytes to
    /// send to it first: the server's version token.
    pub fn new() -> (r: (Session, Vec<u8>))
        ensures
            r.0 == (Session { phase: Phase::VersionExchange, frame_owed: false }),
            r.1@ == version_token(),
    {
        let mut greeting: Vec<u8> = Vec::new();
        append(&mut greeting, server_version().as_slice());
        (Session { phase: Phase::VersionExchange, frame_owed: false }, greeting)
    }

    /// Whether the session has asked for a frame and not yet got it.
    pub fn owes(&self) -> (r: bool)
        ensures
            r == self.owes_frame(),
    {
        match self.phase {
            Phase::MessageLoop => self.frame_owed,
            _ => false,
        }
    }

    /// Whether the session is over.
    pub fn is_closed(&self) -> (r: bool)
        ensures
            r == (self.phase is Closed),
    {
        match self.phase {
            Phase::Closed(_) => true,
            _ => false,
        }
    }

    fn end(&mut self, used: usize, end: SessionEnd) -> (reply: Reply)
        ensures
            *final(self) == (Session { phase: Phase::Closed(end), frame_owed: false }),
            reply@ == (ReplyView { used: used as nat, action: ActionView::Close(end) }),
    {
        self.phase = Phase::Closed(end);
        self.frame_owed = false;
        Reply { used, action: Action::Close(end) }
    }

    /// Takes one event and says what to do.
    ///
    /// The server is only read.  The touchscreen moves on by one tap where
    /// the event is a press of the primary button on the screen, and stays
    /// as it is on every other event.
    pub fn step(&mut self, server: &Server, touchscreen: &mut Touchscreen, event: Event) -> (reply:
        Reply)
        ensures
            ({
                let outcome = step_spec(server@, *old(self), *old(touchscreen), event@);
                &&& *final(self) == outcome.session
                &&& *final(touchscreen) == outcome.touchscreen
                &&& reply@ == outcome.reply
            }),
    {
        if let Phase::Closed(end) = self.phase {
            return self.end(0, end);
        }
        let owed = self.owes();
        self.frame_owed = owed;
        match event {
            Event::Disconnected => self.end(0, SessionEnd::Disconnected),
            Event::FrameFailed => {
                if owed {
                    self.end(0, SessionEnd::FrameUnavailable)
                } else {
                    Reply { used: 0, action: Action::Continue }
                }
            },
            Event::Frame(pixels) => {
                if !owed {
                    Reply { used: 0, action: Action::Continue }
                } else if pixels.len() == server.screen.len() {
                    self.frame_owed = false;
                    Reply {
                        used: 0,
                        action: Action::SendFrame { header: server.frame_header(), pixels },
                    }
                } else {
                    self.end(0, SessionEnd::FrameUnavailable)
                }
            },
            Event::Input(input) => {
                if owed {
                    Reply { used: 0, action: Action::ReadFrame }
                } else {
                    self.on_input(server, touchscreen, input)
                }
            },
        }
    }

    fn on_input(&mut self, server: &Server, touchscreen: &mut Touchscreen, input: &[u8]) -> (reply:
        Reply)
        requires
            !old(self).frame_owed,
        ensures
            ({
                let outcome = on_input(server@, old(self).phase, *old(touchscreen), input@);
                &&& *final(self) == outcome.session
                &&& *final(touchscreen) == outcome.touchscreen
                &&& reply@ == outcome.reply
            }),
    {
        match self.phase {
            Phase::VersionExchange => {
                if input.len() < VERSION_LEN {
                    return Reply { used: 0, action: Action::NeedInput };
                }
                let token = slice_subrange(input, 0, VERSION_LEN);
                if same_bytes(token, server_version().as_slice()) {
                    self.phase = Phase::SecurityNegotiation;
                    let mut offer: Vec<u8> = Vec::new();
                    offer.push(1);
                    offer.push(SecurityType::NoAuthentication.to_code());
                    assert(offer@ =~= security_types_wire(seq![SecurityType::NoAuthentication]));
                    Reply { used: VERSION_LEN, action: Action::Send(offer) }
                } else {
                    self.end(VERSION_LEN, SessionEnd::Violation(ProtocolViolation::VersionMismatch))
                }
            },
            Phase::SecurityNegotiation => {
                if input.len() < 1 {
                    return Reply { used: 0, action: Action::NeedInput };
                }
                match SecurityType::from_code(input[0]) {
                    SecurityType::NoAuthentication => {
                        self.phase = Phase::ClientInit;
                        let mut result: Vec<u8> = Vec::new();
                        append(&mut result, u32_to_be_bytes(0).as_slice());
                        Reply { used: 1, action: Action::Send(result) }
                    },
                    SecurityType::Other(_) => self.end(
                        1,
                        SessionEnd::Violation(ProtocolViolation::SecurityMismatch),
                    ),
                }
            },
            Phase::ClientInit => {
                if input.len() < 1 {
                    return Reply { used: 0, action: Action::NeedInput };
                }
                proof {
                    use_type_invariant(server);
                }
                self.phase = Phase::MessageLoop;
                let mut init: Vec<u8> = Vec::new();
                append(&mut init, server.init_wire.as_slice());
                Reply { used: 1, action: Action::Send(init) }
            },
            Phase::MessageLoop => {
                let mut reader = ByteReader::new(input);
                match ClientMessage::read_from(&mut reader) {
                    Err(DecodeError::Incomplete) => Reply { used: 0, action: Action::NeedInput },
                    Err(DecodeError::UnknownKind(kind)) => self.end(
                        1,
                        SessionEnd::Malformed(kind),
                    ),
                    Ok(message) => {
                        let used = input.len() - reader.remaining();
                        self.on_message(server, touchscreen, message, used)
                    },
                }
            },
            Phase::Closed(end) => self.end(0, end),
        }
    }

    fn on_message(
        &mut self,
        server: &Server,
        touchscreen: &mut Touchscreen,
        message: ClientMessage,
        used: usize,
    ) -> (reply: Reply)
        requires
            old(self).phase == Phase::MessageLoop,
            !old(self).frame_owed,
        ensures
            ({
                let outcome = on_message(server@, *old(touchscreen), message@, used as nat);
                &&& *final(self) == outcome.session
                &&& *final(touchscreen) == outcome.touchscreen
                &&& reply@ == outcome.reply
            }),
    {
        match message {
            ClientMessage::SetPixelFormat(format) => {
                if format == server.init.pixel_format {
                    Reply { used, action: Action::Continue }
                } else {
                    self.end(used, SessionEnd::Violation(ProtocolViolation::PixelFormatMismatch))
                }
            },
            ClientMessage::PointerEvent { button_mask, x_position, y_position } => {
                let height = server.init.framebuffer_height;
                if button_mask & 0x01 != 0x00 && y_position <= height {
                    let x = x_position as u32;
                    let y = (height - y_position) as u32;
                    match touchscreen.press(x, y) {
                        Ok(bytes) => Reply { used, action: Action::Touch(bytes) },
                        Err(_) => self.end(used, SessionEnd::TouchUnavailable),
                    }
                } else {
                    Reply { used, action: Action::Continue }
                }
            },
            ClientMessage::FramebufferUpdateRequest { .. } => {
                self.frame_owed = true;
                Reply { used, action: Action::ReadFrame }
            },
            ClientMessage::SetEncodings(_) => Reply { used, action: Action::Continue },
            ClientMessage::KeyEvent { .. } => Reply { used, action: Action::Continue },
            ClientMessage::CutText(_) => Reply { used, action: Action::Continue },
        }
    }
}

/// A session that has just begun.
pub open spec fn fresh() -> Session {
    Session { phase: Phase::VersionExchange, frame_owed: false }
}

/// A session in the message loop that owes no frame.
pub open spec fn serving() -> Session {
    Session { phase: Phase::MessageLoop, frame_owed: false }
}

/// A session never goes back: whatever the event, the phase after a step
/// does not come before the phase it started from, and a closed session
/// stays closed for the reason it was closed for.
pub proof fn lemma_no_backward_transition(
    server: ServerView,
    session: Session,
    touchscreen: Touchscreen,
    event: EventView,
)
    ensures
        step_spec(server, session, touchscreen, event).session.phase.rank()
            >= session.phase.rank(),
        session.phase is Closed ==> step_spec(server, session, touchscreen, event).session.phase
            == session.phase,
        step_spec(server, session, touchscreen, event).session.frame_owed ==> step_spec(
            server,
            session,
            touchscreen,
            event,
        ).session.phase is MessageLoop,
{
}

/// Every step gets on: the session uses no more of the input than there
/// is, it uses nothing of an event that is no input, and where it has
/// nothing to ask of the caller, it has used at least one byte.
pub proof fn lemma_step_gets_on(
    server: ServerView,
    session: Session,
    touchscreen: Touchscreen,
    input: Seq<u8>,
    event: EventView,
)
    ensures
        step_spec(server, session, touchscreen, EventView::Input(input)).reply.used
            <= input.len(),
        !(event is Input) ==> step_spec(server, session, touchscreen, event).reply.used == 0,
        step_spec(server, session, touchscreen, EventView::Input(input)).reply.action
            is Continue ==> step_spec(
            server,
            session,
            touchscreen,
            EventView::Input(input),
        ).reply.used > 0,
{
}

/// The handshake goes through when the client asks for the server's
/// version, picks the one security type on offer and says whether it
/// shares the desktop: the session enters its message loop, and the server
/// has sent its security types, the security result and its `ServerInit`.
pub proof fn lemma_handshake(server: ServerView, touchscreen: Touchscreen, shared: u8)
    ensures
        ({
            let first = step_spec(server, fresh(), touchscreen, EventView::Input(version_token()));
            let second = step_spec(server, first.session, touchscreen, EventView::Input(seq![1u8]));
            let third = step_spec(
                server,
                second.session,
                touchscreen,
                EventView::Input(seq![shared]),
            );
            &&& first.session.phase == Phase::SecurityNegotiation
            &&& first.reply == (ReplyView { used: 12, action: ActionView::Send(seq![1u8, 1u8]) })
            &&& second.session.phase == Phase::ClientInit
            &&& second.reply == (ReplyView {
                used: 1,
                action: ActionView::Send(seq![0u8, 0u8, 0u8, 0u8]),
            })
            &&& third.session == serving()
            &&& third.reply == (ReplyView { used: 1, action: ActionView::Send(server.init.wire()) })
        }),
{
    let token = version_token();
    assert(token.take(12) =~= token);
    assert(security_types_wire(seq![SecurityType::NoAuthentication]) =~= seq![1u8, 1u8]);
    assert(security_result_wire(true) =~= seq![0u8, 0u8, 0u8, 0u8]);
}

/// A client that asks for any version but the server's ends its own
/// session and nothing else: the session is closed for the mismatch, and
/// the touchscreen, which outlives the session, is as it was.  The server
/// is no part of the outcome: no step can change it.
pub proof fn lemma_version_mismatch_ends_session(
    server: ServerView,
    touchscreen: Touchscreen,
    input: Seq<u8>,
)
    requires
        input.len() >= 12,
        input.take(12) != version_token(),
    ensures
        step_spec(server, fresh(), touchscreen, EventView::Input(input)) == ended(
            touchscreen,
            12,
            SessionEnd::Violation(ProtocolViolation::VersionMismatch),
        ),
{
}

/// A client that picks any security type but the one on offer ends its
/// session.
pub proof fn lemma_security_mismatch_ends_session(
    server: ServerView,
    touchscreen: Touchscreen,
    input: Seq<u8>,
)
    requires
        input.len() >= 1,
        input[0] != 1,
    ensures
        step_spec(
            server,
            Session { phase: Phase::SecurityNegotiation, frame_owed: false },
            touchscreen,
            EventView::Input(input),
        ) == ended(touchscreen, 1, SessionEnd::Violation(ProtocolViolation::SecurityMismatch)),
{
}

/// A client that sets another pixel format than the server's is turned
/// away: its session is closed for the mismatch.  The touchscreen is as it
/// was, and every frame that is sent afterwards, in whatever session, has
/// the header and the length that it had before, since both are the
/// server's and no step changes the server.
pub proof fn lemma_pixel_format_mismatch_rejected(
    server: ServerView,
    touchscreen: Touchscreen,
    input: Seq<u8>,
    format: PixelFormat,
    used: nat,
)
    requires
        parse_client_message(input) == Parsed::Message(
            ClientMessageView::SetPixelFormat(format),
            used,
        ),
        format != server.init.pixel_format,
    ensures
        step_spec(server, serving(), touchscreen, EventView::Input(input)) == ended(
            touchscreen,
            used,
            SessionEnd::Violation(ProtocolViolation::PixelFormatMismatch),
        ),
{
}

/// Every request for an update is answered by the whole screen.  Whatever
/// the request says of increments and regions, the session asks for the
/// whole frame; and when it gets the frame, it sends exactly one rectangle
/// that starts at the origin, spans the full width and height and is raw,
/// followed by the frame, whose length is width by height by the bytes of a
/// pixel.
pub proof fn lemma_update_request_gets_whole_screen(
    server: ServerView,
    touchscreen: Touchscreen,
    input: Seq<u8>,
    incremental: bool,
    x_position: u16,
    y_position: u16,
    width: u16,
    height: u16,
    used: nat,
    pixels: Seq<u8>,
)
    requires
        server.valid(),
        parse_client_message(input) == Parsed::Message(
            ClientMessageView::FramebufferUpdateRequest {
                incremental,
                x_position,
                y_position,
                width,
                height,
            },
            used,
        ),
        pixels.len() == server.screen.size(),
    ensures
        ({
            let asked = step_spec(server, serving(), touchscreen, EventView::Input(input));
            let sent = step_spec(server, asked.session, touchscreen, EventView::Frame(pixels));
            let header = server.frame_header();
            &&& asked.session == (Session { phase: Phase::MessageLoop, frame_owed: true })
            &&& asked.touchscreen == touchscreen
            &&& asked.reply == (ReplyView { used, action: ActionView::ReadFrame })
            &&& sent.session == serving()
            &&& sent.touchscreen == touchscreen
            &&& sent.reply == (ReplyView { used: 0, action: ActionView::SendFrame { header, pixels } })
            &&& header.len() == 16
            &&& header.take(4) == seq![0u8, 0u8, 0u8, 1u8]
            &&& Rectangle::parse(header.skip(4)) == (Rectangle {
                x_position: 0,
                y_position: 0,
                width: server.init.framebuffer_width,
                height: server.init.framebuffer_height,
                encoding: Encoding::Raw,
            })
            &&& pixels.len() == frame_len(
                server.init.framebuffer_width,
                server.init.framebuffer_height,
                server.pixel_bytes(),
            )
        }),
{
    let header = server.frame_header();
    let rectangle = Rectangle {
        x_position: 0,
        y_position: 0,
        width: server.init.framebuffer_width,
        height: server.init.framebuffer_height,
        encoding: Encoding::Raw,
    };
    lemma_rectangle_round_trip(rectangle);
    assert(framebuffer_update_wire(1) =~= seq![0u8, 0u8, 0u8, 1u8]);
    assert(header.take(4) =~= seq![0u8, 0u8, 0u8, 1u8]);
    assert(header.skip(4) =~= rectangle.wire());
}

/// A frame that comes short, or not at all, ends the session and nothing
/// else.
pub proof fn lemma_failed_frame_ends_session(
    server: ServerView,
    touchscreen: Touchscreen,
    pixels: Seq<u8>,
)
    requires
        pixels.len() != server.screen.size(),
    ensures
        ({
            let owing = Session { phase: Phase::MessageLoop, frame_owed: true };
            let closed = ended(touchscreen, 0, SessionEnd::FrameUnavailable);
            &&& step_spec(server, owing, touchscreen, EventView::FrameFailed) == closed
            &&& step_spec(server, owing, touchscreen, EventView::Frame(pixels)) == closed
        }),
{
}

/// A press of the primary button on the screen makes exactly one tap: the
/// reply is the bytes of one tap at the pointer's X and at the height of the
/// screen less the pointer's Y, under the touchscreen's next tracking id,
/// and the touchscreen moves on by one id.
pub proof fn lemma_primary_press_taps_once(
    server: ServerView,
    touchscreen: Touchscreen,
    input: Seq<u8>,
    button_mask: u8,
    x_position: u16,
    y_position: u16,
    used: nat,
)
    requires
        parse_client_message(input) == Parsed::Message(
            ClientMessageView::PointerEvent { button_mask, x_position, y_position },
            used,
        ),
        primary_button(button_mask),
        y_position <= server.init.framebuffer_height,
        touchscreen.next_id() < NO_CONTACT,
    ensures
        ({
            let outcome = step_spec(server, serving(), touchscreen, EventView::Input(input));
            &&& outcome.session == serving()
            &&& outcome.reply == (ReplyView {
                used,
                action: ActionView::Touch(
                    tap_records(
                        touchscreen.byte_order(),
                        touchscreen.time_stamp(),
                        touchscreen.next_id(),
                        x_position as u32,
                        (server.init.framebuffer_height - y_position) as u32,
                    ),
                ),
            })
            &&& outcome.touchscreen == touchscreen.after(1)
            &&& outcome.touchscreen.next_id() == touchscreen.next_id() + 1
        }),
{
    lemma_after(touchscreen, 1, 0);
}

/// A pointer event without the primary button makes no tap, wherever the
/// pointer is and whatever other buttons are down.
pub proof fn lemma_other_buttons_make_no_tap(
    server: ServerView,
    touchscreen: Touchscreen,
    input: Seq<u8>,
    button_mask: u8,
    x_position: u16,
    y_position: u16,
    used: nat,
)
    requires
        parse_client_message(input) == Parsed::Message(
            ClientMessageView::PointerEvent { button_mask, x_position, y_position },
            used,
        ),
        !primary_button(button_mask),
    ensures
        step_spec(server, serving(), touchscreen, EventView::Input(input)) == moved(
            touchscreen,
            Phase::MessageLoop,
            false,
            used,
            ActionView::Continue,
        ),
{
}

/// The Y axis is turned over: the upper edge of the pointer's screen is
/// the full height on the device, the lower edge is zero, and a step down
/// for the pointer is a step down on the device.
pub proof fn lemma_y_axis_inverted(height: u16, y_position: u16)
    ensures
        device_y(height, 0) == height,
        device_y(height, height) == 0,
        device_y(height, y_position) + y_position == height,
        y_position <= height ==> 0 <= device_y(height, y_position) <= height,
{
}

} // verus!
