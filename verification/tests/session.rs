use vnc::device;
use vnc::protocol::{PixelFormat, ServerInit};
use vnc::screen::ScreenMemory;
use vnc::session::{
    Action, ConfigError, Event, Phase, ProtocolViolation, Reply, Server, Session, SessionEnd,
};
use vnc::touch::{ByteOrder, Touchscreen};

const FRAME_LEN: usize = 1404 * 1872 * 2;

fn server() -> Server {
    let screen = ScreenMemory::new(ByteOrder::Little, &[0, 0x10, 0, 0], 1404, 1872, 2).unwrap();
    Server::new(device::server_init(), screen).unwrap()
}

fn small_server() -> Server {
    let screen = ScreenMemory::new(ByteOrder::Little, &[0, 0, 0, 0], 2, 3, 2).unwrap();
    let init = ServerInit {
        framebuffer_width: 2,
        framebuffer_height: 3,
        pixel_format: device::pixel_format(),
        name: b"tiny".to_vec(),
    };
    Server::new(init, screen).unwrap()
}

fn touchscreen() -> Touchscreen {
    Touchscreen::with_order(ByteOrder::Little, 6426)
}

fn input<'a>(session: &mut Session, server: &Server, touch: &mut Touchscreen, bytes: &'a [u8]) -> Reply {
    session.step(server, touch, Event::Input(bytes))
}

fn shake_hands(server: &Server, touch: &mut Touchscreen) -> Session {
    let (mut session, _) = Session::new();
    input(&mut session, server, touch, b"RFB 003.008\n");
    input(&mut session, server, touch, &[1]);
    input(&mut session, server, touch, &[1]);
    assert_eq!(session.phase, Phase::MessageLoop);
    session
}

fn tap_position(bytes: &[u8]) -> (u32, u32, u32) {
    let value = |record: usize| {
        let at = record * 16 + 12;
        u32::from_le_bytes([bytes[at], bytes[at + 1], bytes[at + 2], bytes[at + 3]])
    };
    (value(1), value(2), value(3))
}

const RGB565: [u8; 16] = [16, 16, 0, 1, 0, 31, 0, 63, 0, 31, 11, 5, 0, 0, 0, 0];

#[test]
fn a_session_begins_by_announcing_the_version() {
    let (session, greeting) = Session::new();
    assert_eq!(session, Session { phase: Phase::VersionExchange, frame_owed: false });
    assert_eq!(greeting, b"RFB 003.008\n".to_vec());
    assert!(!session.is_closed());
}

#[test]
fn the_servers_version_leads_to_security_negotiation() {
    let server = server();
    let mut touch = touchscreen();
    let (mut session, _) = Session::new();
    let reply = input(&mut session, &server, &mut touch, b"RFB 003.008\n");
    assert_eq!(reply, Reply { used: 12, action: Action::Send(vec![1, 1]) });
    assert_eq!(session.phase, Phase::SecurityNegotiation);
}

#[test]
fn another_version_ends_the_session_and_the_next_client_is_served() {
    let server = server();
    let mut touch = touchscreen();
    for token in [&b"RFB 003.003\n"[..], b"RFB 003.007\n", b"RFB 003.008\r", b"rfb 003.008\n", b"GET / HTTP/1", &[0u8; 12]] {
        let (mut session, _) = Session::new();
        let reply = input(&mut session, &server, &mut touch, token);
        let end = SessionEnd::Violation(ProtocolViolation::VersionMismatch);
        assert_eq!(reply, Reply { used: 12, action: Action::Close(end) });
        assert_eq!(session.phase, Phase::Closed(end));
        assert!(session.is_closed());
        assert_eq!(touch, touchscreen());
    }
    let (mut next, greeting) = Session::new();
    assert_eq!(greeting, b"RFB 003.008\n".to_vec());
    let reply = input(&mut next, &server, &mut touch, b"RFB 003.008\n");
    assert_eq!(reply, Reply { used: 12, action: Action::Send(vec![1, 1]) });
    assert_eq!(next.phase, Phase::SecurityNegotiation);
}

#[test]
fn the_version_is_awaited_in_full() {
    let server = server();
    let mut touch = touchscreen();
    let (mut session, _) = Session::new();
    let token = b"RFB 003.008\n";
    for n in 0..12 {
        let reply = input(&mut session, &server, &mut touch, &token[..n]);
        assert_eq!(reply, Reply { used: 0, action: Action::NeedInput });
        assert_eq!(session.phase, Phase::VersionExchange);
    }
    let reply = input(&mut session, &server, &mut touch, b"RFB 003.008\n\x01\x01");
    assert_eq!(reply.used, 12);
    assert_eq!(session.phase, Phase::SecurityNegotiation);
}

#[test]
fn the_handshake_runs_to_the_message_loop() {
    let server = server();
    let mut touch = touchscreen();
    let (mut session, _) = Session::new();
    input(&mut session, &server, &mut touch, b"RFB 003.008\n");
    let reply = input(&mut session, &server, &mut touch, &[]);
    assert_eq!(reply, Reply { used: 0, action: Action::NeedInput });
    let reply = input(&mut session, &server, &mut touch, &[1]);
    assert_eq!(reply, Reply { used: 1, action: Action::Send(vec![0, 0, 0, 0]) });
    assert_eq!(session.phase, Phase::ClientInit);
    let reply = input(&mut session, &server, &mut touch, &[]);
    assert_eq!(reply, Reply { used: 0, action: Action::NeedInput });
    let reply = input(&mut session, &server, &mut touch, &[0]);
    let mut init: Vec<u8> = vec![0x05, 0x7c, 0x07, 0x50];
    init.extend_from_slice(&RGB565);
    init.extend_from_slice(&[0, 0, 0, 11]);
    init.extend_from_slice(b"remarkable2");
    assert_eq!(reply, Reply { used: 1, action: Action::Send(init) });
    assert_eq!(session, Session { phase: Phase::MessageLoop, frame_owed: false });
}

#[test]
fn the_shared_flag_is_taken_whatever_it_says() {
    let server = server();
    for flag in [0u8, 1, 2, 255] {
        let mut touch = touchscreen();
        let (mut session, _) = Session::new();
        input(&mut session, &server, &mut touch, b"RFB 003.008\n");
        input(&mut session, &server, &mut touch, &[1]);
        let reply = input(&mut session, &server, &mut touch, &[flag]);
        assert_eq!(reply.used, 1);
        assert_eq!(reply.action, Action::Send(server.init().encode().unwrap()));
        assert_eq!(session.phase, Phase::MessageLoop);
    }
}

#[test]
fn another_security_type_ends_the_session() {
    let server = server();
    for choice in [0u8, 2, 30, 255] {
        let mut touch = touchscreen();
        let (mut session, _) = Session::new();
        input(&mut session, &server, &mut touch, b"RFB 003.008\n");
        let reply = input(&mut session, &server, &mut touch, &[choice]);
        let end = SessionEnd::Violation(ProtocolViolation::SecurityMismatch);
        assert_eq!(reply, Reply { used: 1, action: Action::Close(end) });
        assert_eq!(session.phase, Phase::Closed(end));
    }
}

#[test]
fn the_servers_own_pixel_format_is_accepted() {
    let server = server();
    let mut touch = touchscreen();
    let mut session = shake_hands(&server, &mut touch);
    let mut message = vec![0u8, 0, 0, 0];
    message.extend_from_slice(&RGB565);
    let reply = input(&mut session, &server, &mut touch, &message);
    assert_eq!(reply, Reply { used: 20, action: Action::Continue });
    assert_eq!(session.phase, Phase::MessageLoop);
    message[1] = 3;
    message[7] = 7;
    message[17] = 9;
    let reply = input(&mut session, &server, &mut touch, &message);
    assert_eq!(reply, Reply { used: 20, action: Action::Continue });
}

#[test]
fn another_pixel_format_is_rejected_and_frames_stay_as_they_were() {
    let server = server();
    let mut touch = touchscreen();
    let header_before = server.frame_header();
    let mut session = shake_hands(&server, &mut touch);
    let mut message = vec![0u8, 0, 0, 0];
    message.extend_from_slice(&[32, 24, 0, 1, 0, 255, 0, 255, 0, 255, 16, 8, 0, 0, 0, 0]);
    let reply = input(&mut session, &server, &mut touch, &message);
    let end = SessionEnd::Violation(ProtocolViolation::PixelFormatMismatch);
    assert_eq!(reply, Reply { used: 20, action: Action::Close(end) });
    assert_eq!(session.phase, Phase::Closed(end));
    assert_eq!(touch, touchscreen());
    assert_eq!(server.init().pixel_format, device::pixel_format());

    let mut next = shake_hands(&server, &mut touch);
    let reply = input(&mut next, &server, &mut touch, &[3, 0, 0, 0, 0, 0, 0, 1, 0, 1]);
    assert_eq!(reply, Reply { used: 10, action: Action::ReadFrame });
    let reply = next.step(&server, &mut touch, Event::Frame(vec![0x5a; FRAME_LEN]));
    match reply.action {
        Action::SendFrame { header, pixels } => {
            assert_eq!(header, header_before);
            assert_eq!(pixels.len(), FRAME_LEN);
        }
        other => panic!("no frame: {:?}", other),
    }
}

#[test]
fn every_change_of_one_format_byte_that_counts_is_rejected() {
    let server = server();
    for at in 0..13 {
        let mut touch = touchscreen();
        let mut session = shake_hands(&server, &mut touch);
        let mut message = vec![0u8, 0, 0, 0];
        message.extend_from_slice(&RGB565);
        message[4 + at] ^= 0x80;
        let flag_still_set = at == 3;
        let reply = input(&mut session, &server, &mut touch, &message);
        if flag_still_set {
            assert_eq!(reply.action, Action::Continue);
        } else {
            assert_eq!(
                reply.action,
                Action::Close(SessionEnd::Violation(ProtocolViolation::PixelFormatMismatch))
            );
        }
    }
}

#[test]
fn an_incremental_request_for_a_corner_gets_the_whole_screen() {
    let server = server();
    let mut touch = touchscreen();
    let mut session = shake_hands(&server, &mut touch);
    let reply = input(&mut session, &server, &mut touch, &[3, 1, 0, 0, 0, 0, 0, 10, 0, 10]);
    assert_eq!(reply, Reply { used: 10, action: Action::ReadFrame });
    assert_eq!(session, Session { phase: Phase::MessageLoop, frame_owed: true });
    let frame: Vec<u8> = (0..FRAME_LEN).map(|i| (i % 251) as u8).collect();
    let reply = session.step(&server, &mut touch, Event::Frame(frame.clone()));
    assert_eq!(
        reply,
        Reply {
            used: 0,
            action: Action::SendFrame {
                header: vec![0, 0, 0, 1, 0, 0, 0, 0, 0x05, 0x7c, 0x07, 0x50, 0, 0, 0, 0],
                pixels: frame,
            },
        }
    );
    assert_eq!(session, Session { phase: Phase::MessageLoop, frame_owed: false });
    assert_eq!(touch, touchscreen());
}

#[test]
fn whatever_the_request_says_the_reply_is_the_same() {
    let server = small_server();
    let requests: [[u8; 10]; 5] = [
        [3, 0, 0, 0, 0, 0, 0, 2, 0, 3],
        [3, 1, 0, 0, 0, 0, 0, 2, 0, 3],
        [3, 1, 0, 1, 0, 1, 0, 1, 0, 1],
        [3, 0xff, 0xff, 0xff, 0xff, 0xff, 0xff, 0xff, 0xff, 0xff],
        [3, 0, 0, 0, 0, 0, 0, 0, 0, 0],
    ];
    for request in requests {
        let mut touch = touchscreen();
        let mut session = shake_hands(&server, &mut touch);
        let reply = input(&mut session, &server, &mut touch, &request);
        assert_eq!(reply, Reply { used: 10, action: Action::ReadFrame });
        let pixels: Vec<u8> = (1..=12).collect();
        let reply = session.step(&server, &mut touch, Event::Frame(pixels.clone()));
        assert_eq!(
            reply.action,
            Action::SendFrame {
                header: vec![0, 0, 0, 1, 0, 0, 0, 0, 0, 2, 0, 3, 0, 0, 0, 0],
                pixels,
            }
        );
    }
}

#[test]
fn the_frame_header_names_one_raw_rectangle_over_the_screen() {
    assert_eq!(
        server().frame_header(),
        vec![0, 0, 0, 1, 0, 0, 0, 0, 0x05, 0x7c, 0x07, 0x50, 0, 0, 0, 0]
    );
    assert_eq!(server().screen().len(), FRAME_LEN);
}

#[test]
fn a_frame_of_another_length_ends_the_session() {
    let server = small_server();
    for len in [0usize, 11, 13] {
        let mut touch = touchscreen();
        let mut session = shake_hands(&server, &mut touch);
        input(&mut session, &server, &mut touch, &[3, 0, 0, 0, 0, 0, 0, 2, 0, 3]);
        let reply = session.step(&server, &mut touch, Event::Frame(vec![0; len]));
        assert_eq!(reply, Reply { used: 0, action: Action::Close(SessionEnd::FrameUnavailable) });
        assert_eq!(session.phase, Phase::Closed(SessionEnd::FrameUnavailable));
    }
}

#[test]
fn a_failed_read_between_two_requests_ends_the_session_and_the_server_goes_on() {
    let server = small_server();
    let mut touch = touchscreen();
    let mut session = shake_hands(&server, &mut touch);
    let request = [3u8, 0, 0, 0, 0, 0, 0, 2, 0, 3];
    assert_eq!(input(&mut session, &server, &mut touch, &request).action, Action::ReadFrame);
    let reply = session.step(&server, &mut touch, Event::Frame(vec![7; 12]));
    assert!(matches!(reply.action, Action::SendFrame { .. }));
    assert_eq!(input(&mut session, &server, &mut touch, &request).action, Action::ReadFrame);
    let reply = session.step(&server, &mut touch, Event::FrameFailed);
    assert_eq!(reply, Reply { used: 0, action: Action::Close(SessionEnd::FrameUnavailable) });
    assert!(session.is_closed());
    let reply = input(&mut session, &server, &mut touch, &request);
    assert_eq!(reply, Reply { used: 0, action: Action::Close(SessionEnd::FrameUnavailable) });

    let mut next = shake_hands(&server, &mut touch);
    assert_eq!(input(&mut next, &server, &mut touch, &request).action, Action::ReadFrame);
}

#[test]
fn while_a_frame_is_owed_input_waits() {
    let server = small_server();
    let mut touch = touchscreen();
    let mut session = shake_hands(&server, &mut touch);
    input(&mut session, &server, &mut touch, &[3, 0, 0, 0, 0, 0, 0, 2, 0, 3]);
    let reply = input(&mut session, &server, &mut touch, &[5, 1, 0, 1, 0, 1]);
    assert_eq!(reply, Reply { used: 0, action: Action::ReadFrame });
    assert_eq!(touch, touchscreen());
    assert!(session.frame_owed);
}

#[test]
fn a_frame_that_was_not_asked_for_is_dropped() {
    let server = small_server();
    let mut touch = touchscreen();
    let mut session = shake_hands(&server, &mut touch);
    let reply = session.step(&server, &mut touch, Event::Frame(vec![0; 12]));
    assert_eq!(reply, Reply { used: 0, action: Action::Continue });
    let reply = session.step(&server, &mut touch, Event::FrameFailed);
    assert_eq!(reply, Reply { used: 0, action: Action::Continue });
    assert_eq!(session, Session { phase: Phase::MessageLoop, frame_owed: false });
    let (mut early, _) = Session::new();
    let reply = early.step(&server, &mut touch, Event::Frame(vec![0; 12]));
    assert_eq!(reply, Reply { used: 0, action: Action::Continue });
    assert_eq!(early.phase, Phase::VersionExchange);
}

#[test]
fn a_primary_press_taps_at_the_inverted_height() {
    let server = server();
    let mut touch = touchscreen();
    let mut session = shake_hands(&server, &mut touch);
    let reply = input(&mut session, &server, &mut touch, &[5, 1, 0, 100, 0, 50]);
    assert_eq!(reply.used, 6);
    let mut expected = touchscreen();
    let bytes = expected.press(100, 1822).unwrap();
    match reply.action {
        Action::Touch(tap) => {
            assert_eq!(tap_position(&tap), (6426, 100, 1822));
            assert_eq!(tap, bytes);
        }
        other => panic!("no tap: {:?}", other),
    }
    assert_eq!(touch.tracking_id(), 6427);
    assert_eq!(touch, expected);
    assert_eq!(session, Session { phase: Phase::MessageLoop, frame_owed: false });
}

#[test]
fn the_upper_edge_is_the_full_height_and_the_lower_edge_is_zero() {
    let server = server();
    let mut touch = touchscreen();
    let mut session = shake_hands(&server, &mut touch);
    let reply = input(&mut session, &server, &mut touch, &[5, 1, 0, 0, 0, 0]);
    match reply.action {
        Action::Touch(tap) => assert_eq!(tap_position(&tap), (6426, 0, 1872)),
        other => panic!("no tap: {:?}", other),
    }
    let reply = input(&mut session, &server, &mut touch, &[5, 1, 0x05, 0x7c, 0x07, 0x50]);
    match reply.action {
        Action::Touch(tap) => assert_eq!(tap_position(&tap), (6427, 1404, 0)),
        other => panic!("no tap: {:?}", other),
    }
    let reply = input(&mut session, &server, &mut touch, &[5, 1, 0xff, 0xff, 0x07, 0x4f]);
    match reply.action {
        Action::Touch(tap) => assert_eq!(tap_position(&tap), (6428, 65535, 1)),
        other => panic!("no tap: {:?}", other),
    }
}

#[test]
fn every_primary_press_uses_the_next_tracking_id() {
    let server = server();
    let mut touch = touchscreen();
    let mut session = shake_hands(&server, &mut touch);
    for n in 0..20u32 {
        let reply = input(&mut session, &server, &mut touch, &[5, 0x01 | ((n as u8) << 1), 0, 7, 0, 9]);
        match reply.action {
            Action::Touch(tap) => {
                assert_eq!(tap.len(), 128);
                assert_eq!(tap_position(&tap), (6426 + n, 7, 1863));
                assert_eq!(&tap[124..], &[0, 0, 0, 0]);
                assert_eq!(&tap[108..112], &[0xff, 0xff, 0xff, 0xff]);
            }
            other => panic!("no tap: {:?}", other),
        }
    }
    assert_eq!(touch.tracking_id(), 6446);
    let mut later = shake_hands(&server, &mut touch);
    let reply = input(&mut later, &server, &mut touch, &[5, 1, 0, 7, 0, 9]);
    match reply.action {
        Action::Touch(tap) => assert_eq!(tap_position(&tap).0, 6446),
        other => panic!("no tap: {:?}", other),
    }
}

#[test]
fn other_buttons_and_plain_motion_make_no_tap() {
    let server = server();
    let mut touch = touchscreen();
    let mut session = shake_hands(&server, &mut touch);
    for mask in [0u8, 2, 4, 8, 0x10, 0xfe] {
        let reply = input(&mut session, &server, &mut touch, &[5, mask, 0, 100, 0, 50]);
        assert_eq!(reply, Reply { used: 6, action: Action::Continue });
    }
    assert_eq!(touch, touchscreen());
}

#[test]
fn a_press_below_the_screen_makes_no_tap() {
    let server = server();
    let mut touch = touchscreen();
    let mut session = shake_hands(&server, &mut touch);
    for y in [1873u16, 2000, 65535] {
        let y = y.to_be_bytes();
        let reply = input(&mut session, &server, &mut touch, &[5, 1, 0, 100, y[0], y[1]]);
        assert_eq!(reply, Reply { used: 6, action: Action::Continue });
    }
    assert_eq!(touch, touchscreen());
    assert_eq!(session.phase, Phase::MessageLoop);
}

#[test]
fn a_press_without_a_tracking_id_left_ends_the_session() {
    let server = server();
    let mut touch = Touchscreen::with_order(ByteOrder::Little, 0xffff_fffe);
    let mut session = shake_hands(&server, &mut touch);
    let reply = input(&mut session, &server, &mut touch, &[5, 1, 0, 1, 0, 1]);
    assert!(matches!(reply.action, Action::Touch(_)));
    let reply = input(&mut session, &server, &mut touch, &[5, 1, 0, 1, 0, 1]);
    assert_eq!(reply, Reply { used: 6, action: Action::Close(SessionEnd::TouchUnavailable) });
    assert_eq!(session.phase, Phase::Closed(SessionEnd::TouchUnavailable));
    assert_eq!(touch.tracking_id(), u32::MAX);
}

#[test]
fn encodings_keys_and_clipboard_are_taken_and_dropped() {
    let server = server();
    let mut touch = touchscreen();
    let mut session = shake_hands(&server, &mut touch);
    let reply = input(&mut session, &server, &mut touch, &[2, 0, 0, 2, 0, 0, 0, 16, 0, 0, 0, 0]);
    assert_eq!(reply, Reply { used: 12, action: Action::Continue });
    let reply = input(&mut session, &server, &mut touch, &[4, 1, 0, 0, 0, 0, 0xff, 0x0d]);
    assert_eq!(reply, Reply { used: 8, action: Action::Continue });
    let reply = input(&mut session, &server, &mut touch, &[6, 0, 0, 0, 0, 0, 0, 2, b'h', b'i']);
    assert_eq!(reply, Reply { used: 10, action: Action::Continue });
    assert_eq!(session, Session { phase: Phase::MessageLoop, frame_owed: false });
    assert_eq!(touch, touchscreen());
    let reply = input(&mut session, &server, &mut touch, &[3, 0, 0, 0, 0, 0, 0, 1, 0, 1]);
    assert_eq!(reply.action, Action::ReadFrame);
}

#[test]
fn an_incomplete_message_waits_for_more() {
    let server = server();
    let mut touch = touchscreen();
    let mut session = shake_hands(&server, &mut touch);
    let message = [5u8, 1, 0, 100, 0, 50];
    for n in 0..6 {
        let reply = input(&mut session, &server, &mut touch, &message[..n]);
        assert_eq!(reply, Reply { used: 0, action: Action::NeedInput });
    }
    assert_eq!(touch, touchscreen());
}

#[test]
fn only_the_first_message_of_the_input_is_used() {
    let server = server();
    let mut touch = touchscreen();
    let mut session = shake_hands(&server, &mut touch);
    let both = [4u8, 1, 0, 0, 0, 0, 0, 65, 5, 1, 0, 100, 0, 50];
    let reply = input(&mut session, &server, &mut touch, &both);
    assert_eq!(reply, Reply { used: 8, action: Action::Continue });
    let reply = input(&mut session, &server, &mut touch, &both[8..]);
    assert_eq!(reply.used, 6);
    assert!(matches!(reply.action, Action::Touch(_)));
}

#[test]
fn a_message_of_an_unknown_kind_ends_the_session() {
    let server = server();
    for kind in [1u8, 7, 100, 255] {
        let mut touch = touchscreen();
        let mut session = shake_hands(&server, &mut touch);
        let reply = input(&mut session, &server, &mut touch, &[kind, 0, 0]);
        assert_eq!(reply, Reply { used: 1, action: Action::Close(SessionEnd::Malformed(kind)) });
        assert_eq!(session.phase, Phase::Closed(SessionEnd::Malformed(kind)));
    }
}

#[test]
fn a_lost_connection_ends_the_session_in_every_phase() {
    let server = server();
    let mut touch = touchscreen();
    let (mut session, _) = Session::new();
    let reply = session.step(&server, &mut touch, Event::Disconnected);
    assert_eq!(reply, Reply { used: 0, action: Action::Close(SessionEnd::Disconnected) });
    let mut session = shake_hands(&server, &mut touch);
    input(&mut session, &server, &mut touch, &[3, 0, 0, 0, 0, 0, 0, 1, 0, 1]);
    let reply = session.step(&server, &mut touch, Event::Disconnected);
    assert_eq!(reply, Reply { used: 0, action: Action::Close(SessionEnd::Disconnected) });
    assert_eq!(session, Session { phase: Phase::Closed(SessionEnd::Disconnected), frame_owed: false });
}

#[test]
fn a_closed_session_stays_closed() {
    let server = server();
    let mut touch = touchscreen();
    let (mut session, _) = Session::new();
    input(&mut session, &server, &mut touch, b"RFB 003.007\n");
    let end = SessionEnd::Violation(ProtocolViolation::VersionMismatch);
    let closed = Reply { used: 0, action: Action::Close(end) };
    assert_eq!(input(&mut session, &server, &mut touch, b"RFB 003.008\n"), closed);
    assert_eq!(session.step(&server, &mut touch, Event::Disconnected), closed);
    assert_eq!(session.step(&server, &mut touch, Event::FrameFailed), closed);
    assert_eq!(session.step(&server, &mut touch, Event::Frame(vec![])), closed);
    assert_eq!(session.phase, Phase::Closed(end));
}

#[test]
fn a_server_wants_whole_bytes_to_the_pixel_and_a_frame_of_its_size() {
    let screen = ScreenMemory::new(ByteOrder::Little, &[0, 0, 0, 0], 2, 3, 2).unwrap();
    let init = |bits: u8| ServerInit {
        framebuffer_width: 2,
        framebuffer_height: 3,
        pixel_format: PixelFormat { bits_per_pixel: bits, ..device::pixel_format() },
        name: b"tiny".to_vec(),
    };
    assert!(Server::new(init(16), screen).is_ok());
    for bits in [0u8, 1, 12, 15, 17, 24, 64, 255] {
        assert_eq!(Server::new(init(bits), screen).err(), Some(ConfigError::PixelWidth));
    }
    assert_eq!(Server::new(init(8), screen).err(), Some(ConfigError::FrameSize));
    assert_eq!(Server::new(init(32), screen).err(), Some(ConfigError::FrameSize));
    let wide = ScreenMemory::new(ByteOrder::Little, &[0, 0, 0, 0], 2, 3, 4).unwrap();
    let server = Server::new(init(32), wide).unwrap();
    assert_eq!(server.screen(), wide);
    assert_eq!(server.init().framebuffer_height, 3);
}
