use kterm::connection::keyboard::{map_key_to_rdp_scancode, Code, Key, Modifiers, Named};
use kterm::connection::link::{
    link_action, link_step, LinkAction, LinkKind, LinkNext, LinkOutcome,
};
use kterm::connection::merge::FrameMerger;
use kterm::connection::remote_input_policy::{
    is_numlock_conflict_scancode, is_remote_secure_attention_key,
    is_remote_secure_attention_shortcut, remote_secure_attention_inputs, route_key_pressed,
    route_key_released, unicode_inputs_for_text, RoutedKeyEvent,
};
use kterm::connection::serial::{
    parse_data_bits, parse_parity, parse_stop_bits, DataBits, Parity, StopBits,
};
use kterm::connection::telnet::{
    collect, escape, step_possible, TelnetDecoder, TelnetOutput, TelnetPiece,
};
use kterm::connection::types::{ConnectionEvent, ConnectionInput, RemoteInput};
use kterm::remote_display::display::FrameUpdate;

#[test]
fn command_bytes_are_doubled() {
    assert_eq!(escape(&vec![1, 255, 2]), vec![1, 255, 255, 2]);
    assert_eq!(escape(&vec![]), Vec::<u8>::new());
}

#[test]
fn pieces_are_collected_in_order() {
    let pieces = vec![
        TelnetPiece::Character(b'a'),
        TelnetPiece::Other,
        TelnetPiece::Message("bé".to_string()),
    ];
    assert_eq!(collect(&pieces), "abé".as_bytes().to_vec());
}

fn went_on(bytes: &[u8]) -> TelnetOutput {
    TelnetOutput { bytes: bytes.to_vec(), stuck: false }
}

#[test]
fn characters_are_received_without_commands() {
    let mut decoder = TelnetDecoder::new();
    assert_eq!(decoder.receive(b"ab"), went_on(b"ab"));
    assert_eq!(decoder.receive(&[255, 251, 1, b'c', 255]), went_on(b"c"));
    assert_eq!(decoder.receive(&[253, 24, b'd']), went_on(b"d"));
    assert_eq!(decoder.receive(b""), went_on(b""));
}

#[test]
fn whole_subnegotiations_are_passed_over() {
    let mut decoder = TelnetDecoder::new();
    let size = [255, 250, 31, 0, 80, 0, 24, 255, 240, b'x'];
    assert_eq!(decoder.receive(&size), went_on(b"x"));
    assert_eq!(decoder.receive(&[b'a', 255, 250, 24, 1, 255, 240, b'y']), went_on(b"ay"));
    assert!(decoder.buffer.is_empty());
}

#[test]
fn doubled_command_bytes_start_nothing() {
    let mut decoder = TelnetDecoder::new();
    assert_eq!(decoder.receive(&[255, 255, 250, b'a']), went_on(&[250, b'a']));
}

#[test]
fn started_subnegotiations_wait() {
    let mut decoder = TelnetDecoder::new();
    let output = decoder.receive(&[b'a', 255, 250, 31, 0]);
    assert_eq!(output, TelnetOutput { bytes: b"a".to_vec(), stuck: true });
    assert_eq!(decoder.buffer.to_vec(), vec![255, 250, 31, 0]);
    assert!(decoder.receive(&[80, 0, 24, 255]).stuck);
    assert_eq!(decoder.receive(&[240, b'b']), went_on(b"b"));
    assert_eq!(decoder.receive(&[b'c', 255, 250]), went_on(b"c"));
    assert!(decoder.buffer.is_empty());
}

#[test]
fn steps_that_a_decoder_can_take() {
    assert!(step_possible(&vec![]));
    assert!(step_possible(&vec![250, 255]));
    assert!(step_possible(&vec![1, 255, 250, 31]));
    assert!(step_possible(&vec![10, 255, 255, 255, 241, 255, 253]));
    assert!(step_possible(&vec![255, 250, 31, 255, 255, 255, 240]));
    assert!(step_possible(&vec![255, 240, 255, 250, 31]));
    assert!(!step_possible(&vec![255, 250, 31]));
    assert!(!step_possible(&vec![255, 250, 31, 255, 255, 240]));
    assert!(!step_possible(&vec![255, 241, 255, 250, 31, 1]));
    assert!(step_possible(&vec![255, 250, 39, 0, 255, 240]));
}

#[test]
fn line_mode_that_a_decoder_gets_through() {
    for first in [1, 2, 251, 252, 253, 254] {
        assert!(!step_possible(&vec![255, 250, 34, first, 255, 240]));
    }
    assert!(step_possible(&vec![255, 250, 34, 255, 240]));
    assert!(step_possible(&vec![255, 250, 34, 3, 255, 240]));
    assert!(step_possible(&vec![255, 250, 34, 253, 255, 241, 255, 240]));
    assert!(step_possible(&vec![255, 250, 34, 255, 255, 255, 240]));
    let mut mask = vec![255, 250, 34, 253, 2];
    mask.extend([0; 15]);
    mask.extend([255, 240]);
    assert!(!step_possible(&mask));
    mask.insert(0, 10);
    assert!(step_possible(&mask));
}

#[test]
fn subnegotiations_of_all_kinds_are_passed_over() {
    let mut mask = vec![255, 250, 34, 253, 2];
    mask.extend([7; 16]);
    mask.extend([255, 240]);
    let kinds: Vec<Vec<u8>> = vec![
        vec![255, 250, 34, 1, 3, 255, 240],
        vec![255, 250, 34, 2, 9, 255, 240],
        vec![255, 250, 34, 3, 1, 2, 3, 255, 240],
        vec![255, 250, 34, 251, 2, 255, 240],
        mask,
        vec![255, 250, 39, 1, 255, 240],
        vec![255, 250, 39, 0, 0, b'U', b'S', b'E', b'R', 1, b'm', b'e', 255, 240],
        vec![255, 250, 39, 2, 3, b'X', 1, 255, 240],
        vec![255, 250, 39, 9, 1, 2, 255, 240],
        vec![255, 250, 42, 2, b'u', 255, 240],
    ];
    for mut bytes in kinds {
        let mut decoder = TelnetDecoder::new();
        bytes.push(b'x');
        assert_eq!(decoder.receive(&bytes), went_on(b"x"), "{:?}", bytes);
    }
}

#[test]
fn telnet_tells_its_size_in_the_stream() {
    let action = link_action(LinkKind::Telnet, ConnectionInput::Resize { cols: 300, rows: 24 });
    match action {
        LinkAction::Write(bytes) => {
            assert_eq!(bytes, vec![255, 250, 31, 1, 44, 0, 24, 255, 240]);
        }
        other => panic!("{:?}", other),
    }
}

#[test]
fn typed_bytes_reach_every_kind() {
    for kind in [LinkKind::Ssh, LinkKind::Serial, LinkKind::Local] {
        let action = link_action(kind, ConnectionInput::Data(vec![1, 255]));
        assert!(matches!(action, LinkAction::Write(b) if b == vec![1, 255]));
    }
    let action = link_action(LinkKind::Telnet, ConnectionInput::Data(vec![1, 255]));
    assert!(matches!(action, LinkAction::Write(b) if b == vec![1, 255, 255]));
}

#[test]
fn sizes_and_remote_inputs() {
    let size = || ConnectionInput::Resize { cols: 80, rows: 24 };
    assert!(matches!(
        link_action(LinkKind::Ssh, size()),
        LinkAction::Resize { cols: 80, rows: 24 }
    ));
    assert!(matches!(
        link_action(LinkKind::Local, size()),
        LinkAction::Resize { cols: 80, rows: 24 }
    ));
    assert!(matches!(link_action(LinkKind::Serial, size()), LinkAction::Nothing));
    assert!(matches!(
        link_action(LinkKind::Ssh, ConnectionInput::ReleaseAllModifiers),
        LinkAction::Nothing
    ));
}

fn error_of(kind: LinkKind, outcome: LinkOutcome) -> String {
    match link_step(kind, outcome).event {
        Some(ConnectionEvent::Error(text)) => text,
        other => panic!("{:?}", other),
    }
}

#[test]
fn failures_to_open() {
    let failed = || LinkOutcome::OpenFailed("no".to_string());
    assert_eq!(error_of(LinkKind::Ssh, failed()), "no");
    assert_eq!(error_of(LinkKind::Telnet, failed()), "Telnet Connect Error: no");
    assert_eq!(error_of(LinkKind::Serial, failed()), "Serial Port Error: no");
    assert_eq!(error_of(LinkKind::Local, failed()), "no");
    assert_eq!(link_step(LinkKind::Ssh, failed()).next, LinkNext::Finished);
    assert_eq!(link_step(LinkKind::Telnet, failed()).next, LinkNext::Reopen);
}

#[test]
fn failures_of_open_connections() {
    let write = || LinkOutcome::WriteFailed("x".to_string());
    assert_eq!(error_of(LinkKind::Ssh, write()), "Send Error: x");
    assert_eq!(link_step(LinkKind::Ssh, write()).next, LinkNext::Finished);
    assert_eq!(link_step(LinkKind::Telnet, write()).next, LinkNext::Open);
    assert_eq!(
        error_of(LinkKind::Ssh, LinkOutcome::ResizeFailed("x".to_string())),
        "Resize Error: x"
    );
    assert_eq!(
        error_of(LinkKind::Serial, LinkOutcome::ReadFailed("x".to_string())),
        "Serial read error: x"
    );
    assert_eq!(error_of(LinkKind::Ssh, LinkOutcome::Refused), "Auth failed");
    let step = link_step(LinkKind::Telnet, LinkOutcome::ReadFailed("x".to_string()));
    assert!(matches!(step.event, Some(ConnectionEvent::Disconnected)));
    assert_eq!(step.next, LinkNext::Reopen);
}

#[test]
fn outcomes_that_are_told() {
    let step = link_step(LinkKind::Ssh, LinkOutcome::Opened(7));
    assert!(matches!(step.event, Some(ConnectionEvent::Connected(7))));
    let step = link_step(LinkKind::Ssh, LinkOutcome::Authenticated);
    assert!(
        matches!(step.event, Some(ConnectionEvent::Data(d)) if d == b"Authenticated...\n".to_vec())
    );
    let step = link_step(LinkKind::Telnet, LinkOutcome::Received(vec![]));
    assert!(step.event.is_none());
    let step = link_step(LinkKind::Serial, LinkOutcome::Received(vec![1]));
    assert!(matches!(step.event, Some(ConnectionEvent::Data(d)) if d == vec![1]));
    let step = link_step(LinkKind::Local, LinkOutcome::Done);
    assert!(matches!(step.event, Some(ConnectionEvent::Data(d)) if d.is_empty()));
    let step = link_step(LinkKind::Ssh, LinkOutcome::Closed);
    assert!(matches!(step.event, Some(ConnectionEvent::Disconnected)));
    let step = link_step(LinkKind::Local, LinkOutcome::InputsClosed);
    assert!(step.event.is_none());
    assert_eq!(step.next, LinkNext::Finished);
}

#[test]
fn serial_session_ends_with_its_port() {
    let step = link_step(LinkKind::Serial, LinkOutcome::Closed);
    assert!(matches!(step.event, Some(ConnectionEvent::Disconnected)));
    assert_eq!(step.next, LinkNext::Finished);
    let step = link_step(LinkKind::Serial, LinkOutcome::InputsClosed);
    assert!(step.event.is_none());
    assert_eq!(step.next, LinkNext::Finished);
    let failed = LinkOutcome::ReadFailed("x".to_string());
    assert_eq!(link_step(LinkKind::Serial, failed).next, LinkNext::Reopen);
    assert_eq!(link_step(LinkKind::Telnet, LinkOutcome::Closed).next, LinkNext::Reopen);
    assert_eq!(link_step(LinkKind::Local, LinkOutcome::Closed).next, LinkNext::Reopen);
}

#[test]
fn serial_settings() {
    assert_eq!(parse_data_bits("5"), DataBits::Five);
    assert_eq!(parse_data_bits("6"), DataBits::Six);
    assert_eq!(parse_data_bits("7"), DataBits::Seven);
    assert_eq!(parse_data_bits("8"), DataBits::Eight);
    assert_eq!(parse_data_bits("x"), DataBits::Eight);
    assert_eq!(parse_stop_bits("2"), StopBits::Two);
    assert_eq!(parse_stop_bits("1"), StopBits::One);
    assert_eq!(parse_parity("Odd"), Parity::Odd);
    assert_eq!(parse_parity("Even"), Parity::Even);
    assert_eq!(parse_parity("None"), Parity::Absent);
}

fn frame(value: u8) -> FrameUpdate {
    FrameUpdate::Full { width: 1, height: 1, rgba: vec![value; 4] }
}

fn first_bytes(updates: &Vec<FrameUpdate>) -> Vec<u8> {
    updates
        .iter()
        .map(|u| match u {
            FrameUpdate::Full { rgba, .. } => rgba[0],
            FrameUpdate::Rect { rgba, .. } => rgba[0],
        })
        .collect()
}

#[test]
fn frames_are_merged_and_other_events_wait() {
    let mut merger = FrameMerger::new();
    assert!(merger.offer(ConnectionEvent::Frames(vec![frame(1)])).is_none());
    assert!(merger.offer(ConnectionEvent::Frames(vec![frame(2)])).is_none());
    match merger.offer(ConnectionEvent::Disconnected) {
        Some(ConnectionEvent::Frames(updates)) => assert_eq!(first_bytes(&updates), vec![1, 2]),
        other => panic!("{:?}", other),
    }
    assert!(matches!(merger.take_pending(), Some(ConnectionEvent::Disconnected)));
    assert!(merger.take_pending().is_none());
}

#[test]
fn merged_frames_are_flushed() {
    let mut merger = FrameMerger::new();
    assert!(merger.flush().is_none());
    assert!(merger.offer(ConnectionEvent::Frames(vec![frame(3)])).is_none());
    match merger.flush() {
        Some(ConnectionEvent::Frames(updates)) => assert_eq!(first_bytes(&updates), vec![3]),
        other => panic!("{:?}", other),
    }
    let out = merger.offer(ConnectionEvent::Data(vec![9]));
    assert!(matches!(out, Some(ConnectionEvent::Data(d)) if d == vec![9]));
}

#[test]
fn scancodes_of_keys() {
    assert_eq!(map_key_to_rdp_scancode(Some(Code::KeyA)), Some((0x1e, false)));
    assert_eq!(map_key_to_rdp_scancode(Some(Code::ArrowUp)), Some((0x48, true)));
    assert_eq!(map_key_to_rdp_scancode(Some(Code::Numpad8)), Some((0x48, false)));
    assert_eq!(map_key_to_rdp_scancode(Some(Code::Other)), None);
    assert_eq!(map_key_to_rdp_scancode(None), None);
}

#[test]
fn presses_and_releases_match() {
    let key = Key::Character("a".to_string());
    assert_eq!(
        route_key_pressed(&key, Some("a"), Some(Code::KeyA)),
        RoutedKeyEvent::Input(RemoteInput::KeyboardScancode {
            code: 0x1e,
            extended: false,
            down: true
        })
    );
    assert_eq!(
        route_key_released(&key, Some(Code::KeyA)),
        RoutedKeyEvent::Input(RemoteInput::KeyboardScancode {
            code: 0x1e,
            extended: false,
            down: false
        })
    );
}

#[test]
fn lock_keys_are_synchronized_on_release() {
    let key = Key::Named(Named::CapsLock);
    assert_eq!(route_key_pressed(&key, None, None), RoutedKeyEvent::Ignore);
    assert_eq!(route_key_released(&key, None), RoutedKeyEvent::SyncIndicators);
    assert_eq!(
        route_key_released(&Key::Unidentified, Some(Code::NumLock)),
        RoutedKeyEvent::SyncIndicators
    );
}

#[test]
fn keys_without_a_scancode_go_as_characters() {
    let key = Key::Character("ㄱ".to_string());
    assert_eq!(
        route_key_pressed(&key, Some("ㄱ"), None),
        RoutedKeyEvent::Input(RemoteInput::KeyboardUnicode { codepoint: 0x3131, down: true })
    );
    assert_eq!(
        route_key_released(&key, None),
        RoutedKeyEvent::Input(RemoteInput::KeyboardUnicode { codepoint: 0x3131, down: false })
    );
    assert_eq!(route_key_pressed(&key, Some("😀"), None), RoutedKeyEvent::Ignore);
    assert_eq!(route_key_pressed(&key, None, None), RoutedKeyEvent::Ignore);
}

#[test]
fn text_is_typed_character_by_character() {
    assert_eq!(
        unicode_inputs_for_text("a😀b"),
        vec![
            RemoteInput::KeyboardUnicode { codepoint: 97, down: true },
            RemoteInput::KeyboardUnicode { codepoint: 97, down: false },
            RemoteInput::KeyboardUnicode { codepoint: 98, down: true },
            RemoteInput::KeyboardUnicode { codepoint: 98, down: false },
        ]
    );
}

#[test]
fn secure_attention() {
    let both = Modifiers { shift: false, control: true, alt: true };
    let one = Modifiers { shift: true, control: true, alt: false };
    assert!(is_remote_secure_attention_key(Some(Code::End)));
    assert!(is_remote_secure_attention_shortcut(Some(Code::End), both));
    assert!(!is_remote_secure_attention_shortcut(Some(Code::End), one));
    assert!(!is_remote_secure_attention_shortcut(Some(Code::Delete), both));
    assert_eq!(
        remote_secure_attention_inputs(true),
        vec![RemoteInput::KeyboardScancode { code: 0x53, extended: true, down: true }]
    );
}

#[test]
fn number_pad_conflicts() {
    let conflicts: Vec<u8> = (0..=255).filter(|c| is_numlock_conflict_scancode(*c)).collect();
    assert_eq!(
        conflicts,
        vec![0x47, 0x48, 0x49, 0x4b, 0x4c, 0x4d, 0x4f, 0x50, 0x51, 0x52, 0x53]
    );
}
