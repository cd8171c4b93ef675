use kterm::connection::types::{
    ConnectionEvent, ConnectionInput, KeyboardIndicators, RemoteInput, RemoteMouseButton,
};
use kterm::connection::vnc::cursor::{blend, PointerState, VncCursorState};
use kterm::connection::vnc::framebuffer::{
    copy_rect_in_framebuffer, framebuffer_rect_update, write_raw_rect_to_framebuffer, CursorRect,
    VncFramebuffer,
};
use kterm::connection::vnc::keys::{
    alpha_from_scancode, is_lock_scancode, is_modifier_scancode, keysym_from_scancode_with_state,
    numpad_keysym_from_scancode, printable_symbol_from_scancode, VncKeyState,
};
use kterm::connection::vnc::worker::{
    connected_message, handshake_events, is_let_through, password_warning, server_failure,
    wheel_steps, VncAction, VncHandshake, VncServerEvent, VncWorker,
};
use kterm::remote_display::display::FrameUpdate;

fn rect(x: u16, y: u16, width: u16, height: u16) -> CursorRect {
    CursorRect { x, y, width, height }
}

fn keys(actions: &[VncAction]) -> Vec<(u32, bool)> {
    actions
        .iter()
        .map(|a| match a {
            VncAction::Key { keysym, down } => (*keysym, *down),
            other => panic!("{:?}", other),
        })
        .collect()
}

fn first_row(update: &FrameUpdate) -> Vec<u8> {
    match update {
        FrameUpdate::Full { rgba, .. } => rgba.clone(),
        FrameUpdate::Rect { rgba, .. } => rgba.clone(),
    }
}

fn sized(width: u16, height: u16) -> VncWorker {
    let mut worker = VncWorker::default();
    assert!(worker.handle_vnc_event(VncServerEvent::SetResolution { width, height }).is_empty());
    worker.end_round();
    worker
}

#[test]
fn new_resolution_sends_a_blank_picture() {
    let mut worker = VncWorker::default();
    worker.handle_vnc_event(VncServerEvent::SetResolution { width: 1, height: 1 });
    let actions = worker.end_round();
    assert_eq!(actions.len(), 1);
    match &actions[0] {
        VncAction::Frames(updates) => {
            assert_eq!(updates.len(), 1);
            assert!(matches!(updates[0], FrameUpdate::Full { width: 1, height: 1, .. }));
        }
        other => panic!("{:?}", other),
    }
    assert!(worker.cursor.needs_cursor_sync_full_refresh);
    worker.handle_vnc_event(VncServerEvent::SetCursor {
        rect: rect(0, 0, 1, 1),
        image: vec![1, 2, 3, 255],
    });
    let actions = worker.end_round();
    assert!(matches!(actions.last(), Some(VncAction::FullRefresh { restarts_timer: true })));
}

#[test]
fn raw_images_are_written_and_sent_on() {
    let mut worker = sized(2, 1);
    worker.handle_vnc_event(VncServerEvent::RawImage {
        rect: rect(1, 0, 1, 1),
        data: vec![5, 6, 7, 8, 9],
    });
    assert_eq!(worker.framebuffer.rgba[4..], [5, 6, 7, 8]);
    match &worker.end_round()[..] {
        [VncAction::Frames(updates)] => assert_eq!(first_row(&updates[0]), vec![5, 6, 7, 8]),
        other => panic!("{:?}", other),
    }
    worker.handle_vnc_event(VncServerEvent::RawImage { rect: rect(0, 0, 1, 1), data: vec![1] });
    assert!(worker.end_round().is_empty());
}

#[test]
fn picture_reads_back() {
    let mut fb = VncFramebuffer::default();
    fb.reset(3, 2);
    write_raw_rect_to_framebuffer(&mut fb, 1, 0, 2, 1, &vec![1, 2, 3, 4, 5, 6, 7, 8]);
    let update = framebuffer_rect_update(&fb, rect(1, 0, 2, 1)).unwrap();
    assert_eq!(first_row(&update), vec![1, 2, 3, 4, 5, 6, 7, 8]);
    let copied = copy_rect_in_framebuffer(&mut fb, 0, 1, 1, 0, 2, 1).unwrap();
    assert_eq!(first_row(&copied), vec![1, 2, 3, 4, 5, 6, 7, 8]);
    assert_eq!(fb.rgba[12..20], [1, 2, 3, 4, 5, 6, 7, 8]);
    assert!(copy_rect_in_framebuffer(&mut fb, 9, 9, 0, 0, 1, 1).is_none());
}

#[test]
fn overlapping_copies_read_before_they_write() {
    let mut fb = VncFramebuffer::default();
    fb.reset(3, 1);
    write_raw_rect_to_framebuffer(&mut fb, 0, 0, 2, 1, &vec![1, 1, 1, 1, 2, 2, 2, 2]);
    copy_rect_in_framebuffer(&mut fb, 1, 0, 0, 0, 2, 1);
    assert_eq!(fb.rgba, vec![1, 1, 1, 1, 1, 1, 1, 1, 2, 2, 2, 2]);
}

#[test]
fn blending_is_the_rounded_mean() {
    for cursor in (0..=255u32).step_by(5) {
        for alpha in 0..=255u32 {
            for under in (0..=255u32).step_by(3) {
                let a = alpha as f32 / 255.0;
                let mean = cursor as f32 * a + under as f32 * (1.0 - a);
                assert_eq!(blend(cursor as u8, alpha as u8, under as u8), mean.round() as u8);
            }
        }
    }
    assert_eq!(blend(200, 255, 10), 200);
    assert_eq!(blend(200, 0, 10), 10);
    assert_eq!(blend(255, 128, 0), 128);
}

#[test]
fn cursor_is_drawn_and_uncovered_but_never_in_the_picture() {
    let mut worker = sized(2, 1);
    worker.handle_vnc_event(VncServerEvent::SetCursor {
        rect: rect(0, 0, 1, 1),
        image: vec![9, 9, 9, 255],
    });
    worker.end_round();
    assert_eq!(worker.cursor.last_rect, Some(rect(0, 0, 1, 1)));
    let before = worker.framebuffer.rgba.clone();
    let actions = worker.handle_remote_input(RemoteInput::MouseMove { x: 1, y: 0 });
    assert!(matches!(actions[0], VncAction::Pointer { x: 1, y: 0, buttons: 0 }));
    match &actions[1] {
        VncAction::Frames(updates) => {
            assert_eq!(first_row(&updates[0]), before[..4].to_vec());
            assert_eq!(first_row(&updates[1]), vec![9, 9, 9, 255]);
        }
        other => panic!("{:?}", other),
    }
    assert_eq!(worker.framebuffer.rgba, before);
    assert_eq!(worker.cursor.last_rect, Some(rect(1, 0, 1, 1)));
}

#[test]
fn cursor_without_all_its_pixels_has_no_shape() {
    let mut cursor = VncCursorState::default();
    assert!(!cursor.has_shape());
    cursor.width = 1;
    cursor.height = 1;
    cursor.rgba = vec![0; 3];
    assert!(!cursor.has_shape());
    cursor.rgba = vec![0; 4];
    assert!(cursor.has_shape());
    assert_eq!(PointerState::default(), PointerState { x: 0, y: 0, buttons: 0 });
}

#[test]
fn many_rectangles_become_the_whole_picture() {
    let mut worker = sized(1, 1);
    for _ in 0..64 {
        worker.handle_vnc_event(VncServerEvent::RawImage {
            rect: rect(0, 0, 1, 1),
            data: vec![4; 4],
        });
    }
    match &worker.end_round()[..] {
        [VncAction::Frames(updates)] => {
            assert_eq!(updates.len(), 1);
            assert!(matches!(updates[0], FrameUpdate::Full { .. }));
        }
        other => panic!("{:?}", other),
    }
}

#[test]
fn streaks_of_rectangles_become_the_whole_picture() {
    let mut worker = sized(1, 1);
    for round in 1..=6 {
        worker.handle_vnc_event(VncServerEvent::RawImage {
            rect: rect(0, 0, 1, 1),
            data: vec![4; 4],
        });
        let actions = worker.end_round();
        match &actions[..] {
            [VncAction::Frames(updates)] => {
                let full = matches!(updates[0], FrameUpdate::Full { .. });
                assert_eq!(full, round == 6);
            }
            other => panic!("{:?}", other),
        }
    }
    assert_eq!(worker.rect_only_streak, 0);
}

#[test]
fn lock_keys_are_brought_in_line_once() {
    let mut worker = VncWorker::default();
    let local = KeyboardIndicators { scroll_lock: true, num_lock: false, caps_lock: true };
    let input = || ConnectionInput::SyncKeyboardIndicators(local);
    assert_eq!(
        keys(&worker.handle_connection_input(input())),
        vec![(0xffe5, true), (0xffe5, false), (0xff14, true), (0xff14, false)]
    );
    assert!(worker.handle_connection_input(input()).is_empty());
}

#[test]
fn pasted_bytes_are_typed_as_text() {
    let mut worker = VncWorker::default();
    let typed = worker.handle_connection_input(ConnectionInput::Data(vec![b'a', 0, 0xff]));
    assert_eq!(
        keys(&typed),
        vec![(97, true), (97, false), (0xfffd, true), (0xfffd, false)]
    );
}

#[test]
fn modifiers_are_released() {
    let mut worker = VncWorker::default();
    let released = worker.handle_connection_input(ConnectionInput::ReleaseAllModifiers);
    assert_eq!(
        keys(&released).iter().map(|k| k.0).collect::<Vec<u32>>(),
        vec![0xffe1, 0xffe2, 0xffe3, 0xffe4, 0xffe9, 0xffea, 0xffeb, 0xffec]
    );
    let asked = worker.handle_connection_input(ConnectionInput::Resize { cols: 1, rows: 1 });
    assert!(matches!(asked[..], [VncAction::FullRefresh { restarts_timer: false }]));
}

#[test]
fn buttons_and_wheels() {
    let mut worker = VncWorker::default();
    let button = |button, down| RemoteInput::MouseButton { button, down };
    let one = worker.handle_remote_input(button(RemoteMouseButton::Middle, true));
    assert!(matches!(one[..], [VncAction::Pointer { buttons: 2, .. }]));
    let two = worker.handle_remote_input(button(RemoteMouseButton::Right, true));
    assert!(matches!(two[..], [VncAction::Pointer { buttons: 6, .. }]));
    let up = worker.handle_remote_input(button(RemoteMouseButton::Middle, false));
    assert!(matches!(up[..], [VncAction::Pointer { buttons: 4, .. }]));
    let turned = worker.handle_remote_input(RemoteInput::MouseWheel { delta: -240 });
    assert_eq!(turned.len(), 4);
    assert!(matches!(turned[0], VncAction::Pointer { buttons: 0x14, .. }));
    assert!(matches!(turned[1], VncAction::Pointer { buttons: 4, .. }));
    let turned = worker.handle_remote_input(RemoteInput::MouseHorizontalWheel { delta: 1 });
    assert!(matches!(turned[0], VncAction::Pointer { buttons: 0x24, .. }));
}

#[test]
fn wheel_steps_are_bounded() {
    assert_eq!(wheel_steps(0), 1);
    assert_eq!(wheel_steps(120), 1);
    assert_eq!(wheel_steps(121), 2);
    assert_eq!(wheel_steps(-360), 3);
    assert_eq!(wheel_steps(i16::MIN), 8);
}

#[test]
fn key_symbols() {
    let plain = VncKeyState::default();
    let shifted = VncKeyState { shift_left: true, ..plain };
    let capitals = VncKeyState { caps_lock: true, ..plain };
    assert_eq!(keysym_from_scancode_with_state(0x1e, false, &plain), Some('a' as u32));
    assert_eq!(keysym_from_scancode_with_state(0x1e, false, &shifted), Some('A' as u32));
    assert_eq!(keysym_from_scancode_with_state(0x1e, false, &capitals), Some('A' as u32));
    assert_eq!(
        keysym_from_scancode_with_state(
            0x1e,
            false,
            &VncKeyState { shift_right: true, ..capitals }
        ),
        Some('a' as u32)
    );
    assert_eq!(keysym_from_scancode_with_state(0x02, false, &shifted), Some('!' as u32));
    assert_eq!(keysym_from_scancode_with_state(0x1c, false, &plain), Some(0xff0d));
    assert_eq!(alpha_from_scancode(0x32), Some('m'));
    assert_eq!(printable_symbol_from_scancode(0x35), Some(('/', '?')));
    assert_eq!(numpad_keysym_from_scancode(0x47, true), Some(0xffb7));
    assert_eq!(numpad_keysym_from_scancode(0x47, false), Some(0xff50));
    assert!(is_lock_scancode(0x3a, false));
    assert!(is_modifier_scancode(0x2a, false));
}

#[test]
fn lock_keys_flip_when_they_go_down() {
    let mut state = VncKeyState::default();
    state.update_from_scancode(0x3a, false, true);
    state.update_from_scancode(0x3a, false, false);
    assert!(state.caps_lock);
    state.update_from_scancode(0x3a, false, true);
    assert!(!state.caps_lock);
    state.update_from_scancode(0x2a, false, true);
    assert!(state.shift_active());
    state.update_from_scancode(0x2a, false, false);
    assert!(!state.shift_active());
}

#[test]
fn failures_of_the_server() {
    assert_eq!(server_failure("Wrong PASSWORD"), "VNC authentication failed: Wrong PASSWORD");
    assert_eq!(server_failure("no Security"), "VNC security negotiation failed: no Security");
    assert_eq!(server_failure("gone"), "VNC engine error: gone");
    let mut worker = VncWorker::default();
    let actions = worker.handle_vnc_event(VncServerEvent::Error("gone".to_string()));
    assert!(matches!(&actions[..], [VncAction::Fail(t)] if t == "VNC engine error: gone"));
}

#[test]
fn texts_for_the_user() {
    let mut worker = VncWorker::default();
    let actions = worker.handle_vnc_event(VncServerEvent::Text("hi".to_string()));
    assert!(matches!(
        &actions[..],
        [VncAction::Message(m)] if m == b"\r\n[VNC] Clipboard text from server: hi\r\n"
    ));
    assert!(password_warning("12345678").is_none());
    assert!(password_warning("123456789").is_some());
    assert_eq!(
        connected_message("h", 5900),
        b"\r\n[VNC] Connected: h:5900 (encodings: CopyRect, Raw, DesktopSize, CursorPseudo)\r\n"
            .to_vec()
    );
}

#[test]
fn watched_servers_get_no_input() {
    let size = ConnectionInput::Resize { cols: 1, rows: 1 };
    let typed = ConnectionInput::Data(vec![97]);
    assert!(is_let_through(true, &size) && is_let_through(false, &typed));
    assert!(!is_let_through(true, &typed));
    assert!(!is_let_through(true, &ConnectionInput::ReleaseAllModifiers));
}

#[test]
fn refreshes_in_time() {
    let worker = VncWorker::default();
    assert!(matches!(worker.tick(1999), VncAction::Refresh));
    assert!(matches!(worker.tick(2000), VncAction::FullRefresh { restarts_timer: true }));
}

#[test]
fn sessions_start_with_their_channel_after_the_handshake() {
    let events = handshake_events("h", 5900, VncHandshake::Completed { channel: 4 });
    assert_eq!(events.len(), 2);
    assert!(matches!(events[0], ConnectionEvent::Connected(4)));
    let words = connected_message("h", 5900);
    assert!(matches!(&events[1], ConnectionEvent::Data(d) if *d == words));
    let events = handshake_events("h", 5900, VncHandshake::Failed("no".to_string()));
    assert!(matches!(&events[..], [ConnectionEvent::Error(e)] if e == "no"));
}
