use kterm::app::connect::rdp_resolution_presets;
use kterm::app::effect::{Dial, Effect};
use kterm::app::local_shell::detect_local_shells;
use kterm::app::logging::{rdp_trace_enabled, runtime_log_path};
use kterm::app::message::Message;
use kterm::app::model::{
    FieldId, ProtocolMode, SessionKind, SettingsTabKind, SettingsTextKey, SettingsToggleKey,
};
use kterm::app::session::{content, pasted_bytes};
use kterm::app::state::State;
use kterm::app::subscription::{subscription, terminal_key_bytes, UiEvent};
use kterm::app::update::update;
use kterm::connection::keyboard::{Code, Key, Modifiers, Named};
use kterm::connection::serial::{DataBits, Parity, StopBits};
use kterm::connection::types::{
    ConnectionEvent, ConnectionInput, RemoteInput, RemoteMouseButton,
};
use kterm::remote_display::display::FrameUpdate;
use kterm::terminal::cell::Selection;

fn run(state: &mut State, message: Message) -> Vec<Effect> {
    assert!(state.can_update(&message));
    update(state, message)
}

fn connected(protocol: Message) -> State {
    let mut state = State::default();
    run(&mut state, protocol);
    let id = state.sessions[state.active_index].id;
    run(&mut state, Message::ConnectionMessage(id, ConnectionEvent::Connected(7)));
    state
}

fn row(state: &State, y: usize) -> String {
    let cells = &state.sessions[state.active_index].terminal.grid[y].cells;
    cells.iter().map(|c| c.ch).collect::<String>().trim_end().to_string()
}

#[test]
fn tabs_open_and_close() {
    let mut state = State::default();
    assert_eq!(state.sessions.len(), 1);
    let first = state.sessions[0].id;
    run(&mut state, Message::NewSshTab);
    assert_eq!(state.active_index, 1);
    assert_ne!(state.sessions[1].id, first);
    let effects = run(&mut state, Message::CloseTab(1));
    assert!(matches!(effects[..], [Effect::RemoveClipboard { .. }]));
    assert_eq!(state.active_index, 0);
    assert!(run(&mut state, Message::CloseTab(0)).is_empty());
    assert_eq!(state.sessions.len(), 1);
}

#[test]
fn tabs_that_are_not_there() {
    let mut state = State::default();
    run(&mut state, Message::NewSshTab);
    assert!(!state.can_update(&Message::CloseTab(2)));
    run(&mut state, Message::TabSelected(9));
    assert_eq!(state.active_index, 1);
    run(&mut state, Message::TabSelected(0));
    assert_eq!(state.active_index, 0);
}

#[test]
fn ssh_connection_is_dialled() {
    let mut state = State::default();
    run(&mut state, Message::HostChanged("h".to_string()));
    run(&mut state, Message::PortChanged("x".to_string()));
    run(&mut state, Message::UserChanged("u".to_string()));
    run(&mut state, Message::PassChanged("p".to_string()));
    let effects = run(&mut state, Message::ConnectSsh);
    assert_eq!(state.sessions[0].name, "SSH: u@h");
    assert_eq!(state.sessions[0].kind, SessionKind::Terminal);
    match &effects[..] {
        [Effect::Connect { session_id, dial: Dial::Ssh { host, port, user, pass, .. } }] => {
            assert_eq!(*session_id, state.sessions[0].id);
            assert_eq!((host.as_str(), *port, user.as_str(), pass.as_str()), ("h", 22, "u", "p"));
        }
        other => panic!("{:?}", other),
    }
}

#[test]
fn other_connections_are_dialled() {
    let mut state = State::default();
    run(&mut state, Message::HostChanged("h".to_string()));
    run(&mut state, Message::PortChanged("2323".to_string()));
    let effects = run(&mut state, Message::ConnectTelnet);
    assert!(matches!(
        &effects[..],
        [Effect::Connect { dial: Dial::Telnet { host, port: 2323 }, .. }] if host == "h"
    ));
    run(&mut state, Message::SerialPortChanged("COM3".to_string()));
    run(&mut state, Message::SerialBaudChanged("9600".to_string()));
    run(&mut state, Message::SettingsTextChanged(SettingsTextKey::SerialParity, "Odd".to_string()));
    let effects = run(&mut state, Message::ConnectSerial);
    assert_eq!(state.sessions[0].name, "Serial: COM3 (9600bps)");
    assert!(matches!(
        &effects[..],
        [Effect::Connect {
            dial: Dial::Serial {
                baud: 9600,
                data_bits: DataBits::Eight,
                stop_bits: StopBits::One,
                parity: Parity::Odd,
                hardware_flow: false,
                ..
            },
            ..
        }]
    ));
}

#[test]
fn remote_desktops_are_dialled() {
    let mut state = State::default();
    run(&mut state, Message::RdpHostChanged("r".to_string()));
    run(&mut state, Message::RdpUserChanged("u".to_string()));
    run(&mut state, Message::RdpResolutionSelected(0));
    let effects = run(&mut state, Message::ConnectRdp);
    let (w, h) = rdp_resolution_presets()[0];
    match &effects[..] {
        [Effect::Connect { dial: Dial::Rdp { port, width, height, .. }, .. }] => {
            assert_eq!((*port, *width, *height), (3389, w, h));
        }
        other => panic!("{:?}", other),
    }
    assert_eq!(state.sessions[0].name, "RDP: u@r:3389");
    assert!(state.sessions[0].is_rdp_display());
    run(&mut state, Message::VncHostChanged("v".to_string()));
    let effects = run(&mut state, Message::ConnectVnc);
    assert!(matches!(
        &effects[..],
        [Effect::Connect { dial: Dial::Vnc { port: 5900, pass: None, .. }, .. }]
    ));
    let display = state.sessions[0].remote_display.as_ref().unwrap();
    assert_eq!(display.status_message.as_deref(), Some("Connecting to VNC server..."));
}

#[test]
fn typed_bytes_go_to_the_connection() {
    let mut state = connected(Message::ConnectSsh);
    let effects = run(&mut state, Message::TerminalInput(vec![97]));
    assert!(matches!(
        &effects[..],
        [Effect::Send { channel: 7, input: ConnectionInput::Data(d) }] if d == &vec![97]
    ));
    assert_eq!(row(&state, 0), "");
}

#[test]
fn without_a_connection_typed_bytes_are_shown() {
    let mut state = State::default();
    assert!(run(&mut state, Message::TerminalInput(b"hi".to_vec())).is_empty());
    assert_eq!(row(&state, 0), "hi");
}

#[test]
fn events_reach_their_session_only() {
    let mut state = State::default();
    run(&mut state, Message::NewSshTab);
    let first = state.sessions[0].id;
    let event = ConnectionEvent::Data(b"x".to_vec());
    run(&mut state, Message::ConnectionMessage(first, event));
    assert_eq!(state.sessions[0].terminal.grid[0].cells[0].ch, 'x');
    assert_eq!(row(&state, 0), "");
    assert!(run(&mut state, Message::ConnectionMessage(999, ConnectionEvent::Disconnected)).is_empty());
}

#[test]
fn replies_of_the_terminal_are_sent() {
    let mut state = connected(Message::ConnectSsh);
    let id = state.sessions[0].id;
    let event = ConnectionEvent::Data(b"\x1b[6n".to_vec());
    let effects = run(&mut state, Message::ConnectionMessage(id, event));
    assert!(matches!(
        &effects[..],
        [Effect::Send { channel: 7, input: ConnectionInput::Data(d) }] if d == b"\x1b[1;1R"
    ));
    assert!(state.sessions[0].terminal.pending_responses.is_empty());
}

#[test]
fn ended_connections_are_told_and_get_nothing() {
    let mut state = connected(Message::ConnectSsh);
    let id = state.sessions[0].id;
    let event = ConnectionEvent::Error("bad".to_string());
    let effects = run(&mut state, Message::ConnectionMessage(id, event));
    assert!(matches!(effects[..], [Effect::Hang { channel: 7 }]));
    assert_eq!(row(&state, 1), "[Error: bad]");
    assert!(run(&mut state, Message::TerminalInput(vec![97])).is_empty());
    let mut state = connected(Message::ConnectVnc);
    let id = state.sessions[0].id;
    run(&mut state, Message::ConnectionMessage(id, ConnectionEvent::Disconnected));
    let display = state.sessions[0].remote_display.as_ref().unwrap();
    assert_eq!(display.status_message.as_deref(), Some("Disconnected"));
}

#[test]
fn frames_change_the_picture() {
    let mut state = connected(Message::ConnectRdp);
    let id = state.sessions[0].id;
    let frame = FrameUpdate::Full { width: 1, height: 1, rgba: vec![1, 2, 3, 4] };
    let event = ConnectionEvent::Frames(vec![frame]);
    let effects = run(&mut state, Message::ConnectionMessage(id, event));
    assert!(matches!(effects[..], [Effect::RedrawPulse]));
    let display = state.sessions[0].remote_display.as_ref().unwrap();
    assert_eq!(*display.rgba, vec![1, 2, 3, 4]);
    assert!(display.status_message.is_none());
}

#[test]
fn pictures_have_numbers_of_their_own() {
    let mut state = State::default();
    let number = |state: &State, i: usize| state.sessions[i].remote_display.as_ref().unwrap().source_id;
    run(&mut state, Message::ConnectRdp);
    let first = number(&state, 0);
    run(&mut state, Message::ConnectVnc);
    let second = number(&state, 0);
    run(&mut state, Message::NewSshTab);
    run(&mut state, Message::ConnectSsh);
    let id = state.sessions[1].id;
    let frame = FrameUpdate::Full { width: 1, height: 1, rgba: vec![1, 2, 3, 4] };
    run(&mut state, Message::ConnectionMessage(id, ConnectionEvent::Frames(vec![frame])));
    assert_eq!((first, second, number(&state, 1)), (1, 2, 3));
    assert_eq!(state.source_numbers.next, 4);
}

#[test]
fn connected_sessions_are_told_their_size() {
    let mut state = State::default();
    run(&mut state, Message::ConnectRdp);
    run(&mut state, Message::WindowSizeChanged(1181, 866));
    let id = state.sessions[0].id;
    let event = ConnectionEvent::Connected(3);
    let effects = run(&mut state, Message::ConnectionMessage(id, event));
    assert!(matches!(
        effects[..],
        [
            Effect::Send { channel: 3, input: ConnectionInput::Resize { cols: 1000, rows: 800 } },
            Effect::SendIndicators { channel: 3 }
        ]
    ));
    assert_eq!(content(100, 66), 200);
    assert_eq!(content(100_000, 66), 65535);
}

#[test]
fn terminals_are_resized() {
    let mut state = connected(Message::ConnectSsh);
    let effects = run(&mut state, Message::TerminalResize(10, 20));
    assert!(matches!(
        effects[..],
        [Effect::Send { input: ConnectionInput::Resize { cols: 20, rows: 10 }, .. }]
    ));
    assert!(run(&mut state, Message::TerminalResize(10, 20)).is_empty());
    assert!(matches!(run(&mut state, Message::TerminalResize(0, 20))[..], [Effect::Fault]));
}

#[test]
fn view_scrolls_by_three_lines() {
    let mut state = State::default();
    let rows = state.sessions[0].terminal.rows;
    run(&mut state, Message::TerminalInput(b"\r\n".repeat(rows + 3)));
    assert_eq!(state.sessions[0].terminal.history.len(), 4);
    run(&mut state, Message::TerminalScroll(true));
    assert_eq!(state.sessions[0].terminal.display_offset, 3);
    run(&mut state, Message::TerminalScroll(true));
    assert_eq!(state.sessions[0].terminal.display_offset, 4);
    run(&mut state, Message::TerminalScroll(false));
    assert_eq!(state.sessions[0].terminal.display_offset, 1);
    run(&mut state, Message::TerminalScrollTo(2));
    assert_eq!(state.sessions[0].terminal.display_offset, 2);
}

#[test]
fn selections_are_copied() {
    let mut state = State::default();
    run(&mut state, Message::TerminalInput(b"hello".to_vec()));
    run(&mut state, Message::SelectionStart(1, 0));
    run(&mut state, Message::SelectionUpdate(3, 0));
    assert_eq!(
        state.sessions[0].terminal.selection,
        Some(Selection { start: (1, 0), end: (3, 0) })
    );
    let effects = run(&mut state, Message::CopyCurrentSelection);
    assert!(matches!(&effects[..], [Effect::ThenCopy(t)] if t == "ell"));
    let effects = run(&mut state, Message::CopyText("ell".to_string()));
    assert!(matches!(&effects[..], [Effect::WriteClipboard(t)] if t == "ell"));
    assert!(run(&mut state, Message::CopyText(String::new())).is_empty());
    run(&mut state, Message::ClearSelection);
    assert!(state.sessions[0].terminal.selection.is_none());
}

#[test]
fn keys_with_a_meaning_of_their_own() {
    let mut state = State::default();
    let held = Modifiers { shift: false, control: true, alt: false };
    let free = Modifiers { shift: false, control: false, alt: false };
    let c = || Key::Character("c".to_string());
    let v = Key::Character("V".to_string());
    assert!(matches!(run(&mut state, Message::TryHandleKey(c(), held))[..], [Effect::ThenType(3)]));
    assert!(matches!(run(&mut state, Message::TryHandleKey(v, held))[..], [Effect::ThenPaste]));
    let escape = || Key::Named(Named::Escape);
    assert!(matches!(
        run(&mut state, Message::TryHandleKey(escape(), free))[..],
        [Effect::ThenType(27)]
    ));
    run(&mut state, Message::SelectionStart(0, 0));
    assert!(matches!(
        run(&mut state, Message::TryHandleKey(escape(), free))[..],
        [Effect::ThenClearSelection]
    ));
    assert!(matches!(
        run(&mut state, Message::TryHandleKey(c(), held))[..],
        [Effect::ThenCopy(_)]
    ));
}

#[test]
fn pasted_text_loses_its_nulls() {
    assert_eq!(pasted_bytes("a\0é"), "aé".as_bytes().to_vec());
    let mut state = connected(Message::ConnectSsh);
    let effects = run(&mut state, Message::PasteData(Some("a\0b".to_string())));
    assert!(matches!(
        &effects[..],
        [Effect::Send { input: ConnectionInput::Data(d), .. }] if d == b"ab"
    ));
    assert!(run(&mut state, Message::PasteData(None)).is_empty());
    assert!(matches!(run(&mut state, Message::PasteFromClipboard)[..], [Effect::ReadClipboard]));
}

#[test]
fn composed_text_is_typed() {
    let mut state = connected(Message::ConnectSsh);
    run(&mut state, Message::ImePreedit("ㅎ".to_string()));
    assert_eq!(state.sessions[0].terminal.ime_preedit, "ㅎ");
    let effects = run(&mut state, Message::ImeCommit("하".to_string()));
    assert!(matches!(
        &effects[..],
        [Effect::Send { input: ConnectionInput::Data(d), .. }] if d == "하".as_bytes()
    ));
    assert_eq!(state.sessions[0].terminal.ime_preedit, "");
    let mut state = connected(Message::ConnectRdp);
    assert_eq!(run(&mut state, Message::ImeCommit("하".to_string())).len(), 2);
}

#[test]
fn secure_attention_is_for_rdp_alone() {
    let mut state = connected(Message::ConnectRdp);
    let effects = run(&mut state, Message::RemoteSecureAttention(true));
    assert!(matches!(
        effects[..],
        [Effect::Send {
            channel: 7,
            input: ConnectionInput::RemoteInput(RemoteInput::KeyboardScancode {
                code: 0x53,
                extended: true,
                down: true
            })
        }]
    ));
    let mut state = connected(Message::ConnectVnc);
    assert!(run(&mut state, Message::RemoteSecureAttention(true)).is_empty());
}

#[test]
fn tabulator_walks_the_form() {
    let mut state = State::default();
    run(&mut state, Message::SelectProtocol(ProtocolMode::Telnet));
    let effects = run(&mut state, Message::TabPressed(false));
    assert!(matches!(effects[..], [Effect::Focus(FieldId::TelnetPort)]));
    let effects = run(&mut state, Message::TabPressed(false));
    assert!(matches!(effects[..], [Effect::Focus(FieldId::TelnetHost)]));
    let effects = run(&mut state, Message::TabPressed(true));
    assert!(matches!(effects[..], [Effect::Focus(FieldId::TelnetPort)]));
    run(&mut state, Message::FieldFocused(9));
    assert!(!state.can_update(&Message::TabPressed(true)));
    assert_eq!(FieldId::TelnetHost.name(), "telnet_host");
}

#[test]
fn menus_toggle() {
    let mut state = State::default();
    run(&mut state, Message::ToggleMenu("Session"));
    assert_eq!(state.dummy_menu_open, Some("Session"));
    run(&mut state, Message::ToggleMenu("Session"));
    assert_eq!(state.dummy_menu_open, None);
    run(&mut state, Message::ToggleMenu(""));
    assert_eq!(state.dummy_menu_open, None);
    assert!(matches!(run(&mut state, Message::CloseMenuDeferred)[..], [Effect::ThenCloseMenu]));
}

#[test]
fn window_commands_wait_for_the_window() {
    let mut state = State::default();
    assert!(run(&mut state, Message::WindowDrag).is_empty());
    run(&mut state, Message::WindowIdCaptured(5));
    run(&mut state, Message::WindowIdCaptured(6));
    assert!(matches!(run(&mut state, Message::WindowDrag)[..], [Effect::DragWindow(5)]));
    assert!(matches!(run(&mut state, Message::CloseWindow)[..], [Effect::CloseWindow(5)]));
}

#[test]
fn changed_settings_are_stored() {
    let mut state = State::default();
    let key = SettingsToggleKey::AutoReconnect;
    assert!(matches!(
        run(&mut state, Message::ToggleSettingsCheckbox(key))[..],
        [Effect::SaveSettings]
    ));
    assert!(state.settings_checkbox_value(key));
    run(&mut state, Message::OpenSettingsTab(SettingsTabKind::Theme));
    assert_eq!(state.sessions[1].kind, SessionKind::Settings);
    assert_eq!(state.settings_selected_category, 0);
}

fn key_press(key: Key, text: Option<&str>, numpad: bool, modifiers: Modifiers) -> UiEvent {
    UiEvent::KeyPressed {
        key,
        text: text.map(|t| t.to_string()),
        physical_key: Some(Code::End),
        numpad,
        modifiers,
    }
}

#[test]
fn keys_send_their_bytes() {
    let bytes = |key: Key, text: Option<&str>, numpad| {
        terminal_key_bytes(&key, &text.map(|t| t.to_string()), numpad)
    };
    assert_eq!(bytes(Key::Named(Named::ArrowUp), None, false), b"\x1b[A".to_vec());
    assert_eq!(bytes(Key::Named(Named::Delete), None, false), b"\x1b[3~".to_vec());
    assert_eq!(bytes(Key::Named(Named::Home), Some("7"), true), b"7".to_vec());
    assert_eq!(bytes(Key::Character("a".to_string()), Some("a"), false), b"a".to_vec());
    assert!(bytes(Key::Character("한".to_string()), Some("한"), false).is_empty());
}

#[test]
fn pages_hear_their_own_keys() {
    let none = Modifiers { shift: true, control: false, alt: false };
    let both = Modifiers { shift: false, control: true, alt: true };
    let mut state = State::default();
    let tab = || key_press(Key::Named(Named::Tab), None, false, none);
    let heard = subscription(&state, tab(), false);
    assert!(matches!(heard[..], [Message::TabPressed(true)]));
    run(&mut state, Message::ConnectSsh);
    let heard = subscription(&state, tab(), false);
    assert!(matches!(&heard[..], [Message::TerminalInput(b)] if b == &vec![9]));
    run(&mut state, Message::ConnectRdp);
    let heard = subscription(&state, key_press(Key::Named(Named::End), None, false, both), false);
    assert!(matches!(heard[..], [Message::RemoteSecureAttention(true)]));
    let heard = subscription(&state, key_press(Key::Named(Named::End), None, false, none), false);
    assert!(matches!(
        heard[..],
        [Message::RemoteDisplayInput(RemoteInput::KeyboardScancode {
            code: 0x4f,
            extended: true,
            down: true
        })]
    ));
}

#[test]
fn mouse_events_that_were_taken() {
    let mut state = State::default();
    run(&mut state, Message::ConnectVnc);
    let press = || UiEvent::ButtonPressed(RemoteMouseButton::Left);
    assert!(subscription(&state, press(), true).is_empty());
    assert_eq!(subscription(&state, press(), false).len(), 1);
    run(&mut state, Message::ToggleMenu("Help"));
    let heard = subscription(&state, press(), false);
    assert!(matches!(
        heard[..],
        [Message::CloseMenuDeferred, Message::RemoteDisplayInput(_)]
    ));
    let heard = subscription(&state, UiEvent::WheelScrolled { horizontal: 3, vertical: 0 }, false);
    assert!(matches!(
        heard[..],
        [Message::RemoteDisplayInput(RemoteInput::MouseHorizontalWheel { delta: 3 })]
    ));
    let heard = subscription(&state, UiEvent::WindowOpened(4), false);
    assert!(matches!(heard[..], [Message::WindowIdCaptured(4)]));
}

#[test]
fn shells_are_offered_once() {
    let path = |p: &str| Some(p.to_string());
    let shells = detect_local_shells(
        path("C:\\Windows\\System32\\CMD.EXE"),
        None,
        path("powershell.exe"),
        path("c:\\windows\\system32\\cmd.exe"),
        path("bash"),
    );
    let names: Vec<&str> = shells.iter().map(|s| s.name.as_str()).collect();
    assert_eq!(names, vec!["Command Prompt (COMSPEC)", "Windows PowerShell", "Bash"]);
    assert_eq!(shells[2].args, vec!["--login".to_string(), "-i".to_string()]);
    let none = detect_local_shells(None, None, None, None, None);
    assert_eq!(none[0].name, "Windows PowerShell (fallback)");
}

#[test]
fn chosen_shell_is_started() {
    let shells = detect_local_shells(None, None, None, None, Some("bash".to_string()));
    let mut state = State::new(shells);
    run(&mut state, Message::SelectLocalShell(5));
    assert_eq!(state.selected_local_shell, 0);
    let effects = run(&mut state, Message::ConnectLocal);
    assert!(matches!(
        &effects[..],
        [Effect::Connect { dial: Dial::Local { program, .. }, .. }] if program == "bash"
    ));
    assert_eq!(state.sessions[0].name, "Local: Bash");
}

#[test]
fn logs_are_named_after_their_start() {
    let path = runtime_log_path("20240102");
    assert_eq!((path.directory.as_str(), path.file.as_str()), ("logs", "kterm_20240102.log"));
    assert!(rdp_trace_enabled(Some("TRUE")));
    assert!(rdp_trace_enabled(Some("1")));
    assert!(!rdp_trace_enabled(Some("0")));
    assert!(!rdp_trace_enabled(None));
}
