//! What the messages change in the state of the application.
use crate::app::effect::Fx;
use crate::app::local_shell::offered_shells;
use crate::app::message::Message;
use crate::app::model::{
    FieldId, ProtocolMode, RemoteDisplayProtocol, SessionKind, SettingsTextKey, SettingsToggleKey,
    Shell, Tab,
};
use crate::app::session::without_nulls;
use crate::app::state::{fields_of, Form, Model};
use crate::connection::serial::{data_bits_named, parity_named, stop_bits_named};
use crate::connection::types::Input;
use crate::terminal::cell::Selection;
use crate::text::{lowercase, parsed_unsigned};
use vstd::prelude::*;
use vstd::utf8::encode_utf8;

verus! {

/// What is entered in a field of a form stands there, and nowhere else.
#[verifier::rlimit(40)]
pub proof fn entering_text(m: Model, message: Message)
    ensures
        ({
            let after = m.after(message);
            match message {
                Message::HostChanged(s) => after.form == (Form { ssh_host: s@, ..m.form }),
                Message::PortChanged(s) => after.form == (Form { ssh_port: s@, ..m.form }),
                Message::UserChanged(s) => after.form == (Form { ssh_user: s@, ..m.form }),
                Message::PassChanged(s) => after.form == (Form { ssh_pass: s@, ..m.form }),
                Message::SerialPortChanged(s) => after.form == (Form { serial_port: s@, ..m.form }),
                Message::SerialBaudChanged(s) => after.form == (Form { serial_baud: s@, ..m.form }),
                Message::RdpHostChanged(s) => after.form == (Form { rdp_host: s@, ..m.form }),
                Message::RdpPortChanged(s) => after.form == (Form { rdp_port: s@, ..m.form }),
                Message::RdpUserChanged(s) => after.form == (Form { rdp_user: s@, ..m.form }),
                Message::RdpPassChanged(s) => after.form == (Form { rdp_pass: s@, ..m.form }),
                Message::VncHostChanged(s) => after.form == (Form { vnc_host: s@, ..m.form }),
                Message::VncPortChanged(s) => after.form == (Form { vnc_port: s@, ..m.form }),
                Message::VncPassChanged(s) => after.form == (Form { vnc_pass: s@, ..m.form }),
                _ => after.form == m.form,
            }
        }),
{
}

/// A choice is kept: of a tab or a shell that is there, of a protocol, and of what stands in a list.
#[verifier::rlimit(30)]
#[verifier::spinoff_prover]
pub proof fn choosing(m: Model, message: Message)
    requires
        message is TabSelected || message is SelectProtocol || message is SelectLocalShell || message
            is RdpResolutionSelected || message is SettingsCategorySelected || message
            is FieldFocused,
    ensures
        ({
            let after = m.after(message);
            match message {
                Message::TabSelected(i) => after.active == (if i < m.tabs.len() {
                    i as int
                } else {
                    m.active
                }),
                Message::SelectProtocol(mode) => after.welcome == mode && after.focused == 0,
                Message::SelectLocalShell(i) => after.shell == (if i < m.shells.len() {
                    i as int
                } else {
                    m.shell
                }),
                Message::RdpResolutionSelected(i) => after.resolution == i,
                Message::SettingsCategorySelected(i) => after.category == i,
                Message::FieldFocused(i) => after.focused == i,
                _ => true,
            }
        }),
{
}

/// A menu opens when it is chosen and closes when it is chosen again, and the window is known by the
/// first id that comes.
#[verifier::rlimit(30)]
#[verifier::spinoff_prover]
pub proof fn menus_and_windows(m: Model, message: Message)
    requires
        message is WindowSizeChanged || message is WindowResize || message is ResizeFinished
            || message is WindowIdCaptured || message is ToggleMenu || message is CloseMenu
            || message is CloseMenuDeferred,
    ensures
        ({
            let after = m.after(message);
            match message {
                Message::WindowSizeChanged(w, h) => after.size == (w, h),
                Message::WindowResize(direction) => after.resizing == Some(direction),
                Message::ResizeFinished => after.resizing is None,
                Message::WindowIdCaptured(id) => after.window == (if m.window is None {
                    Some(id)
                } else {
                    m.window
                }),
                Message::ToggleMenu(menu) => after.menu == (if menu@.len() == 0 || m.menu == Some(
                    menu@,
                ) {
                    None
                } else {
                    Some(menu@)
                }),
                Message::CloseMenu => after.menu is None,
                Message::CloseMenuDeferred => after.menu == m.menu,
                _ => true,
            }
        }),
{
}

/// Of the tabs, an input changes the one that is shown, and nothing of it but what the input is about.
#[verifier::rlimit(40)]
pub proof fn inputs_change_the_tab_that_is_shown(m: Model, message: Message)
    requires
        m.wf(),
    ensures
        ({
            let tab = m.current();
            let after = m.after(message).tabs[m.active];
            match message {
                Message::TerminalInput(bytes) => after == tab.after_typing(bytes@),
                Message::PasteData(Some(text)) => after == tab.after_typing(
                    encode_utf8(without_nulls(text@)),
                ),
                Message::PasteData(None) => after == tab,
                Message::ImePreedit(text) => after.screen.preedit == text@,
                Message::ImeCommit(text) => after == tab.after_commit(text@),
                Message::TerminalResize(rows, cols) => after == tab.after_resize(
                    rows as int,
                    cols as int,
                ),
                Message::TerminalScroll(back) => after == tab.scrolled(back),
                Message::TerminalScrollTo(offset) => after.screen.offset == offset,
                Message::SelectionStart(col, row) => after.screen.selection == Some(
                    Selection { start: (col, row), end: (col, row) },
                ),
                Message::SelectionUpdate(col, row) => after == tab.selection_moved(col, row),
                Message::ClearSelection => after.screen.selection is None,
                Message::CopyCurrentSelection => after == tab,
                _ => true,
            }
        }),
{
}

/// The window does what is asked of it, once it is known.
#[verifier::rlimit(30)]
#[verifier::spinoff_prover]
pub proof fn the_window_obeys(m: Model, message: Message)
    requires
        message is WindowDrag || message is WindowResize || message is MinimizeWindow || message
            is MaximizeWindow || message is CloseWindow,
    ensures
        m.window is None ==> m.effects(message).len() == 0,
        m.window matches Some(id) ==> m.effects(message).len() == 1 && match message {
            Message::WindowDrag => m.effects(message)[0] == Fx::DragWindow(id),
            Message::WindowResize(direction) => m.effects(message)[0] == Fx::DragResizeWindow(
                id,
                direction,
            ),
            Message::MinimizeWindow => m.effects(message)[0] == Fx::MinimizeWindow(id),
            Message::MaximizeWindow => m.effects(message)[0] == Fx::ToggleMaximizeWindow(id),
            _ => m.effects(message)[0] == Fx::CloseWindow(id),
        },
{
}

/// What is copied goes to the clipboard, unless it is empty; pasting reads it. Settings that change are
/// stored.
#[verifier::rlimit(30)]
#[verifier::spinoff_prover]
pub proof fn copying_pasting_and_storing(m: Model, message: Message)
    requires
        message is CopyText || message is CopyCurrentSelection || message is PasteFromClipboard
            || message is ToggleSettingsCheckbox || message is SettingsTextChanged || message
            is CloseMenuDeferred,
    ensures
        ({
            let asked = m.effects(message);
            match message {
                Message::CopyText(text) => if text@.len() == 0 {
                    asked.len() == 0
                } else {
                    asked == seq![Fx::WriteClipboard(text@)]
                },
                Message::CopyCurrentSelection => asked == seq![
                    Fx::ThenCopy(m.current().screen.selected_text()),
                ],
                Message::PasteFromClipboard => asked == seq![Fx::ReadClipboard],
                Message::CloseMenuDeferred => asked == seq![Fx::ThenCloseMenu],
                _ => asked == seq![Fx::SaveSettings],
            }
        }),
{
}

/// What an input asks for is what it asks of the session that is shown.
#[verifier::rlimit(30)]
#[verifier::spinoff_prover]
pub proof fn inputs_ask_of_the_tab_that_is_shown(m: Model, message: Message)
    requires
        message is TerminalInput || message is ImeCommit || message is TerminalResize || message
            is TryHandleKey || message is RemoteDisplayInput || message is RemoteDisplayInputs
            || message is RemoteSecureAttention || message is SyncRemoteKeyboardIndicators || message
            is ReleaseRemoteModifiers,
    ensures
        ({
            let tab = m.current();
            let asked = m.effects(message);
            match message {
                Message::TerminalInput(bytes) => asked == tab.typing_fx(bytes@),
                Message::ImeCommit(text) => asked == tab.commit_fx(text@),
                Message::TerminalResize(rows, cols) => asked == tab.resize_fx(
                    rows as int,
                    cols as int,
                ),
                Message::TryHandleKey(key, modifiers) => asked == tab.key_fx(key, modifiers),
                Message::RemoteDisplayInput(input) => asked == tab.remote_fx(seq![input]),
                Message::RemoteDisplayInputs(inputs) => asked == tab.remote_fx(inputs@),
                Message::RemoteSecureAttention(down) => asked == tab.attention_fx(down),
                Message::SyncRemoteKeyboardIndicators => asked == tab.indicators_fx(),
                _ => asked == tab.desktop_fx(Input::ReleaseAllModifiers),
            }
        }),
{
}

/// A tab that is closed is gone, and the others keep their order. Its connection is given up, and what
/// it put in the clipboard is removed. Where no tab has the place of the one that is shown, the last
/// one is.
pub proof fn closing_a_tab(m: Model, index: int, k: int)
    requires
        0 <= m.active < m.tabs.len(),
        m.tabs.len() > 1,
        0 <= index < m.tabs.len(),
        0 <= k,
    ensures
        ({
            let after = m.closed(index);
            let asked = m.close_fx(index);
            let gone = m.tabs[index];
            let removed = Fx::RemoveClipboard { session_id: gone.id };
            &&& after.tabs.len() == m.tabs.len() - 1
            &&& k < index ==> after.tabs[k] == m.tabs[k]
            &&& index <= k < m.tabs.len() - 1 ==> after.tabs[k] == m.tabs[k + 1]
            &&& m.active < m.tabs.len() - 1 ==> after.active == m.active
            &&& m.active == m.tabs.len() - 1 ==> after.active == m.tabs.len() - 2
            &&& gone.sender is None ==> asked == seq![removed]
            &&& gone.sender matches Some(channel) ==> asked == seq![Fx::Hang { channel }, removed]
            &&& after.next_id == m.next_id && after.settings == m.settings && after.form == m.form
        }),
{
    let removed = Fx::RemoveClipboard { session_id: m.tabs[index].id };
    match m.tabs[index].sender {
        Some(channel) => {
            assert(m.close_fx(index) =~= seq![Fx::Hang { channel }, removed]);
        },
        None => {
            assert(m.close_fx(index) =~= seq![removed]);
        },
    }
}

/// A new tab comes last and is shown, and its id is not given out again.
pub proof fn opening_a_tab(m: Model, tab: Tab)
    requires
        m.next_id < u64::MAX,
    ensures
        m.opened(tab).tabs == m.tabs.push(tab),
        m.opened(tab).active == m.tabs.len(),
        m.opened(tab).next_id == m.next_id + 1,
        m.opened(tab).settings == m.settings && m.opened(tab).form == m.form,
{
}

/// The tabulator goes through the fields of the form in their order and starts anew after the last;
/// with the shift key it goes back.
pub proof fn the_tabulator_goes_on(m: Model, i: int)
    requires
        0 <= i < fields_of(m.welcome).len(),
        m.focused == i,
    ensures
        ({
            let fields = fields_of(m.welcome);
            let n = fields.len() as int;
            &&& i + 1 < n ==> m.tabbed(false).focused == i + 1 && m.tab_fx(false) == seq![
                Fx::Focus(fields[i + 1]),
            ]
            &&& i + 1 == n ==> m.tabbed(false).focused == 0 && m.tab_fx(false) == seq![
                Fx::Focus(fields[0]),
            ]
            &&& i > 0 ==> m.tabbed(true).focused == i - 1 && m.tab_fx(true) == seq![
                Fx::Focus(fields[i - 1]),
            ]
            &&& i == 0 ==> m.tabbed(true).focused == n - 1 && m.tab_fx(true) == seq![
                Fx::Focus(fields[n - 1]),
            ]
        }),
{
    let n = fields_of(m.welcome).len() as int;
    if i + 1 < n {
        vstd::arithmetic::div_mod::lemma_small_mod((i + 1) as nat, n as nat);
    } else {
        assert(n % n == 0) by (nonlinear_arith)
            requires
                n > 0,
        ;
    }
}

/// A form asks for the host first, then for the port, the user and the password, as far as the
/// protocol has them. A serial form asks for the port and its speed, and a local shell for nothing.
pub proof fn forms_have_their_fields()
    ensures
        fields_of(ProtocolMode::Ssh) == seq![
            FieldId::SshHost,
            FieldId::SshPort,
            FieldId::SshUser,
            FieldId::SshPass,
        ],
        fields_of(ProtocolMode::Telnet) == seq![FieldId::TelnetHost, FieldId::TelnetPort],
        fields_of(ProtocolMode::Serial) == seq![FieldId::SerialPort, FieldId::SerialBaud],
        fields_of(ProtocolMode::Rdp) == seq![
            FieldId::RdpHost,
            FieldId::RdpPort,
            FieldId::RdpUser,
            FieldId::RdpPass,
            FieldId::RdpResolution,
        ],
        fields_of(ProtocolMode::Vnc) == seq![FieldId::VncHost, FieldId::VncPort, FieldId::VncPass],
        fields_of(ProtocolMode::Local).len() == 0,
{
}

/// The number that a text spells, or another one where it spells none up to a limit.
pub open spec fn number_or(s: Seq<char>, max: nat, default: int) -> int {
    if parsed_unsigned(s, max) is Some {
        parsed_unsigned(s, max)->0 as int
    } else {
        default
    }
}

/// Connecting gives up a former connection, and dials what the form and the settings say, for the
/// session that is shown. A port that is no number is the protocol's own.
#[verifier::rlimit(30)]
#[verifier::spinoff_prover]
pub proof fn connections_are_dialled(m: Model, message: Message)
    requires
        m.wf(),
        message is ConnectSsh || message is ConnectTelnet || message is ConnectSerial || message
            is ConnectLocal || message is ConnectRdp || message is ConnectVnc,
    ensures
        ({
            let tab = m.current();
            let asked = m.effects(message);
            let call = asked.last()->Connect_call;
            let f = m.form;
            let t = m.settings;
            &&& tab.sender is None ==> asked.len() == 1
            &&& tab.sender matches Some(channel) ==> asked.len() == 2 && asked[0] == (Fx::Hang {
                channel,
            })
            &&& asked.last() == (Fx::Connect { session_id: tab.id, call })
            &&& message is ConnectSsh ==> call is Ssh && call->Ssh_host == f.ssh_host
                && call->Ssh_port == number_or(f.ssh_port, 65535, 22) && call->Ssh_user == f.ssh_user
                && call->Ssh_pass == f.ssh_pass && call->keepalive == number_or(
                t.text(SettingsTextKey::SshKeepAliveInterval),
                u64::MAX as nat,
                0,
            ) && call->terminal_type == t.text(SettingsTextKey::SshTerminalType)
            &&& message is ConnectTelnet ==> call is Telnet && call->Telnet_host == f.ssh_host
                && call->Telnet_port == number_or(f.ssh_port, 65535, 23)
            &&& message is ConnectSerial ==> call is Serial && call->port_name == f.serial_port
                && call->baud == number_or(f.serial_baud, 4294967295, 115200)
                && call->hardware_flow == t.flag(SettingsToggleKey::HardwareFlowControl)
                && call->data_bits == data_bits_named(t.text(SettingsTextKey::SerialDataBits))
                && call->stop_bits == stop_bits_named(t.text(SettingsTextKey::SerialStopBits))
                && call->parity == parity_named(t.text(SettingsTextKey::SerialParity))
            &&& message is ConnectLocal && 0 <= m.shell < m.shells.len() ==> call is Local
                && call->program == m.shells[m.shell].program && call->args
                == m.shells[m.shell].args
            &&& message is ConnectRdp ==> call is Rdp && call->Rdp_host == f.rdp_host
                && call->Rdp_port == number_or(f.rdp_port, 65535, 3389) && call->Rdp_user
                == f.rdp_user && call->Rdp_pass == f.rdp_pass && call->enable_credssp == t.flag(
                SettingsToggleKey::RdpNla,
            ) && call->enable_audio == t.flag(SettingsToggleKey::RdpEnableAudio)
                && call->font_smoothing == t.flag(SettingsToggleKey::RdpFontSmoothing)
                && call->desktop_composition == t.flag(SettingsToggleKey::RdpDesktopComposition)
                && call->color_depth == number_or(
                t.text(SettingsTextKey::RdpColorDepth),
                4294967295,
                32,
            )
            &&& message is ConnectVnc ==> call is Vnc && call->Vnc_host == f.vnc_host
                && call->Vnc_port == number_or(f.vnc_port, 65535, 5900) && (f.vnc_pass.len() == 0
                ==> call->Vnc_pass is None) && (f.vnc_pass.len() > 0 ==> call->Vnc_pass == Some(
                f.vnc_pass,
            )) && call->remote_cursor == t.flag(SettingsToggleKey::VncRemoteCursor)
                && call->shared_session == t.flag(SettingsToggleKey::VncSharedSession)
                && call->view_only == t.flag(SettingsToggleKey::VncViewOnly) && call->timeout_secs
                == number_or(t.text(SettingsTextKey::VncTimeout), u64::MAX as nat, 10)
        }),
{
}

/// A session that dials becomes a fresh terminal of the size that it had, or a picture of the size
/// that was chosen, under its old id. It has no connection yet, and no other session changes.
#[verifier::rlimit(30)]
#[verifier::spinoff_prover]
pub proof fn dialling_sessions_start_fresh(m: Model, message: Message)
    requires
        m.wf(),
        m.next_source < u64::MAX,
        message is ConnectSsh || message is ConnectTelnet || message is ConnectSerial || message
            is ConnectLocal || message is ConnectRdp || message is ConnectVnc,
    ensures
        ({
            let tab = m.current();
            let after = m.after(message);
            let new = after.current();
            let pictured = message is ConnectRdp || message is ConnectVnc;
            &&& after.tabs.len() == m.tabs.len()
            &&& new.id == tab.id && new.sender is None
            &&& !pictured ==> {
                &&& new.kind == SessionKind::Terminal && new.display is None && new.protocol is None
                &&& new.screen.rows == tab.screen.rows && new.screen.cols == tab.screen.cols
                &&& new.screen.history.len() == 0 && new.screen.cursor_x == 0
                    && new.screen.cursor_y == 0
                &&& after.next_source == m.next_source
            }
            &&& pictured ==> {
                &&& new.kind == SessionKind::RemoteDisplay && new.display is Some
                &&& new.display->0.source_id == m.next_source
                &&& after.next_source == m.next_source + 1
                &&& forall|i: int|
                    0 <= i < new.display->0.rgba.len() ==> new.display->0.rgba[i] == 0
            }
            &&& message is ConnectRdp ==> {
                let asked = m.effects(message).last()->Connect_call;
                &&& new.protocol == Some(RemoteDisplayProtocol::Rdp)
                &&& new.display->0.width == asked->Rdp_width && new.display->0.height
                    == asked->Rdp_height
                &&& new.display->0.status is None
            }
            &&& message is ConnectVnc ==> new.protocol == Some(RemoteDisplayProtocol::Vnc)
                && new.display->0.width == 1280 && new.display->0.height == 720
                && new.display->0.status is Some
        }),
{
}

/// The sizes that can be chosen for a remote desktop grow from 1024 by 768 to 2560 by 1440 pixels; any
/// other choice means 1280 by 720.
pub proof fn desktop_sizes_can_be_chosen(m: Model, other: int)
    requires
        other < 0 || other >= 7,
    ensures
        (Model { resolution: 0, ..m }).resolution_chosen() == (1024u16, 768u16),
        (Model { resolution: 1, ..m }).resolution_chosen() == (1280u16, 720u16),
        (Model { resolution: 2, ..m }).resolution_chosen() == (1280u16, 1024u16),
        (Model { resolution: 3, ..m }).resolution_chosen() == (1366u16, 768u16),
        (Model { resolution: 4, ..m }).resolution_chosen() == (1600u16, 900u16),
        (Model { resolution: 5, ..m }).resolution_chosen() == (1920u16, 1080u16),
        (Model { resolution: 6, ..m }).resolution_chosen() == (2560u16, 1440u16),
        (Model { resolution: other, ..m }).resolution_chosen() == (1280u16, 720u16),
{
}

/// The application starts with one welcome page, for SSH, and with the usual ports.
pub proof fn the_application_starts_with_a_welcome_page(shells: Seq<Shell>)
    ensures
        ({
            let m = Model::fresh(shells);
            &&& m.tabs.len() == 1 && m.active == 0
            &&& m.tabs[0].kind == SessionKind::Welcome && m.tabs[0].id < m.next_id
            &&& m.tabs[0].screen.rows == 24 && m.tabs[0].screen.cols == 80
            &&& m.welcome == ProtocolMode::Ssh && m.focused == 0 && m.shell == 0
            &&& m.shells == shells
            &&& m.form.ssh_port == seq!['2', '2'] && m.form.ssh_host.len() == 0
            &&& m.form.rdp_port == seq!['3', '3', '8', '9'] && m.form.rdp_host.len() == 0
            &&& m.form.vnc_port == seq!['5', '9', '0', '0'] && m.form.vnc_host.len() == 0
            &&& m.form.serial_baud == seq!['1', '1', '5', '2', '0', '0']
            &&& m.form.ssh_pass.len() == 0 && m.form.rdp_pass.len() == 0 && m.form.vnc_pass.len()
                == 0
            &&& m.menu is None && m.window is None && m.resizing is None
            &&& m.size == (1024u32, 768u32)
            &&& m.resolution_chosen() == (1280u16, 720u16)
        }),
{
    reveal_strlit("");
    reveal_strlit("22");
    reveal_strlit("3389");
    reveal_strlit("5900");
    reveal_strlit("115200");
    assert("22"@ =~= seq!['2', '2']);
    assert("3389"@ =~= seq!['3', '3', '8', '9']);
    assert("5900"@ =~= seq!['5', '9', '0', '0']);
    assert("115200"@ =~= seq!['1', '1', '5', '2', '0', '0']);
}

/// A session is named after its protocol and what it is connected to.
pub proof fn sessions_are_named(m: Model)
    ensures
        m.form.ssh_host.is_suffix_of(m.ssh_name()),
        ("SSH: "@ + m.form.ssh_user).is_prefix_of(m.ssh_name()),
        ("Telnet: "@ + m.form.ssh_host).is_prefix_of(m.telnet_name()),
        crate::text::decimal(number_or(m.form.ssh_port, 65535, 23) as nat).is_suffix_of(
            m.telnet_name(),
        ),
        ("Serial: "@ + m.form.serial_port).is_prefix_of(m.serial_name()),
        m.shell_chosen().name.is_suffix_of(m.local_name()),
        ("RDP: "@ + m.form.rdp_user).is_prefix_of(m.rdp_name()),
        crate::text::decimal(number_or(m.form.rdp_port, 65535, 3389) as nat).is_suffix_of(
            m.rdp_name(),
        ),
        ("VNC: "@ + m.form.vnc_host).is_prefix_of(m.vnc_name()),
        crate::text::decimal(number_or(m.form.vnc_port, 65535, 5900) as nat).is_suffix_of(
            m.vnc_name(),
        ),
        0 <= m.shell < m.shells.len() ==> m.shell_chosen() == m.shells[m.shell],
{
    let ssh = m.ssh_name();
    assert(ssh.skip(ssh.len() - m.form.ssh_host.len()) =~= m.form.ssh_host);
    assert(ssh.take(("SSH: "@ + m.form.ssh_user).len() as int) =~= "SSH: "@ + m.form.ssh_user);
    let telnet = m.telnet_name();
    let port = crate::text::decimal(number_or(m.form.ssh_port, 65535, 23) as nat);
    assert(telnet.skip(telnet.len() - port.len()) =~= port);
    assert(telnet.take(("Telnet: "@ + m.form.ssh_host).len() as int) =~= "Telnet: "@
        + m.form.ssh_host);
    let serial = m.serial_name();
    assert(serial.take(("Serial: "@ + m.form.serial_port).len() as int) =~= "Serial: "@
        + m.form.serial_port);
    let local = m.local_name();
    let name = m.shell_chosen().name;
    assert(local.skip(local.len() - name.len()) =~= name);
    let rdp = m.rdp_name();
    let rdp_port = crate::text::decimal(number_or(m.form.rdp_port, 65535, 3389) as nat);
    assert(rdp.skip(rdp.len() - rdp_port.len()) =~= rdp_port);
    assert(rdp.take(("RDP: "@ + m.form.rdp_user).len() as int) =~= "RDP: "@ + m.form.rdp_user);
    let vnc = m.vnc_name();
    let vnc_port = crate::text::decimal(number_or(m.form.vnc_port, 65535, 5900) as nat);
    assert(vnc.skip(vnc.len() - vnc_port.len()) =~= vnc_port);
    assert(vnc.take(("VNC: "@ + m.form.vnc_host).len() as int) =~= "VNC: "@ + m.form.vnc_host);
}

/// The shells that were found are offered in their order, those of PowerShell without their greeting
/// and Bash as a login shell. Where none was found, Windows PowerShell is.
pub proof fn found_shells_are_offered(
    comspec: Seq<char>,
    pwsh: Seq<char>,
    powershell: Seq<char>,
    cmd: Seq<char>,
    bash: Seq<char>,
)
    requires
        ({
            let all = seq![
                lowercase(comspec),
                lowercase(pwsh),
                lowercase(powershell),
                lowercase(cmd),
                lowercase(bash),
            ];
            forall|i: int, j: int| 0 <= i < j < 5 ==> #[trigger] all[i] != #[trigger] all[j]
        }),
    ensures
        ({
            let shells = offered_shells(
                Some(comspec),
                Some(pwsh),
                Some(powershell),
                Some(cmd),
                Some(bash),
            );
            let quiet = seq!["-NoLogo"@, "-NoExit"@];
            let none = offered_shells(None, None, None, None, None);
            &&& shells.len() == 5
            &&& shells[0].program == comspec && shells[0].args.len() == 0
            &&& shells[1].program == pwsh && shells[1].args == quiet
            &&& shells[2].program == powershell && shells[2].args == quiet
            &&& shells[3].program == cmd && shells[3].args.len() == 0
            &&& shells[4].program == bash && shells[4].args == seq!["--login"@, "-i"@]
            &&& none.len() == 1 && none[0].program == "powershell.exe"@ && none[0].args == quiet
            &&& offered_shells(None, None, None, Some(cmd), None).len() == 1
            &&& offered_shells(None, None, None, Some(cmd), None)[0].program == cmd
            &&& offered_shells(Some(cmd), None, None, Some(cmd), None).len() == 1
        }),
{
    let all = seq![
        lowercase(comspec),
        lowercase(pwsh),
        lowercase(powershell),
        lowercase(cmd),
        lowercase(bash),
    ];
    assert(all[0] == lowercase(comspec) && all[1] == lowercase(pwsh) && all[2] == lowercase(
        powershell,
    ) && all[3] == lowercase(cmd) && all[4] == lowercase(bash));
    assert(all[0] != all[1] && all[0] != all[2] && all[0] != all[3] && all[0] != all[4]);
    assert(all[1] != all[2] && all[1] != all[3] && all[1] != all[4]);
    assert(all[2] != all[3] && all[2] != all[4] && all[3] != all[4]);
    let one = offered_shells(Some(cmd), None, None, None, None);
    assert(one.len() == 1 && one[0].program == cmd);
}

} // verus!
