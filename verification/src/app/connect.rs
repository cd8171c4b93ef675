//! Opening connections: what the forms and the settings say about them.
use crate::app::effect::{fxs, one, push_effect, Call, Dial, Effect, Fx};
use crate::app::model::{
    copy_texts, LocalShellOption, RemoteDisplayProtocol, Session, SettingsTextKey,
    SettingsToggleKey, Shell, Tab,
};
use crate::app::state::{Model, State};
use crate::connection::serial::{
    data_bits_named, parity_named, parse_data_bits, parse_parity, parse_stop_bits, stop_bits_named,
};
use crate::remote_display::display::{next_seq, Display};
use crate::text::{
    decimal, parse_u16_or, parse_u32_or, parse_u64_or, push_decimal, u16_or, u32_or, u64_or,
};
use vstd::prelude::*;

verus! {

/// The sizes that a remote desktop can be asked for, as width and height.
pub open spec fn resolution_presets() -> Seq<(u16, u16)> {
    seq![
        (1024u16, 768u16),
        (1280u16, 720u16),
        (1280u16, 1024u16),
        (1366u16, 768u16),
        (1600u16, 900u16),
        (1920u16, 1080u16),
        (2560u16, 1440u16),
    ]
}

/// The sizes that a remote desktop can be asked for, as width and height.
pub fn rdp_resolution_presets() -> (presets: [(u16, u16); 7])
    ensures
        presets@ == resolution_presets(),
{
    let presets: [(u16, u16); 7] = [
        (1024, 768),
        (1280, 720),
        (1280, 1024),
        (1366, 768),
        (1600, 900),
        (1920, 1080),
        (2560, 1440),
    ];
    assert(presets@ =~= resolution_presets());
    presets
}

/// The shell that is started where none of the list is chosen.
pub open spec fn spare_shell() -> Shell {
    Shell {
        name: "Windows PowerShell"@,
        program: "powershell.exe"@,
        args: seq!["-NoLogo"@, "-NoExit"@],
    }
}

impl Model {
    /// The tab that is shown.
    pub open spec fn current(self) -> Tab {
        self.tabs[self.active]
    }

    /// The state with another tab in place of the one that is shown.
    pub open spec fn with_current(self, tab: Tab) -> Model {
        Model { tabs: self.tabs.update(self.active, tab), ..self }
    }

    /// The size of the remote desktop that is chosen.
    pub open spec fn resolution_chosen(self) -> (u16, u16) {
        if 0 <= self.resolution < resolution_presets().len() {
            resolution_presets()[self.resolution]
        } else {
            (1280, 720)
        }
    }

    /// The shell that is chosen.
    pub open spec fn shell_chosen(self) -> Shell {
        if 0 <= self.shell < self.shells.len() {
            self.shells[self.shell]
        } else {
            spare_shell()
        }
    }

    /// The SSH connection that the form describes.
    pub open spec fn ssh_call(self) -> Call {
        Call::Ssh {
            host: self.form.ssh_host,
            port: u16_or(self.form.ssh_port, 22),
            user: self.form.ssh_user,
            pass: self.form.ssh_pass,
            keepalive: u64_or(self.settings.text(SettingsTextKey::SshKeepAliveInterval), 0),
            terminal_type: self.settings.text(SettingsTextKey::SshTerminalType),
        }
    }

    /// The Telnet connection that the form describes.
    pub open spec fn telnet_call(self) -> Call {
        Call::Telnet { host: self.form.ssh_host, port: u16_or(self.form.ssh_port, 23) }
    }

    /// The serial connection that the form and the settings describe.
    pub open spec fn serial_call(self) -> Call {
        Call::Serial {
            port_name: self.form.serial_port,
            baud: u32_or(self.form.serial_baud, 115200),
            data_bits: data_bits_named(self.settings.text(SettingsTextKey::SerialDataBits)),
            stop_bits: stop_bits_named(self.settings.text(SettingsTextKey::SerialStopBits)),
            parity: parity_named(self.settings.text(SettingsTextKey::SerialParity)),
            hardware_flow: self.settings.flag(SettingsToggleKey::HardwareFlowControl),
        }
    }

    /// The local shell that is chosen.
    pub open spec fn local_call(self) -> Call {
        Call::Local { program: self.shell_chosen().program, args: self.shell_chosen().args }
    }

    /// The RDP connection that the form and the settings describe.
    pub open spec fn rdp_call(self) -> Call {
        Call::Rdp {
            host: self.form.rdp_host,
            port: u16_or(self.form.rdp_port, 3389),
            user: self.form.rdp_user,
            pass: self.form.rdp_pass,
            width: self.resolution_chosen().0,
            height: self.resolution_chosen().1,
            enable_credssp: self.settings.flag(SettingsToggleKey::RdpNla),
            enable_audio: self.settings.flag(SettingsToggleKey::RdpEnableAudio),
            color_depth: u32_or(self.settings.text(SettingsTextKey::RdpColorDepth), 32),
            font_smoothing: self.settings.flag(SettingsToggleKey::RdpFontSmoothing),
            desktop_composition: self.settings.flag(SettingsToggleKey::RdpDesktopComposition),
        }
    }

    /// The VNC connection that the form and the settings describe.
    pub open spec fn vnc_call(self) -> Call {
        Call::Vnc {
            host: self.form.vnc_host,
            port: u16_or(self.form.vnc_port, 5900),
            pass: if self.form.vnc_pass.len() == 0 {
                None
            } else {
                Some(self.form.vnc_pass)
            },
            remote_cursor: self.settings.flag(SettingsToggleKey::VncRemoteCursor),
            shared_session: self.settings.flag(SettingsToggleKey::VncSharedSession),
            view_only: self.settings.flag(SettingsToggleKey::VncViewOnly),
            timeout_secs: u64_or(self.settings.text(SettingsTextKey::VncTimeout), 10),
        }
    }

    /// The name of a tab with an SSH connection.
    pub open spec fn ssh_name(self) -> Seq<char> {
        "SSH: "@ + self.form.ssh_user + "@"@ + self.form.ssh_host
    }

    /// The name of a tab with a Telnet connection.
    pub open spec fn telnet_name(self) -> Seq<char> {
        "Telnet: "@ + self.form.ssh_host + ":"@ + decimal(u16_or(self.form.ssh_port, 23) as nat)
    }

    /// The name of a tab with a serial connection.
    pub open spec fn serial_name(self) -> Seq<char> {
        "Serial: "@ + self.form.serial_port + " ("@ + decimal(
            u32_or(self.form.serial_baud, 115200) as nat,
        ) + "bps)"@
    }

    /// The name of a tab with a local shell.
    pub open spec fn local_name(self) -> Seq<char> {
        "Local: "@ + self.shell_chosen().name
    }

    /// The name of a tab with an RDP connection.
    pub open spec fn rdp_name(self) -> Seq<char> {
        "RDP: "@ + self.form.rdp_user + "@"@ + self.form.rdp_host + ":"@ + decimal(
            u16_or(self.form.rdp_port, 3389) as nat,
        )
    }

    /// The name of a tab with a VNC connection.
    pub open spec fn vnc_name(self) -> Seq<char> {
        "VNC: "@ + self.form.vnc_host + ":"@ + decimal(u16_or(self.form.vnc_port, 5900) as nat)
    }

    /// With a terminal of the same size in the tab that is shown.
    pub open spec fn with_terminal(self, name: Seq<char>) -> Model {
        let old = self.current();
        self.with_current(Tab::terminal(old.id, name, old.screen.rows, old.screen.cols))
    }

    /// With a remote picture in the tab that is shown.
    pub open spec fn with_remote(
        self,
        name: Seq<char>,
        size: (u16, u16),
        protocol: RemoteDisplayProtocol,
        status: Option<Seq<char>>,
    ) -> Model {
        let tab = Tab::remote(
            self.current().id,
            name,
            self.next_source,
            size.0,
            size.1,
            protocol,
        );
        let shown = Tab { display: Some(Display { status, ..tab.display->0 }), ..tab };
        Model { next_source: next_seq(self.next_source), ..self.with_current(shown) }
    }

    /// What opening a connection in the tab that is shown asks for.
    pub open spec fn connect_fx(self, call: Call) -> Seq<Fx> {
        self.current().hang() + seq![Fx::Connect { session_id: self.current().id, call }]
    }
}

impl State {
    /// The SSH connection that the form describes.
    fn ssh_dial(&self) -> (dial: Dial)
        ensures
            dial@ == self@.ssh_call(),
    {
        Dial::Ssh {
            host: self.ssh_host.clone(),
            port: parse_u16_or(self.ssh_port.as_str(), 22),
            user: self.ssh_user.clone(),
            pass: self.ssh_pass.clone(),
            keepalive: parse_u64_or(
                self.settings.text(SettingsTextKey::SshKeepAliveInterval),
                0,
            ),
            terminal_type: String::from_str(self.settings.text(SettingsTextKey::SshTerminalType)),
        }
    }

    /// The serial connection that the form and the settings describe.
    fn serial_dial(&self) -> (dial: Dial)
        ensures
            dial@ == self@.serial_call(),
    {
        Dial::Serial {
            port_name: self.serial_port.clone(),
            baud: parse_u32_or(self.serial_baud.as_str(), 115200),
            data_bits: parse_data_bits(self.settings.text(SettingsTextKey::SerialDataBits)),
            stop_bits: parse_stop_bits(self.settings.text(SettingsTextKey::SerialStopBits)),
            parity: parse_parity(self.settings.text(SettingsTextKey::SerialParity)),
            hardware_flow: self.settings.flag(SettingsToggleKey::HardwareFlowControl),
        }
    }

    /// The shell that is chosen.
    pub fn chosen_shell(&self) -> (shell: LocalShellOption)
        ensures
            shell@ == self@.shell_chosen(),
    {
        if self.selected_local_shell < self.local_shells.len() {
            self.local_shells[self.selected_local_shell].copied()
        } else {
            let mut args: Vec<String> = Vec::new();
            args.push(String::from_str("-NoLogo"));
            args.push(String::from_str("-NoExit"));
            assert(crate::app::model::texts(args@) =~= seq!["-NoLogo"@, "-NoExit"@]);
            LocalShellOption {
                name: String::from_str("Windows PowerShell"),
                program: String::from_str("powershell.exe"),
                args,
            }
        }
    }

    /// The size of the remote desktop that is chosen.
    pub fn chosen_resolution(&self) -> (size: (u16, u16))
        ensures
            size == self@.resolution_chosen(),
    {
        let presets = rdp_resolution_presets();
        if self.selected_rdp_resolution_index < 7 {
            presets[self.selected_rdp_resolution_index]
        } else {
            (1280, 720)
        }
    }

    /// The RDP connection that the form and the settings describe.
    fn rdp_dial(&self) -> (dial: Dial)
        ensures
            dial@ == self@.rdp_call(),
    {
        let (width, height) = self.chosen_resolution();
        Dial::Rdp {
            host: self.rdp_host.clone(),
            port: parse_u16_or(self.rdp_port.as_str(), 3389),
            user: self.rdp_user.clone(),
            pass: self.rdp_pass.clone(),
            width,
            height,
            enable_credssp: self.settings.flag(SettingsToggleKey::RdpNla),
            enable_audio: self.settings.flag(SettingsToggleKey::RdpEnableAudio),
            color_depth: parse_u32_or(self.settings.text(SettingsTextKey::RdpColorDepth), 32),
            font_smoothing: self.settings.flag(SettingsToggleKey::RdpFontSmoothing),
            desktop_composition: self.settings.flag(SettingsToggleKey::RdpDesktopComposition),
        }
    }

    /// The VNC connection that the form and the settings describe.
    fn vnc_dial(&self) -> (dial: Dial)
        ensures
            dial@ == self@.vnc_call(),
    {
        let pass: Option<String> = if self.vnc_pass.as_str().unicode_len() == 0 {
            None
        } else {
            Some(self.vnc_pass.clone())
        };
        Dial::Vnc {
            host: self.vnc_host.clone(),
            port: parse_u16_or(self.vnc_port.as_str(), 5900),
            pass,
            remote_cursor: self.settings.flag(SettingsToggleKey::VncRemoteCursor),
            shared_session: self.settings.flag(SettingsToggleKey::VncSharedSession),
            view_only: self.settings.flag(SettingsToggleKey::VncViewOnly),
            timeout_secs: parse_u64_or(self.settings.text(SettingsTextKey::VncTimeout), 10),
        }
    }

    /// The effects that open a connection in the tab that is shown.
    fn connect_effects(&self, dial: Dial) -> (effects: Vec<Effect>)
        requires
            self@.wf(),
        ensures
            fxs(effects@) == self@.connect_fx(dial@),
    {
        let i: usize = self.active_index;
        let session_id: u64 = self.sessions[i].id;
        let ghost call = dial@;
        match self.sessions[i].sender {
            Some(channel) => {
                let mut effects = one(Effect::Hang { channel });
                push_effect(&mut effects, Effect::Connect { session_id, dial });
                assert(fxs(effects@) =~= self@.connect_fx(call));
                effects
            },
            None => {
                let effects = one(Effect::Connect { session_id, dial });
                assert(fxs(effects@) =~= self@.connect_fx(call));
                effects
            },
        }
    }

    /// Puts a session in place of the one that is shown.
    pub(crate) fn replace_current(&mut self, session: Session)
        requires
            old(self)@.wf(),
            session@.wf(),
        ensures
            final(self)@ == old(self)@.with_current(session@),
            final(self)@.wf(),
    {
        let i: usize = self.active_index;
        let ghost before = self@.tabs;
        let ghost tab = session@;
        self.sessions.set(i, session);
        assert(self@.tabs =~= before.update(i as int, tab));
    }

    /// Opens a connection with a terminal in the tab that is shown.
    fn connect_terminal(&mut self, name: String, dial: Dial) -> (effects: Vec<Effect>)
        requires
            old(self)@.wf(),
        ensures
            final(self)@ == old(self)@.with_terminal(name@),
            final(self)@.wf(),
            fxs(effects@) == old(self)@.connect_fx(dial@),
    {
        let effects = self.connect_effects(dial);
        let i: usize = self.active_index;
        let id: u64 = self.sessions[i].id;
        let rows: usize = self.sessions[i].terminal.rows;
        let cols: usize = self.sessions[i].terminal.cols;
        assert(self@.tabs[i as int].wf());
        let session = Session::new_terminal(id, name, rows, cols);
        self.replace_current(session);
        effects
    }

    /// Opens a connection with a remote picture in the tab that is shown.
    fn connect_remote(
        &mut self,
        name: String,
        size: (u16, u16),
        protocol: RemoteDisplayProtocol,
        status: Option<String>,
        dial: Dial,
    ) -> (effects: Vec<Effect>)
        requires
            old(self)@.wf(),
            size.0 * size.1 * 4 <= usize::MAX,
        ensures
            final(self)@ == old(self)@.with_remote(
                name@,
                size,
                protocol,
                crate::app::local_shell::path_view(status),
            ),
            final(self)@.wf(),
            fxs(effects@) == old(self)@.connect_fx(dial@),
    {
        let effects = self.connect_effects(dial);
        let i: usize = self.active_index;
        let id: u64 = self.sessions[i].id;
        let mut session = Session::new_remote_display(
            id,
            name,
            &mut self.source_numbers,
            size.0,
            size.1,
            protocol,
        );
        let mut display: Option<crate::remote_display::display::RemoteDisplayState> = None;
        std::mem::swap(&mut display, &mut session.remote_display);
        if let Some(d) = display {
            let mut d = d;
            d.status_message = status;
            session.remote_display = Some(d);
        }
        self.replace_current(session);
        effects
    }

    /// Opens an SSH connection.
    pub fn connect_ssh(&mut self) -> (effects: Vec<Effect>)
        requires
            old(self)@.wf(),
        ensures
            final(self)@ == old(self)@.with_terminal(old(self)@.ssh_name()),
            final(self)@.wf(),
            fxs(effects@) == old(self)@.connect_fx(old(self)@.ssh_call()),
    {
        let name = String::from_str("SSH: ").concat(self.ssh_user.as_str()).concat("@").concat(
            self.ssh_host.as_str(),
        );
        let dial = self.ssh_dial();
        self.connect_terminal(name, dial)
    }

    /// Opens a Telnet connection.
    pub fn connect_telnet(&mut self) -> (effects: Vec<Effect>)
        requires
            old(self)@.wf(),
        ensures
            final(self)@ == old(self)@.with_terminal(old(self)@.telnet_name()),
            final(self)@.wf(),
            fxs(effects@) == old(self)@.connect_fx(old(self)@.telnet_call()),
    {
        let port: u16 = parse_u16_or(self.ssh_port.as_str(), 23);
        let mut name = String::from_str("Telnet: ").concat(self.ssh_host.as_str()).concat(":");
        push_decimal(&mut name, port as u64);
        let dial = Dial::Telnet { host: self.ssh_host.clone(), port };
        self.connect_terminal(name, dial)
    }

    /// Opens a serial connection.
    pub fn connect_serial(&mut self) -> (effects: Vec<Effect>)
        requires
            old(self)@.wf(),
        ensures
            final(self)@ == old(self)@.with_terminal(old(self)@.serial_name()),
            final(self)@.wf(),
            fxs(effects@) == old(self)@.connect_fx(old(self)@.serial_call()),
    {
        let baud: u32 = parse_u32_or(self.serial_baud.as_str(), 115200);
        let mut name = String::from_str("Serial: ").concat(self.serial_port.as_str()).concat(" (");
        push_decimal(&mut name, baud as u64);
        let name = name.concat("bps)");
        let dial = self.serial_dial();
        self.connect_terminal(name, dial)
    }

    /// Starts a local shell.
    pub fn connect_local(&mut self) -> (effects: Vec<Effect>)
        requires
            old(self)@.wf(),
        ensures
            final(self)@ == old(self)@.with_terminal(old(self)@.local_name()),
            final(self)@.wf(),
            fxs(effects@) == old(self)@.connect_fx(old(self)@.local_call()),
    {
        let shell = self.chosen_shell();
        let name = String::from_str("Local: ").concat(shell.name.as_str());
        let dial = Dial::Local {
            program: shell.program.clone(),
            args: copy_texts(&shell.args),
        };
        self.connect_terminal(name, dial)
    }

    /// Opens an RDP connection.
    pub fn connect_rdp(&mut self) -> (effects: Vec<Effect>)
        requires
            old(self)@.wf(),
        ensures
            final(self)@ == old(self)@.with_remote(
                old(self)@.rdp_name(),
                old(self)@.resolution_chosen(),
                RemoteDisplayProtocol::Rdp,
                None,
            ),
            final(self)@.wf(),
            fxs(effects@) == old(self)@.connect_fx(old(self)@.rdp_call()),
    {
        let port: u16 = parse_u16_or(self.rdp_port.as_str(), 3389);
        let mut name = String::from_str("RDP: ").concat(self.rdp_user.as_str()).concat("@").concat(
            self.rdp_host.as_str(),
        ).concat(":");
        push_decimal(&mut name, port as u64);
        let dial = self.rdp_dial();
        let size = self.chosen_resolution();
        self.connect_remote(name, size, RemoteDisplayProtocol::Rdp, None, dial)
    }

    /// Opens a VNC connection.
    pub fn connect_vnc(&mut self) -> (effects: Vec<Effect>)
        requires
            old(self)@.wf(),
        ensures
            final(self)@ == old(self)@.with_remote(
                old(self)@.vnc_name(),
                (1280, 720),
                RemoteDisplayProtocol::Vnc,
                Some("Connecting to VNC server..."@),
            ),
            final(self)@.wf(),
            fxs(effects@) == old(self)@.connect_fx(old(self)@.vnc_call()),
    {
        let port: u16 = parse_u16_or(self.vnc_port.as_str(), 5900);
        let mut name = String::from_str("VNC: ").concat(self.vnc_host.as_str()).concat(":");
        push_decimal(&mut name, port as u64);
        let dial = self.vnc_dial();
        self.connect_remote(
            name,
            (1280, 720),
            RemoteDisplayProtocol::Vnc,
            Some(String::from_str("Connecting to VNC server...")),
            dial,
        )
    }
}

} // verus!
