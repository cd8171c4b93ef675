//! Sessions and the choices that the application knows.
use crate::remote_display::display::{next_seq, Display, RemoteDisplayState, SourceNumbers};
use crate::terminal::emulator::TerminalEmulator;
use crate::terminal::screen::Screen;
use vstd::prelude::*;

verus! {

/// What a tab shows.
#[derive(Debug, Clone, Copy, PartialEq, Eq, Structural)]
pub enum SessionKind {
    Welcome,
    Terminal,
    RemoteDisplay,
    Settings,
}

/// What a new session connects with.
#[derive(Debug, Clone, Copy, PartialEq, Eq, Structural)]
pub enum ProtocolMode {
    Ssh,
    Telnet,
    Serial,
    Local,
    Rdp,
    Vnc,
}

/// How a remote picture comes.
#[derive(Debug, Clone, Copy, PartialEq, Eq, Structural)]
pub enum RemoteDisplayProtocol {
    Rdp,
    Vnc,
}

/// What a settings tab is about.
#[derive(Debug, Clone, Copy, PartialEq, Eq, Structural)]
pub enum SettingsTabKind {
    Preferences,
    Theme,
}

/// A setting that is on or off.
#[derive(Debug, Clone, Copy, PartialEq, Eq, Structural)]
pub enum SettingsToggleKey {
    AutoReconnect,
    UseAgentForwarding,
    EchoLocally,
    HardwareFlowControl,
    LaunchInLoginMode,
    RdpNla,
    RdpEnableAudio,
    RdpFontSmoothing,
    RdpDesktopComposition,
    VncRemoteCursor,
    VncSharedSession,
    VncViewOnly,
    CompactTabStyle,
}

/// A setting that is a text.
#[derive(Debug, Clone, Copy, PartialEq, Eq, Structural)]
pub enum SettingsTextKey {
    CommonTimeout,
    SshKeepAliveInterval,
    SshTerminalType,
    TelnetLineEnding,
    SerialDataBits,
    SerialStopBits,
    SerialParity,
    LocalDefaultShell,
    LocalStartupArgs,
    RdpColorDepth,
    VncTimeout,
}

/// A field of the forms on the welcome page.
#[derive(Debug, Clone, Copy, PartialEq, Eq, Structural)]
pub enum FieldId {
    SshHost,
    SshPort,
    SshUser,
    SshPass,
    TelnetHost,
    TelnetPort,
    SerialPort,
    SerialBaud,
    RdpHost,
    RdpPort,
    RdpUser,
    RdpPass,
    RdpResolution,
    VncHost,
    VncPort,
    VncPass,
}

/// An edge or a corner of the window.
#[derive(Debug, Clone, Copy, PartialEq, Eq, Structural)]
pub enum WindowDirection {
    North,
    South,
    East,
    West,
    NorthEast,
    NorthWest,
    SouthEast,
    SouthWest,
}

impl FieldId {
    /// The name of a field.
    pub fn name(self) -> (s: &'static str)
        ensures
            s@ == (match self {
                FieldId::SshHost => "ssh_host"@,
                FieldId::SshPort => "ssh_port"@,
                FieldId::SshUser => "ssh_user"@,
                FieldId::SshPass => "ssh_pass"@,
                FieldId::TelnetHost => "telnet_host"@,
                FieldId::TelnetPort => "telnet_port"@,
                FieldId::SerialPort => "serial_port"@,
                FieldId::SerialBaud => "serial_baud"@,
                FieldId::RdpHost => "rdp_host"@,
                FieldId::RdpPort => "rdp_port"@,
                FieldId::RdpUser => "rdp_user"@,
                FieldId::RdpPass => "rdp_pass"@,
                FieldId::RdpResolution => "rdp_resolution"@,
                FieldId::VncHost => "vnc_host"@,
                FieldId::VncPort => "vnc_port"@,
                FieldId::VncPass => "vnc_pass"@,
            }),
    {
        match self {
            FieldId::SshHost => "ssh_host",
            FieldId::SshPort => "ssh_port",
            FieldId::SshUser => "ssh_user",
            FieldId::SshPass => "ssh_pass",
            FieldId::TelnetHost => "telnet_host",
            FieldId::TelnetPort => "telnet_port",
            FieldId::SerialPort => "serial_port",
            FieldId::SerialBaud => "serial_baud",
            FieldId::RdpHost => "rdp_host",
            FieldId::RdpPort => "rdp_port",
            FieldId::RdpUser => "rdp_user",
            FieldId::RdpPass => "rdp_pass",
            FieldId::RdpResolution => "rdp_resolution",
            FieldId::VncHost => "vnc_host",
            FieldId::VncPort => "vnc_port",
            FieldId::VncPass => "vnc_pass",
        }
    }
}

/// A shell that can be started.
#[derive(Debug, Clone)]
pub struct LocalShellOption {
    pub name: String,
    pub program: String,
    pub args: Vec<String>,
}

/// A shell as a mathematical value.
#[verifier::ext_equal]
pub struct Shell {
    pub name: Seq<char>,
    pub program: Seq<char>,
    pub args: Seq<Seq<char>>,
}

/// Texts as mathematical values.
pub open spec fn texts(items: Seq<String>) -> Seq<Seq<char>> {
    Seq::new(items.len(), |i: int| items[i]@)
}

impl View for LocalShellOption {
    type V = Shell;

    open spec fn view(&self) -> Shell {
        Shell { name: self.name@, program: self.program@, args: texts(self.args@) }
    }
}

/// Shells as mathematical values.
pub open spec fn shells_view(shells: Seq<LocalShellOption>) -> Seq<Shell> {
    Seq::new(shells.len(), |i: int| shells[i]@)
}

/// Copies texts.
pub fn copy_texts(items: &Vec<String>) -> (copy: Vec<String>)
    ensures
        texts(copy@) == texts(items@),
{
    let mut copy: Vec<String> = Vec::new();
    let mut i: usize = 0;
    while i < items.len()
        invariant
            i <= items.len(),
            copy@.len() == i,
            forall|k: int| 0 <= k < i ==> (#[trigger] copy@[k])@ == items@[k]@,
        decreases items.len() - i,
    {
        copy.push(items[i].clone());
        i = i + 1;
    }
    assert(texts(copy@) =~= texts(items@));
    copy
}

impl LocalShellOption {
    /// Copies a shell.
    pub fn copied(&self) -> (copy: LocalShellOption)
        ensures
            copy@ == self@,
    {
        LocalShellOption {
            name: self.name.clone(),
            program: self.program.clone(),
            args: copy_texts(&self.args),
        }
    }
}

/// A tab. Where it is connected, `sender` is the number of the channel that takes its inputs.
pub struct Session {
    pub id: u64,
    pub name: String,
    pub kind: SessionKind,
    pub terminal: TerminalEmulator,
    pub remote_display: Option<RemoteDisplayState>,
    pub remote_display_protocol: Option<RemoteDisplayProtocol>,
    pub sender: Option<u64>,
    pub settings_tab_kind: Option<SettingsTabKind>,
}

/// A tab as a mathematical value.
#[verifier::ext_equal]
pub struct Tab {
    pub id: u64,
    pub name: Seq<char>,
    pub kind: SessionKind,
    pub screen: Screen,
    pub display: Option<Display>,
    pub protocol: Option<RemoteDisplayProtocol>,
    pub sender: Option<u64>,
    pub settings_kind: Option<SettingsTabKind>,
}

impl View for Session {
    type V = Tab;

    open spec fn view(&self) -> Tab {
        Tab {
            id: self.id,
            name: self.name@,
            kind: self.kind,
            screen: self.terminal@,
            display: match self.remote_display {
                Some(d) => Some(d@),
                None => None,
            },
            protocol: self.remote_display_protocol,
            sender: self.sender,
            settings_kind: self.settings_tab_kind,
        }
    }
}

impl Tab {
    /// Whether a tab's terminal and picture are in order.
    pub open spec fn wf(self) -> bool {
        &&& self.screen.wf()
        &&& self.display is Some ==> self.display->0.wf()
    }

    /// A tab of the given kind with nothing in it.
    pub open spec fn bare(id: u64, name: Seq<char>, kind: SessionKind) -> Tab {
        Tab {
            id,
            name,
            kind,
            screen: Screen::fresh(24, 80),
            display: None,
            protocol: None,
            sender: None,
            settings_kind: None,
        }
    }

    /// The page on which a new session starts.
    pub open spec fn welcome(id: u64) -> Tab {
        Tab::bare(id, "Welcome"@, SessionKind::Welcome)
    }

    /// A terminal of the given size.
    pub open spec fn terminal(id: u64, name: Seq<char>, rows: int, cols: int) -> Tab {
        Tab { screen: Screen::fresh(rows, cols), ..Tab::bare(id, name, SessionKind::Terminal) }
    }

    /// A remote picture of the given size.
    pub open spec fn remote(
        id: u64,
        name: Seq<char>,
        source_id: u64,
        width: u16,
        height: u16,
        protocol: RemoteDisplayProtocol,
    ) -> Tab {
        Tab {
            display: Some(Display::fresh(source_id, width, height)),
            protocol: Some(protocol),
            ..Tab::bare(id, name, SessionKind::RemoteDisplay)
        }
    }

    /// A settings page.
    pub open spec fn settings(id: u64, tab_kind: SettingsTabKind) -> Tab {
        Tab {
            settings_kind: Some(tab_kind),
            ..Tab::bare(
                id,
                match tab_kind {
                    SettingsTabKind::Preferences => "Settings"@,
                    SettingsTabKind::Theme => "Theme"@,
                },
                SessionKind::Settings,
            )
        }
    }
}

impl Session {
    /// The page on which a new session starts.
    pub fn welcome(id: u64) -> (s: Self)
        ensures
            s@ == Tab::welcome(id),
            s@.wf(),
    {
        Session {
            id,
            name: String::from_str("Welcome"),
            kind: SessionKind::Welcome,
            terminal: TerminalEmulator::new(24, 80),
            remote_display: None,
            remote_display_protocol: None,
            sender: None,
            settings_tab_kind: None,
        }
    }

    /// A terminal of the given size.
    pub fn new_terminal(id: u64, name: String, rows: usize, cols: usize) -> (s: Self)
        requires
            0 < rows <= isize::MAX,
            cols <= isize::MAX,
        ensures
            s@ == Tab::terminal(id, name@, rows as int, cols as int),
            s@.wf(),
    {
        Session {
            id,
            name,
            kind: SessionKind::Terminal,
            terminal: TerminalEmulator::new(rows, cols),
            remote_display: None,
            remote_display_protocol: None,
            sender: None,
            settings_tab_kind: None,
        }
    }

    /// A remote picture of the given size.
    pub fn new_remote_display(
        id: u64,
        name: String,
        numbers: &mut SourceNumbers,
        width: u16,
        height: u16,
        remote_display_protocol: RemoteDisplayProtocol,
    ) -> (s: Self)
        requires
            width * height * 4 <= usize::MAX,
        ensures
            s@ == Tab::remote(id, name@, old(numbers)@, width, height, remote_display_protocol),
            s@.wf(),
            final(numbers)@ == next_seq(old(numbers)@),
    {
        Session {
            id,
            name,
            kind: SessionKind::RemoteDisplay,
            terminal: TerminalEmulator::new(24, 80),
            remote_display: Some(RemoteDisplayState::new(numbers, width, height)),
            remote_display_protocol: Some(remote_display_protocol),
            sender: None,
            settings_tab_kind: None,
        }
    }

    /// A settings page.
    pub fn new_settings(id: u64, tab_kind: SettingsTabKind) -> (s: Self)
        ensures
            s@ == Tab::settings(id, tab_kind),
            s@.wf(),
    {
        let name = match tab_kind {
            SettingsTabKind::Preferences => String::from_str("Settings"),
            SettingsTabKind::Theme => String::from_str("Theme"),
        };
        Session {
            id,
            name,
            kind: SessionKind::Settings,
            terminal: TerminalEmulator::new(24, 80),
            remote_display: None,
            remote_display_protocol: None,
            sender: None,
            settings_tab_kind: Some(tab_kind),
        }
    }

    /// Whether the picture comes over RDP.
    pub fn is_rdp_display(&self) -> (b: bool)
        ensures
            b == (self@.protocol == Some(RemoteDisplayProtocol::Rdp)),
    {
        match self.remote_display_protocol {
            Some(RemoteDisplayProtocol::Rdp) => true,
            _ => false,
        }
    }
}

} // verus!
