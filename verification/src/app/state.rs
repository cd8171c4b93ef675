//! The state of the application.
use crate::app::local_shell::fallback_shell;
use crate::app::model::{
    shells_view, FieldId, LocalShellOption, ProtocolMode, Session, SettingsTextKey,
    SettingsToggleKey, Shell, Tab, WindowDirection,
};
use crate::app::settings_persistence::{Settings, SettingsData};
use crate::remote_display::display::SourceNumbers;
use vstd::prelude::*;

verus! {

/// The state of the application.
pub struct State {
    pub sessions: Vec<Session>,
    pub next_session_id: u64,
    /// Tells the pictures of different sessions apart.
    pub source_numbers: SourceNumbers,
    pub active_index: usize,
    pub welcome_protocol: ProtocolMode,
    pub ssh_host: String,
    pub ssh_port: String,
    pub ssh_user: String,
    pub ssh_pass: String,
    pub serial_port: String,
    pub serial_baud: String,
    pub rdp_host: String,
    pub rdp_port: String,
    pub rdp_user: String,
    pub rdp_pass: String,
    pub vnc_host: String,
    pub vnc_port: String,
    pub vnc_pass: String,
    pub selected_rdp_resolution_index: usize,
    pub local_shells: Vec<LocalShellOption>,
    pub selected_local_shell: usize,
    pub focused_field: usize,
    pub window_id: Option<u64>,
    pub dummy_menu_open: Option<&'static str>,
    pub resizing_direction: Option<WindowDirection>,
    /// The width and the height of the window in whole pixels.
    pub window_size: (u32, u32),
    pub settings_selected_category: usize,
    pub settings: SettingsData,
}

/// What stands in the forms of the welcome page.
#[verifier::ext_equal]
pub struct Form {
    pub ssh_host: Seq<char>,
    pub ssh_port: Seq<char>,
    pub ssh_user: Seq<char>,
    pub ssh_pass: Seq<char>,
    pub serial_port: Seq<char>,
    pub serial_baud: Seq<char>,
    pub rdp_host: Seq<char>,
    pub rdp_port: Seq<char>,
    pub rdp_user: Seq<char>,
    pub rdp_pass: Seq<char>,
    pub vnc_host: Seq<char>,
    pub vnc_port: Seq<char>,
    pub vnc_pass: Seq<char>,
}

/// The state of the application as a mathematical value.
#[verifier::ext_equal]
pub struct Model {
    pub tabs: Seq<Tab>,
    pub next_id: u64,
    pub next_source: u64,
    pub active: int,
    pub welcome: ProtocolMode,
    pub form: Form,
    pub resolution: int,
    pub shells: Seq<Shell>,
    pub shell: int,
    pub focused: int,
    pub window: Option<u64>,
    pub menu: Option<Seq<char>>,
    pub resizing: Option<WindowDirection>,
    pub size: (u32, u32),
    pub category: int,
    pub settings: Settings,
}

/// Tabs as mathematical values.
pub open spec fn tabs_view(sessions: Seq<Session>) -> Seq<Tab> {
    Seq::new(sessions.len(), |i: int| sessions[i]@)
}

/// An optional text as a mathematical value.
pub open spec fn menu_view(menu: Option<&'static str>) -> Option<Seq<char>> {
    match menu {
        Some(s) => Some(s@),
        None => None,
    }
}

impl View for State {
    type V = Model;

    open spec fn view(&self) -> Model {
        Model {
            tabs: tabs_view(self.sessions@),
            next_id: self.next_session_id,
            next_source: self.source_numbers@,
            active: self.active_index as int,
            welcome: self.welcome_protocol,
            form: Form {
                ssh_host: self.ssh_host@,
                ssh_port: self.ssh_port@,
                ssh_user: self.ssh_user@,
                ssh_pass: self.ssh_pass@,
                serial_port: self.serial_port@,
                serial_baud: self.serial_baud@,
                rdp_host: self.rdp_host@,
                rdp_port: self.rdp_port@,
                rdp_user: self.rdp_user@,
                rdp_pass: self.rdp_pass@,
                vnc_host: self.vnc_host@,
                vnc_port: self.vnc_port@,
                vnc_pass: self.vnc_pass@,
            },
            resolution: self.selected_rdp_resolution_index as int,
            shells: shells_view(self.local_shells@),
            shell: self.selected_local_shell as int,
            focused: self.focused_field as int,
            window: self.window_id,
            menu: menu_view(self.dummy_menu_open),
            resizing: self.resizing_direction,
            size: self.window_size,
            category: self.settings_selected_category as int,
            settings: self.settings@,
        }
    }
}

/// The fields of a form, in the order in which they are visited.
pub open spec fn fields_of(mode: ProtocolMode) -> Seq<FieldId> {
    match mode {
        ProtocolMode::Ssh => seq![
            FieldId::SshHost,
            FieldId::SshPort,
            FieldId::SshUser,
            FieldId::SshPass,
        ],
        ProtocolMode::Telnet => seq![FieldId::TelnetHost, FieldId::TelnetPort],
        ProtocolMode::Serial => seq![FieldId::SerialPort, FieldId::SerialBaud],
        ProtocolMode::Rdp => seq![
            FieldId::RdpHost,
            FieldId::RdpPort,
            FieldId::RdpUser,
            FieldId::RdpPass,
            FieldId::RdpResolution,
        ],
        ProtocolMode::Vnc => seq![FieldId::VncHost, FieldId::VncPort, FieldId::VncPass],
        ProtocolMode::Local => Seq::empty(),
    }
}

impl Model {
    /// Whether there is an active tab and every tab is in order.
    pub open spec fn wf(self) -> bool {
        &&& 0 <= self.active < self.tabs.len()
        &&& forall|i: int| 0 <= i < self.tabs.len() ==> (#[trigger] self.tabs[i]).wf()
    }

    /// The state at the start: one welcome page, and every setting at its default.
    pub open spec fn fresh(shells: Seq<Shell>) -> Model {
        Model {
            tabs: seq![Tab::welcome(0)],
            next_id: 1,
            next_source: 1,
            active: 0,
            welcome: ProtocolMode::Ssh,
            form: Form {
                ssh_host: ""@,
                ssh_port: "22"@,
                ssh_user: ""@,
                ssh_pass: ""@,
                serial_port: "COM1"@,
                serial_baud: "115200"@,
                rdp_host: ""@,
                rdp_port: "3389"@,
                rdp_user: ""@,
                rdp_pass: ""@,
                vnc_host: ""@,
                vnc_port: "5900"@,
                vnc_pass: ""@,
            },
            resolution: 1,
            shells,
            shell: 0,
            focused: 0,
            window: None,
            menu: None,
            resizing: None,
            size: (1024, 768),
            category: 0,
            settings: Settings::standard(),
        }
    }
}

impl State {
    /// The state at the start, with the shells of this machine.
    pub fn new(local_shells: Vec<LocalShellOption>) -> (state: State)
        ensures
            state@ == Model::fresh(shells_view(local_shells@)),
            state@.wf(),
    {
        let mut sessions: Vec<Session> = Vec::new();
        sessions.push(Session::welcome(0));
        let state = State {
            sessions,
            next_session_id: 1,
            source_numbers: SourceNumbers::new(),
            active_index: 0,
            welcome_protocol: ProtocolMode::Ssh,
            ssh_host: String::from_str(""),
            ssh_port: String::from_str("22"),
            ssh_user: String::from_str(""),
            ssh_pass: String::from_str(""),
            serial_port: String::from_str("COM1"),
            serial_baud: String::from_str("115200"),
            rdp_host: String::from_str(""),
            rdp_port: String::from_str("3389"),
            rdp_user: String::from_str(""),
            rdp_pass: String::from_str(""),
            vnc_host: String::from_str(""),
            vnc_port: String::from_str("5900"),
            vnc_pass: String::from_str(""),
            selected_rdp_resolution_index: 1,
            local_shells,
            selected_local_shell: 0,
            focused_field: 0,
            window_id: None,
            dummy_menu_open: None,
            resizing_direction: None,
            window_size: (1024, 768),
            settings_selected_category: 0,
            settings: SettingsData::default(),
        };
        assert(state@.tabs =~= seq![Tab::welcome(0)]);
        state
    }

    /// The fields of the form that is shown, in the order in which they are visited.
    pub fn current_field_ids(&self) -> (fields: Vec<FieldId>)
        ensures
            fields@ == fields_of(self@.welcome),
    {
        let fields: Vec<FieldId> = match self.welcome_protocol {
            ProtocolMode::Ssh => vec![
                FieldId::SshHost,
                FieldId::SshPort,
                FieldId::SshUser,
                FieldId::SshPass,
            ],
            ProtocolMode::Telnet => vec![FieldId::TelnetHost, FieldId::TelnetPort],
            ProtocolMode::Serial => vec![FieldId::SerialPort, FieldId::SerialBaud],
            ProtocolMode::Rdp => vec![
                FieldId::RdpHost,
                FieldId::RdpPort,
                FieldId::RdpUser,
                FieldId::RdpPass,
                FieldId::RdpResolution,
            ],
            ProtocolMode::Vnc => vec![FieldId::VncHost, FieldId::VncPort, FieldId::VncPass],
            ProtocolMode::Local => Vec::new(),
        };
        assert(fields@ =~= fields_of(self@.welcome));
        fields
    }

    /// Whether a setting is on.
    pub fn settings_checkbox_value(&self, key: SettingsToggleKey) -> (on: bool)
        ensures
            on == self@.settings.flag(key),
    {
        self.settings.flag(key)
    }

    /// Switches a setting on or off.
    pub fn toggle_settings_checkbox(&mut self, key: SettingsToggleKey)
        ensures
            final(self)@ == (Model {
                settings: old(self)@.settings.with_flag(key, !old(self)@.settings.flag(key)),
                ..old(self)@
            }),
    {
        let on = self.settings.flag(key);
        let mut settings = SettingsData::default();
        std::mem::swap(&mut settings, &mut self.settings);
        self.settings = settings.with_flag(key, !on);
    }

    /// The text of a setting.
    pub fn settings_text_value(&self, key: SettingsTextKey) -> (text: &str)
        ensures
            text@ == self@.settings.text(key),
    {
        self.settings.text(key)
    }

    /// Changes the text of a setting.
    pub fn set_settings_text(&mut self, key: SettingsTextKey, value: String)
        ensures
            final(self)@ == (Model {
                settings: old(self)@.settings.with_text(key, value@),
                ..old(self)@
            }),
    {
        let mut settings = SettingsData::default();
        std::mem::swap(&mut settings, &mut self.settings);
        self.settings = settings.with_text(key, value);
    }
}

impl Default for State {
    /// The state at the start where no shell is known.
    fn default() -> (state: State)
        ensures
            state@ == Model::fresh(seq![fallback_shell()]),
            state@.wf(),
    {
        State::new(crate::app::local_shell::detect_local_shells(None, None, None, None, None))
    }
}

/// Switching a setting twice leaves everything as it was.
pub proof fn toggling_twice_changes_nothing(s: Settings, key: SettingsToggleKey)
    ensures
        ({
            let once = s.with_flag(key, !s.flag(key));
            &&& once.flag(key) == !s.flag(key)
            &&& once.with_flag(key, !once.flag(key)) == s
        }),
{
}

/// Switching one setting leaves the others alone.
pub proof fn settings_are_independent(
    s: Settings,
    key: SettingsToggleKey,
    on: bool,
    other: SettingsToggleKey,
    text_key: SettingsTextKey,
    text: Seq<char>,
    other_text: SettingsTextKey,
)
    ensures
        s.with_flag(key, on).flag(key) == on,
        other != key ==> s.with_flag(key, on).flag(other) == s.flag(other),
        s.with_flag(key, on).text(text_key) == s.text(text_key),
        s.with_text(text_key, text).text(text_key) == text,
        other_text != text_key ==> s.with_text(text_key, text).text(other_text) == s.text(
            other_text,
        ),
        s.with_text(text_key, text).flag(key) == s.flag(key),
{
}

} // verus!
