//! The settings: their defaults, and what of them is stored.
use crate::app::model::{SettingsTextKey, SettingsToggleKey};
use crate::app::settings_names::{
    all_texts, all_toggles, name_of_text, name_of_toggle, names_tell_settings_apart, text_keys,
    text_name, text_named, text_of, toggle_keys, toggle_name, toggle_named, toggle_of,
};
use crate::app::state::{Model, State};
use crate::text::same_text;
use vstd::prelude::*;

verus! {

/// Every setting that is stored.
#[derive(Debug, Clone)]
pub struct SettingsData {
    pub auto_reconnect: bool,
    pub ssh_use_agent_forwarding: bool,
    pub telnet_echo_locally: bool,
    pub serial_hardware_flow_control: bool,
    pub local_launch_in_login_mode: bool,
    pub rdp_nla: bool,
    pub rdp_enable_audio: bool,
    pub rdp_font_smoothing: bool,
    pub rdp_desktop_composition: bool,
    pub vnc_remote_cursor: bool,
    pub vnc_shared_session: bool,
    pub vnc_view_only: bool,
    pub theme_compact_tab_style: bool,
    pub common_timeout: String,
    pub ssh_keepalive: String,
    pub ssh_terminal_type: String,
    pub telnet_line_ending: String,
    pub serial_data_bits: String,
    pub serial_stop_bits: String,
    pub serial_parity: String,
    pub local_default_shell: String,
    pub local_startup_args: String,
    pub rdp_color_depth: String,
    pub vnc_timeout: String,
}

/// Every setting, as a mathematical value.
#[verifier::ext_equal]
pub struct Settings {
    pub flags: spec_fn(SettingsToggleKey) -> bool,
    pub texts: spec_fn(SettingsTextKey) -> Seq<char>,
}

impl SettingsData {
    /// Whether a setting is on.
    pub open spec fn flag_of(self, key: SettingsToggleKey) -> bool {
        match key {
            SettingsToggleKey::AutoReconnect => self.auto_reconnect,
            SettingsToggleKey::UseAgentForwarding => self.ssh_use_agent_forwarding,
            SettingsToggleKey::EchoLocally => self.telnet_echo_locally,
            SettingsToggleKey::HardwareFlowControl => self.serial_hardware_flow_control,
            SettingsToggleKey::LaunchInLoginMode => self.local_launch_in_login_mode,
            SettingsToggleKey::RdpNla => self.rdp_nla,
            SettingsToggleKey::RdpEnableAudio => self.rdp_enable_audio,
            SettingsToggleKey::RdpFontSmoothing => self.rdp_font_smoothing,
            SettingsToggleKey::RdpDesktopComposition => self.rdp_desktop_composition,
            SettingsToggleKey::VncRemoteCursor => self.vnc_remote_cursor,
            SettingsToggleKey::VncSharedSession => self.vnc_shared_session,
            SettingsToggleKey::VncViewOnly => self.vnc_view_only,
            SettingsToggleKey::CompactTabStyle => self.theme_compact_tab_style,
        }
    }

    /// The text of a setting.
    pub open spec fn text_held(self, key: SettingsTextKey) -> Seq<char> {
        match key {
            SettingsTextKey::CommonTimeout => self.common_timeout@,
            SettingsTextKey::SshKeepAliveInterval => self.ssh_keepalive@,
            SettingsTextKey::SshTerminalType => self.ssh_terminal_type@,
            SettingsTextKey::TelnetLineEnding => self.telnet_line_ending@,
            SettingsTextKey::SerialDataBits => self.serial_data_bits@,
            SettingsTextKey::SerialStopBits => self.serial_stop_bits@,
            SettingsTextKey::SerialParity => self.serial_parity@,
            SettingsTextKey::LocalDefaultShell => self.local_default_shell@,
            SettingsTextKey::LocalStartupArgs => self.local_startup_args@,
            SettingsTextKey::RdpColorDepth => self.rdp_color_depth@,
            SettingsTextKey::VncTimeout => self.vnc_timeout@,
        }
    }
}

impl View for SettingsData {
    type V = Settings;

    open spec fn view(&self) -> Settings {
        Settings {
            flags: |key: SettingsToggleKey| self.flag_of(key),
            texts: |key: SettingsTextKey| self.text_held(key),
        }
    }
}

/// Whether a setting is on in a fresh installation.
pub open spec fn standard_flag(key: SettingsToggleKey) -> bool {
    match key {
        SettingsToggleKey::AutoReconnect => false,
        SettingsToggleKey::UseAgentForwarding => false,
        SettingsToggleKey::EchoLocally => true,
        SettingsToggleKey::HardwareFlowControl => false,
        SettingsToggleKey::LaunchInLoginMode => true,
        SettingsToggleKey::RdpNla => true,
        SettingsToggleKey::RdpEnableAudio => true,
        SettingsToggleKey::RdpFontSmoothing => true,
        SettingsToggleKey::RdpDesktopComposition => true,
        SettingsToggleKey::VncRemoteCursor => true,
        SettingsToggleKey::VncSharedSession => true,
        SettingsToggleKey::VncViewOnly => false,
        SettingsToggleKey::CompactTabStyle => false,
    }
}

/// The text of a setting in a fresh installation.
pub open spec fn standard_text(key: SettingsTextKey) -> Seq<char> {
    match key {
        SettingsTextKey::CommonTimeout => "30"@,
        SettingsTextKey::SshKeepAliveInterval => "0"@,
        SettingsTextKey::SshTerminalType => "xterm-256color"@,
        SettingsTextKey::TelnetLineEnding => "CRLF"@,
        SettingsTextKey::SerialDataBits => "8"@,
        SettingsTextKey::SerialStopBits => "1"@,
        SettingsTextKey::SerialParity => "None"@,
        SettingsTextKey::LocalDefaultShell => ""@,
        SettingsTextKey::LocalStartupArgs => ""@,
        SettingsTextKey::RdpColorDepth => "32"@,
        SettingsTextKey::VncTimeout => "10"@,
    }
}

impl Settings {
    /// The settings of a fresh installation.
    pub open spec fn standard() -> Settings {
        Settings {
            flags: |key: SettingsToggleKey| standard_flag(key),
            texts: |key: SettingsTextKey| standard_text(key),
        }
    }

    /// Whether a setting is on.
    pub open spec fn flag(self, key: SettingsToggleKey) -> bool {
        (self.flags)(key)
    }

    /// The settings with one of them on or off.
    pub open spec fn with_flag(self, key: SettingsToggleKey, on: bool) -> Settings {
        Settings {
            flags: |k: SettingsToggleKey|
                if k == key {
                    on
                } else {
                    (self.flags)(k)
                },
            ..self
        }
    }

    /// The text of a setting.
    pub open spec fn text(self, key: SettingsTextKey) -> Seq<char> {
        (self.texts)(key)
    }

    /// The settings with one of them changed to a text.
    pub open spec fn with_text(self, key: SettingsTextKey, text: Seq<char>) -> Settings {
        Settings {
            texts: |k: SettingsTextKey|
                if k == key {
                    text
                } else {
                    (self.texts)(k)
                },
            ..self
        }
    }
}

impl Default for SettingsData {
    fn default() -> (data: Self)
        ensures
            data@ == Settings::standard(),
    {
        let data = SettingsData {
            auto_reconnect: false,
            ssh_use_agent_forwarding: false,
            telnet_echo_locally: true,
            serial_hardware_flow_control: false,
            local_launch_in_login_mode: true,
            rdp_nla: true,
            rdp_enable_audio: true,
            rdp_font_smoothing: true,
            rdp_desktop_composition: true,
            vnc_remote_cursor: true,
            vnc_shared_session: true,
            vnc_view_only: false,
            theme_compact_tab_style: false,
            common_timeout: String::from_str("30"),
            ssh_keepalive: String::from_str("0"),
            ssh_terminal_type: String::from_str("xterm-256color"),
            telnet_line_ending: String::from_str("CRLF"),
            serial_data_bits: String::from_str("8"),
            serial_stop_bits: String::from_str("1"),
            serial_parity: String::from_str("None"),
            local_default_shell: String::from_str(""),
            local_startup_args: String::from_str(""),
            rdp_color_depth: String::from_str("32"),
            vnc_timeout: String::from_str("10"),
        };
        assert(data@ =~= Settings::standard());
        data
    }
}

impl SettingsData {
    /// Whether a setting is on.
    pub fn flag(&self, key: SettingsToggleKey) -> (on: bool)
        ensures
            on == self@.flag(key),
    {
        match key {
            SettingsToggleKey::AutoReconnect => self.auto_reconnect,
            SettingsToggleKey::UseAgentForwarding => self.ssh_use_agent_forwarding,
            SettingsToggleKey::EchoLocally => self.telnet_echo_locally,
            SettingsToggleKey::HardwareFlowControl => self.serial_hardware_flow_control,
            SettingsToggleKey::LaunchInLoginMode => self.local_launch_in_login_mode,
            SettingsToggleKey::RdpNla => self.rdp_nla,
            SettingsToggleKey::RdpEnableAudio => self.rdp_enable_audio,
            SettingsToggleKey::RdpFontSmoothing => self.rdp_font_smoothing,
            SettingsToggleKey::RdpDesktopComposition => self.rdp_desktop_composition,
            SettingsToggleKey::VncRemoteCursor => self.vnc_remote_cursor,
            SettingsToggleKey::VncSharedSession => self.vnc_shared_session,
            SettingsToggleKey::VncViewOnly => self.vnc_view_only,
            SettingsToggleKey::CompactTabStyle => self.theme_compact_tab_style,
        }
    }

    /// The settings with one of the session settings on or off.
    fn with_session_flag(self, key: SettingsToggleKey, on: bool) -> (data: SettingsData)
        requires
            key is AutoReconnect || key is UseAgentForwarding || key is EchoLocally
                || key is HardwareFlowControl || key is LaunchInLoginMode,
        ensures
            data@ == self@.with_flag(key, on),
    {
        match key {
            SettingsToggleKey::AutoReconnect => {
                let data = SettingsData { auto_reconnect: on, ..self };
                assert(data@ =~= self@.with_flag(key, on));
                data
            },
            SettingsToggleKey::UseAgentForwarding => {
                let data = SettingsData { ssh_use_agent_forwarding: on, ..self };
                assert(data@ =~= self@.with_flag(key, on));
                data
            },
            SettingsToggleKey::EchoLocally => {
                let data = SettingsData { telnet_echo_locally: on, ..self };
                assert(data@ =~= self@.with_flag(key, on));
                data
            },
            SettingsToggleKey::HardwareFlowControl => {
                let data = SettingsData { serial_hardware_flow_control: on, ..self };
                assert(data@ =~= self@.with_flag(key, on));
                data
            },
            SettingsToggleKey::LaunchInLoginMode => {
                let data = SettingsData { local_launch_in_login_mode: on, ..self };
                assert(data@ =~= self@.with_flag(key, on));
                data
            },
            _ => self,
        }
    }

    /// The settings with one of the rdp settings on or off.
    fn with_rdp_flag(self, key: SettingsToggleKey, on: bool) -> (data: SettingsData)
        requires
            key is RdpNla || key is RdpEnableAudio || key is RdpFontSmoothing
                || key is RdpDesktopComposition,
        ensures
            data@ == self@.with_flag(key, on),
    {
        match key {
            SettingsToggleKey::RdpNla => {
                let data = SettingsData { rdp_nla: on, ..self };
                assert(data@ =~= self@.with_flag(key, on));
                data
            },
            SettingsToggleKey::RdpEnableAudio => {
                let data = SettingsData { rdp_enable_audio: on, ..self };
                assert(data@ =~= self@.with_flag(key, on));
                data
            },
            SettingsToggleKey::RdpFontSmoothing => {
                let data = SettingsData { rdp_font_smoothing: on, ..self };
                assert(data@ =~= self@.with_flag(key, on));
                data
            },
            SettingsToggleKey::RdpDesktopComposition => {
                let data = SettingsData { rdp_desktop_composition: on, ..self };
                assert(data@ =~= self@.with_flag(key, on));
                data
            },
            _ => self,
        }
    }

    /// The settings with one of the vnc settings on or off.
    fn with_vnc_flag(self, key: SettingsToggleKey, on: bool) -> (data: SettingsData)
        requires
            key is VncRemoteCursor || key is VncSharedSession || key is VncViewOnly
                || key is CompactTabStyle,
        ensures
            data@ == self@.with_flag(key, on),
    {
        match key {
            SettingsToggleKey::VncRemoteCursor => {
                let data = SettingsData { vnc_remote_cursor: on, ..self };
                assert(data@ =~= self@.with_flag(key, on));
                data
            },
            SettingsToggleKey::VncSharedSession => {
                let data = SettingsData { vnc_shared_session: on, ..self };
                assert(data@ =~= self@.with_flag(key, on));
                data
            },
            SettingsToggleKey::VncViewOnly => {
                let data = SettingsData { vnc_view_only: on, ..self };
                assert(data@ =~= self@.with_flag(key, on));
                data
            },
            SettingsToggleKey::CompactTabStyle => {
                let data = SettingsData { theme_compact_tab_style: on, ..self };
                assert(data@ =~= self@.with_flag(key, on));
                data
            },
            _ => self,
        }
    }

    /// The settings with one of them on or off.
    pub fn with_flag(self, key: SettingsToggleKey, on: bool) -> (data: SettingsData)
        ensures
            data@ == self@.with_flag(key, on),
    {
        match key {
            SettingsToggleKey::RdpNla => self.with_rdp_flag(key, on),
            SettingsToggleKey::RdpEnableAudio => self.with_rdp_flag(key, on),
            SettingsToggleKey::RdpFontSmoothing => self.with_rdp_flag(key, on),
            SettingsToggleKey::RdpDesktopComposition => self.with_rdp_flag(key, on),
            SettingsToggleKey::VncRemoteCursor => self.with_vnc_flag(key, on),
            SettingsToggleKey::VncSharedSession => self.with_vnc_flag(key, on),
            SettingsToggleKey::VncViewOnly => self.with_vnc_flag(key, on),
            SettingsToggleKey::CompactTabStyle => self.with_vnc_flag(key, on),
            _ => self.with_session_flag(key, on),
        }
    }

    /// The text of a setting.
    pub fn text(&self, key: SettingsTextKey) -> (text: &str)
        ensures
            text@ == self@.text(key),
    {
        match key {
            SettingsTextKey::CommonTimeout => self.common_timeout.as_str(),
            SettingsTextKey::SshKeepAliveInterval => self.ssh_keepalive.as_str(),
            SettingsTextKey::SshTerminalType => self.ssh_terminal_type.as_str(),
            SettingsTextKey::TelnetLineEnding => self.telnet_line_ending.as_str(),
            SettingsTextKey::SerialDataBits => self.serial_data_bits.as_str(),
            SettingsTextKey::SerialStopBits => self.serial_stop_bits.as_str(),
            SettingsTextKey::SerialParity => self.serial_parity.as_str(),
            SettingsTextKey::LocalDefaultShell => self.local_default_shell.as_str(),
            SettingsTextKey::LocalStartupArgs => self.local_startup_args.as_str(),
            SettingsTextKey::RdpColorDepth => self.rdp_color_depth.as_str(),
            SettingsTextKey::VncTimeout => self.vnc_timeout.as_str(),
        }
    }

    /// The settings with one of the session texts changed.
    fn with_session_text(self, key: SettingsTextKey, text: String) -> (data: SettingsData)
        requires
            key is CommonTimeout || key is SshKeepAliveInterval || key is SshTerminalType
                || key is TelnetLineEnding,
        ensures
            data@ == self@.with_text(key, text@),
    {
        match key {
            SettingsTextKey::CommonTimeout => {
                let data = SettingsData { common_timeout: text, ..self };
                assert(data@ =~= self@.with_text(key, text@));
                data
            },
            SettingsTextKey::SshKeepAliveInterval => {
                let data = SettingsData { ssh_keepalive: text, ..self };
                assert(data@ =~= self@.with_text(key, text@));
                data
            },
            SettingsTextKey::SshTerminalType => {
                let data = SettingsData { ssh_terminal_type: text, ..self };
                assert(data@ =~= self@.with_text(key, text@));
                data
            },
            SettingsTextKey::TelnetLineEnding => {
                let data = SettingsData { telnet_line_ending: text, ..self };
                assert(data@ =~= self@.with_text(key, text@));
                data
            },
            _ => self,
        }
    }

    /// The settings with one of the port texts changed.
    fn with_port_text(self, key: SettingsTextKey, text: String) -> (data: SettingsData)
        requires
            key is SerialDataBits || key is SerialStopBits || key is SerialParity,
        ensures
            data@ == self@.with_text(key, text@),
    {
        match key {
            SettingsTextKey::SerialDataBits => {
                let data = SettingsData { serial_data_bits: text, ..self };
                assert(data@ =~= self@.with_text(key, text@));
                data
            },
            SettingsTextKey::SerialStopBits => {
                let data = SettingsData { serial_stop_bits: text, ..self };
                assert(data@ =~= self@.with_text(key, text@));
                data
            },
            SettingsTextKey::SerialParity => {
                let data = SettingsData { serial_parity: text, ..self };
                assert(data@ =~= self@.with_text(key, text@));
                data
            },
            _ => self,
        }
    }

    /// The settings with one of the shell texts changed.
    fn with_shell_text(self, key: SettingsTextKey, text: String) -> (data: SettingsData)
        requires
            key is LocalDefaultShell || key is LocalStartupArgs || key is RdpColorDepth
                || key is VncTimeout,
        ensures
            data@ == self@.with_text(key, text@),
    {
        match key {
            SettingsTextKey::LocalDefaultShell => {
                let data = SettingsData { local_default_shell: text, ..self };
                assert(data@ =~= self@.with_text(key, text@));
                data
            },
            SettingsTextKey::LocalStartupArgs => {
                let data = SettingsData { local_startup_args: text, ..self };
                assert(data@ =~= self@.with_text(key, text@));
                data
            },
            SettingsTextKey::RdpColorDepth => {
                let data = SettingsData { rdp_color_depth: text, ..self };
                assert(data@ =~= self@.with_text(key, text@));
                data
            },
            SettingsTextKey::VncTimeout => {
                let data = SettingsData { vnc_timeout: text, ..self };
                assert(data@ =~= self@.with_text(key, text@));
                data
            },
            _ => self,
        }
    }

    /// The settings with one of them changed to a text.
    pub fn with_text(self, key: SettingsTextKey, text: String) -> (data: SettingsData)
        ensures
            data@ == self@.with_text(key, text@),
    {
        match key {
            SettingsTextKey::SerialDataBits => self.with_port_text(key, text),
            SettingsTextKey::SerialStopBits => self.with_port_text(key, text),
            SettingsTextKey::SerialParity => self.with_port_text(key, text),
            SettingsTextKey::LocalDefaultShell => self.with_shell_text(key, text),
            SettingsTextKey::LocalStartupArgs => self.with_shell_text(key, text),
            SettingsTextKey::RdpColorDepth => self.with_shell_text(key, text),
            SettingsTextKey::VncTimeout => self.with_shell_text(key, text),
            _ => self.with_session_text(key, text),
        }
    }

    /// Takes the settings out of the application's state.
    pub fn from_state(state: &State) -> (data: Self)
        ensures
            data@ == state@.settings,
    {
        SettingsData {
            auto_reconnect: state.settings.auto_reconnect,
            ssh_use_agent_forwarding: state.settings.ssh_use_agent_forwarding,
            telnet_echo_locally: state.settings.telnet_echo_locally,
            serial_hardware_flow_control: state.settings.serial_hardware_flow_control,
            local_launch_in_login_mode: state.settings.local_launch_in_login_mode,
            rdp_nla: state.settings.rdp_nla,
            rdp_enable_audio: state.settings.rdp_enable_audio,
            rdp_font_smoothing: state.settings.rdp_font_smoothing,
            rdp_desktop_composition: state.settings.rdp_desktop_composition,
            vnc_remote_cursor: state.settings.vnc_remote_cursor,
            vnc_shared_session: state.settings.vnc_shared_session,
            vnc_view_only: state.settings.vnc_view_only,
            theme_compact_tab_style: state.settings.theme_compact_tab_style,
            common_timeout: state.settings.common_timeout.clone(),
            ssh_keepalive: state.settings.ssh_keepalive.clone(),
            ssh_terminal_type: state.settings.ssh_terminal_type.clone(),
            telnet_line_ending: state.settings.telnet_line_ending.clone(),
            serial_data_bits: state.settings.serial_data_bits.clone(),
            serial_stop_bits: state.settings.serial_stop_bits.clone(),
            serial_parity: state.settings.serial_parity.clone(),
            local_default_shell: state.settings.local_default_shell.clone(),
            local_startup_args: state.settings.local_startup_args.clone(),
            rdp_color_depth: state.settings.rdp_color_depth.clone(),
            vnc_timeout: state.settings.vnc_timeout.clone(),
        }
    }

    /// Puts the settings into the application's state.
    pub fn apply_to(&self, state: &mut State)
        ensures
            final(state)@ == (Model { settings: self@, ..old(state)@ }),
    {
        state.settings = SettingsData {
            auto_reconnect: self.auto_reconnect,
            ssh_use_agent_forwarding: self.ssh_use_agent_forwarding,
            telnet_echo_locally: self.telnet_echo_locally,
            serial_hardware_flow_control: self.serial_hardware_flow_control,
            local_launch_in_login_mode: self.local_launch_in_login_mode,
            rdp_nla: self.rdp_nla,
            rdp_enable_audio: self.rdp_enable_audio,
            rdp_font_smoothing: self.rdp_font_smoothing,
            rdp_desktop_composition: self.rdp_desktop_composition,
            vnc_remote_cursor: self.vnc_remote_cursor,
            vnc_shared_session: self.vnc_shared_session,
            vnc_view_only: self.vnc_view_only,
            theme_compact_tab_style: self.theme_compact_tab_style,
            common_timeout: self.common_timeout.clone(),
            ssh_keepalive: self.ssh_keepalive.clone(),
            ssh_terminal_type: self.ssh_terminal_type.clone(),
            telnet_line_ending: self.telnet_line_ending.clone(),
            serial_data_bits: self.serial_data_bits.clone(),
            serial_stop_bits: self.serial_stop_bits.clone(),
            serial_parity: self.serial_parity.clone(),
            local_default_shell: self.local_default_shell.clone(),
            local_startup_args: self.local_startup_args.clone(),
            rdp_color_depth: self.rdp_color_depth.clone(),
            vnc_timeout: self.vnc_timeout.clone(),
        };
    }
}

/// A stored value.
#[derive(Debug, Clone)]
pub enum SettingsValue {
    Flag(bool),
    Text(String),
    /// A value that no setting takes.
    Other,
}

/// A stored value as a mathematical value.
#[verifier::ext_equal]
pub enum Value {
    Flag(bool),
    Text(Seq<char>),
    Other,
}

/// A stored name with its value.
#[derive(Debug, Clone)]
pub struct SettingsEntry {
    pub name: String,
    pub value: SettingsValue,
}

/// A stored name with its value, as a mathematical value.
#[verifier::ext_equal]
pub struct Entry {
    pub name: Seq<char>,
    pub value: Value,
}

impl View for SettingsEntry {
    type V = Entry;

    open spec fn view(&self) -> Entry {
        Entry {
            name: self.name@,
            value: match self.value {
                SettingsValue::Flag(on) => Value::Flag(on),
                SettingsValue::Text(text) => Value::Text(text@),
                SettingsValue::Other => Value::Other,
            },
        }
    }
}

/// Entries as mathematical values.
pub open spec fn entries_view(entries: Seq<SettingsEntry>) -> Seq<Entry> {
    Seq::new(entries.len(), |i: int| entries[i]@)
}

/// Why stored settings cannot be used.
#[derive(Debug, Clone, Copy, PartialEq, Eq, Structural)]
pub enum SettingsError {
    /// A setting has a value of another type.
    WrongType,
    /// A setting is stored twice.
    Duplicate,
}

/// What is stored of settings that are on or off: those that differ from the defaults.
pub open spec fn stored_flags(s: Settings, keys: Seq<SettingsToggleKey>) -> Seq<Entry>
    decreases keys.len(),
{
    if keys.len() == 0 {
        Seq::empty()
    } else {
        let key = keys.last();
        let before = stored_flags(s, keys.drop_last());
        if s.flag(key) != Settings::standard().flag(key) {
            before.push(Entry { name: toggle_name(key), value: Value::Flag(s.flag(key)) })
        } else {
            before
        }
    }
}

/// What is stored of settings that are texts: those that differ from the defaults.
pub open spec fn stored_texts(s: Settings, keys: Seq<SettingsTextKey>) -> Seq<Entry>
    decreases keys.len(),
{
    if keys.len() == 0 {
        Seq::empty()
    } else {
        let key = keys.last();
        let before = stored_texts(s, keys.drop_last());
        if s.text(key) != Settings::standard().text(key) {
            before.push(Entry { name: text_name(key), value: Value::Text(s.text(key)) })
        } else {
            before
        }
    }
}

/// What is stored of settings.
pub open spec fn stored(s: Settings) -> Seq<Entry> {
    stored_flags(s, toggle_keys()) + stored_texts(s, text_keys())
}

/// How far stored settings have been read.
#[verifier::ext_equal]
pub struct Reading {
    pub settings: Settings,
    pub flags: Seq<SettingsToggleKey>,
    pub texts: Seq<SettingsTextKey>,
}

impl Reading {
    /// Before the first entry.
    pub open spec fn start() -> Reading {
        Reading { settings: Settings::standard(), flags: Seq::empty(), texts: Seq::empty() }
    }

    /// After one more entry. Names that mean nothing are passed over.
    pub open spec fn with_entry(self, entry: Entry) -> Result<Reading, SettingsError> {
        match toggle_of(entry.name) {
            Some(key) => if self.flags.contains(key) {
                Err(SettingsError::Duplicate)
            } else {
                match entry.value {
                    Value::Flag(on) => Ok(
                        Reading {
                            settings: self.settings.with_flag(key, on),
                            flags: self.flags.push(key),
                            ..self
                        },
                    ),
                    _ => Err(SettingsError::WrongType),
                }
            },
            None => match text_of(entry.name) {
                Some(key) => if self.texts.contains(key) {
                    Err(SettingsError::Duplicate)
                } else {
                    match entry.value {
                        Value::Text(text) => Ok(
                            Reading {
                                settings: self.settings.with_text(key, text),
                                texts: self.texts.push(key),
                                ..self
                            },
                        ),
                        _ => Err(SettingsError::WrongType),
                    }
                },
                None => Ok(self),
            },
        }
    }
}

/// What reading entries in their order gives. The first one that cannot be used ends it.
pub open spec fn read(entries: Seq<Entry>) -> Result<Reading, SettingsError>
    decreases entries.len(),
{
    if entries.len() == 0 {
        Ok(Reading::start())
    } else {
        match read(entries.drop_last()) {
            Ok(reading) => reading.with_entry(entries.last()),
            Err(e) => Err(e),
        }
    }
}

/// What came of reading the stored settings.
#[derive(Debug)]
pub enum SettingsSource {
    /// Nothing is stored.
    Missing,
    /// What is stored could not be read.
    Unreadable,
    /// What is stored is not made of names and values.
    Malformed,
    /// The names and values.
    Entries(Vec<SettingsEntry>),
}

/// Whether a list holds a key.
fn has_toggle(keys: &Vec<SettingsToggleKey>, key: SettingsToggleKey) -> (b: bool)
    ensures
        b == keys@.contains(key),
{
    let mut i: usize = 0;
    while i < keys.len()
        invariant
            i <= keys.len(),
            forall|k: int| 0 <= k < i ==> keys@[k] != key,
        decreases keys.len() - i,
    {
        if keys[i] == key {
            return true;
        }
        i = i + 1;
    }
    false
}

/// Whether a list holds a key.
fn has_text(keys: &Vec<SettingsTextKey>, key: SettingsTextKey) -> (b: bool)
    ensures
        b == keys@.contains(key),
{
    let mut i: usize = 0;
    while i < keys.len()
        invariant
            i <= keys.len(),
            forall|k: int| 0 <= k < i ==> keys@[k] != key,
        decreases keys.len() - i,
    {
        if keys[i] == key {
            return true;
        }
        i = i + 1;
    }
    false
}

impl SettingsData {
    /// Adds a setting to what is stored, if it differs from its default.
    fn push_flag(&self, entries: &mut Vec<SettingsEntry>, key: SettingsToggleKey)
        ensures
            entries_view(final(entries)@) == (if self@.flag(key) != Settings::standard().flag(
                key,
            ) {
                entries_view(old(entries)@).push(
                    Entry { name: toggle_name(key), value: Value::Flag(self@.flag(key)) },
                )
            } else {
                entries_view(old(entries)@)
            }),
    {
        let on = self.flag(key);
        if on != SettingsData::default().flag(key) {
            let ghost before = entries_view(entries@);
            let entry = SettingsEntry {
                name: String::from_str(name_of_toggle(key)),
                value: SettingsValue::Flag(on),
            };
            let ghost added = entry@;
            entries.push(entry);
            assert(entries_view(entries@) =~= before.push(added));
        }
    }

    /// Adds a setting to what is stored, if it differs from its default.
    fn push_text(&self, entries: &mut Vec<SettingsEntry>, key: SettingsTextKey)
        ensures
            entries_view(final(entries)@) == (if self@.text(key) != Settings::standard().text(
                key,
            ) {
                entries_view(old(entries)@).push(
                    Entry { name: text_name(key), value: Value::Text(self@.text(key)) },
                )
            } else {
                entries_view(old(entries)@)
            }),
    {
        let text = self.text(key);
        let standard = SettingsData::default();
        if !same_text(text, standard.text(key)) {
            let ghost before = entries_view(entries@);
            let entry = SettingsEntry {
                name: String::from_str(name_of_text(key)),
                value: SettingsValue::Text(String::from_str(text)),
            };
            let ghost added = entry@;
            entries.push(entry);
            assert(entries_view(entries@) =~= before.push(added));
        }
    }

    /// What is stored of the settings: each that differs from its default.
    pub fn to_entries(&self) -> (entries: Vec<SettingsEntry>)
        ensures
            entries_view(entries@) == stored(self@),
    {
        let flags: [SettingsToggleKey; 13] = all_toggles();
        let texts: [SettingsTextKey; 11] = all_texts();
        let mut entries: Vec<SettingsEntry> = Vec::new();
        let mut i: usize = 0;
        assert(entries_view(entries@) =~= stored_flags(self@, flags@.take(0)));
        while i < 13
            invariant
                i <= 13,
                flags@ == toggle_keys(),
                flags@.len() == 13,
                entries_view(entries@) == stored_flags(self@, flags@.take(i as int)),
            decreases 13 - i,
        {
            assert(flags@.take(i + 1).drop_last() =~= flags@.take(i as int));
            self.push_flag(&mut entries, flags[i]);
            i = i + 1;
        }
        assert(flags@.take(13) =~= toggle_keys());
        let ghost first = entries_view(entries@);
        let mut j: usize = 0;
        assert(entries_view(entries@) =~= first + stored_texts(self@, texts@.take(0)));
        while j < 11
            invariant
                j <= 11,
                texts@ == text_keys(),
                texts@.len() == 11,
                entries_view(entries@) == first + stored_texts(self@, texts@.take(j as int)),
            decreases 11 - j,
        {
            assert(texts@.take(j + 1).drop_last() =~= texts@.take(j as int));
            let ghost before = entries_view(entries@);
            self.push_text(&mut entries, texts[j]);
            assert(entries_view(entries@) =~= first + stored_texts(self@, texts@.take(j + 1)));
            j = j + 1;
        }
        assert(texts@.take(11) =~= text_keys());
        entries
    }

    /// Reads stored settings. What is not stored has its default.
    pub fn from_entries(entries: &Vec<SettingsEntry>) -> (data: Result<Self, SettingsError>)
        ensures
            match data {
                Ok(d) => match read(entries_view(entries@)) {
                    Ok(reading) => d@ == reading.settings,
                    Err(_) => false,
                },
                Err(e) => match read(entries_view(entries@)) {
                    Ok(_) => false,
                    Err(f) => e == f,
                },
            },
    {
        let ghost view = entries_view(entries@);
        let mut data = SettingsData::default();
        let mut flags: Vec<SettingsToggleKey> = Vec::new();
        let mut texts: Vec<SettingsTextKey> = Vec::new();
        let mut i: usize = 0;
        assert(view.take(0) =~= Seq::empty());
        while i < entries.len()
            invariant
                i <= entries.len(),
                view == entries_view(entries@),
                read(view.take(i as int)) == Ok::<Reading, SettingsError>(
                    Reading { settings: data@, flags: flags@, texts: texts@ },
                ),
            decreases entries.len() - i,
        {
            let ghost reading = Reading { settings: data@, flags: flags@, texts: texts@ };
            let ghost next = view.take(i + 1);
            assert(next.drop_last() =~= view.take(i as int));
            assert(next.last() == entries@[i as int]@);
            let entry = &entries[i];
            let name = entry.name.as_str();
            match toggle_named(name) {
                Some(key) => {
                    if has_toggle(&flags, key) {
                        proof {
                            lemma_read_error(view, i + 1, SettingsError::Duplicate);
                        }
                        return Err(SettingsError::Duplicate);
                    }
                    match &entry.value {
                        SettingsValue::Flag(on) => {
                            data = data.with_flag(key, *on);
                            flags.push(key);
                        },
                        _ => {
                            proof {
                                lemma_read_error(view, i + 1, SettingsError::WrongType);
                            }
                            return Err(SettingsError::WrongType);
                        },
                    }
                },
                None => {
                    if let Some(key) = text_named(name) {
                        if has_text(&texts, key) {
                            proof {
                                lemma_read_error(view, i + 1, SettingsError::Duplicate);
                            }
                            return Err(SettingsError::Duplicate);
                        }
                        match &entry.value {
                            SettingsValue::Text(text) => {
                                data = data.with_text(key, text.clone());
                                texts.push(key);
                            },
                            _ => {
                                proof {
                                    lemma_read_error(view, i + 1, SettingsError::WrongType);
                                }
                                return Err(SettingsError::WrongType);
                            },
                        }
                    }
                },
            }
            i = i + 1;
        }
        assert(view.take(i as int) =~= view);
        Ok(data)
    }
}

/// The settings to start with: those that are stored, or the defaults where nothing that can be
/// used is stored.
pub fn load_settings(source: SettingsSource) -> (data: SettingsData)
    ensures
        data@ == (match source {
            SettingsSource::Entries(entries) => match read(entries_view(entries@)) {
                Ok(reading) => reading.settings,
                Err(_) => Settings::standard(),
            },
            _ => Settings::standard(),
        }),
{
    match source {
        SettingsSource::Entries(entries) => match SettingsData::from_entries(&entries) {
            Ok(data) => data,
            Err(_) => SettingsData::default(),
        },
        _ => SettingsData::default(),
    }
}

/// What is to be stored of the application's settings.
pub fn save_settings(state: &State) -> (entries: Vec<SettingsEntry>)
    ensures
        entries_view(entries@) == stored(state@.settings),
{
    SettingsData::from_state(state).to_entries()
}

/// An entry that cannot be used decides the outcome.
proof fn lemma_read_error(entries: Seq<Entry>, n: int, e: SettingsError)
    requires
        0 < n <= entries.len(),
        read(entries.take(n)) == Err::<Reading, SettingsError>(e),
    ensures
        read(entries) == Err::<Reading, SettingsError>(e),
    decreases entries.len() - n,
{
    if n == entries.len() {
        assert(entries.take(n) =~= entries);
    } else {
        assert(entries.take(n + 1).drop_last() =~= entries.take(n));
        lemma_read_error(entries, n + 1, e);
    }
}

/// Where a key stands in the order of storing.
spec fn toggle_rank(key: SettingsToggleKey) -> int {
    match key {
        SettingsToggleKey::AutoReconnect => 0,
        SettingsToggleKey::UseAgentForwarding => 1,
        SettingsToggleKey::EchoLocally => 2,
        SettingsToggleKey::HardwareFlowControl => 3,
        SettingsToggleKey::LaunchInLoginMode => 4,
        SettingsToggleKey::RdpNla => 5,
        SettingsToggleKey::RdpEnableAudio => 6,
        SettingsToggleKey::RdpFontSmoothing => 7,
        SettingsToggleKey::RdpDesktopComposition => 8,
        SettingsToggleKey::VncRemoteCursor => 9,
        SettingsToggleKey::VncSharedSession => 10,
        SettingsToggleKey::VncViewOnly => 11,
        SettingsToggleKey::CompactTabStyle => 12,
    }
}

/// Where a key stands in the order of storing.
spec fn text_rank(key: SettingsTextKey) -> int {
    match key {
        SettingsTextKey::CommonTimeout => 0,
        SettingsTextKey::SshKeepAliveInterval => 1,
        SettingsTextKey::SshTerminalType => 2,
        SettingsTextKey::TelnetLineEnding => 3,
        SettingsTextKey::SerialDataBits => 4,
        SettingsTextKey::SerialStopBits => 5,
        SettingsTextKey::SerialParity => 6,
        SettingsTextKey::LocalDefaultShell => 7,
        SettingsTextKey::LocalStartupArgs => 8,
        SettingsTextKey::RdpColorDepth => 9,
        SettingsTextKey::VncTimeout => 10,
    }
}

proof fn lemma_ranks(toggle: SettingsToggleKey, text: SettingsTextKey)
    ensures
        0 <= toggle_rank(toggle) < toggle_keys().len(),
        toggle_keys()[toggle_rank(toggle)] == toggle,
        0 <= text_rank(text) < text_keys().len(),
        text_keys()[text_rank(text)] == text,
{
}

proof fn lemma_toggle_at(n: int)
    requires
        0 <= n < toggle_keys().len(),
    ensures
        toggle_rank(toggle_keys()[n]) == n,
{
}

proof fn lemma_text_at(n: int)
    requires
        0 <= n < text_keys().len(),
    ensures
        text_rank(text_keys()[n]) == n,
{
}

/// How far the reading of stored settings has come: the first `n` that are on or off and the first
/// `m` texts are as they were, and the others have their defaults.
spec fn read_upto(s: Settings, r: Reading, n: int, m: int) -> bool {
    &&& forall|key: SettingsToggleKey| #[trigger]
        r.settings.flag(key) == (if toggle_rank(key) < n {
            s.flag(key)
        } else {
            Settings::standard().flag(key)
        })
    &&& forall|key: SettingsTextKey| #[trigger]
        r.settings.text(key) == (if text_rank(key) < m {
            s.text(key)
        } else {
            Settings::standard().text(key)
        })
    &&& forall|key: SettingsToggleKey| #[trigger] r.flags.contains(key) ==> toggle_rank(key) < n
    &&& forall|key: SettingsTextKey| #[trigger] r.texts.contains(key) ==> text_rank(key) < m
}

proof fn lemma_flags_read(s: Settings, n: int)
    requires
        0 <= n <= toggle_keys().len(),
    ensures
        read(stored_flags(s, toggle_keys().take(n))) is Ok,
        read_upto(s, read(stored_flags(s, toggle_keys().take(n)))->Ok_0, n, 0),
    decreases n,
{
    assert forall|t: SettingsToggleKey, x: SettingsTextKey|
        0 <= #[trigger] toggle_rank(t) && 0 <= #[trigger] text_rank(x) by {
        lemma_ranks(t, x);
    }
    if n > 0 {
        lemma_flags_read(s, n - 1);
        let keys = toggle_keys().take(n);
        let key = keys.last();
        assert(keys.drop_last() =~= toggle_keys().take(n - 1));
        lemma_toggle_at(n - 1);
        let before = stored_flags(s, keys.drop_last());
        let r = read(before)->Ok_0;
        if s.flag(key) != Settings::standard().flag(key) {
            let entry = Entry { name: toggle_name(key), value: Value::Flag(s.flag(key)) };
            assert(before.push(entry).drop_last() =~= before);
            names_tell_settings_apart(key, SettingsTextKey::VncTimeout);
            assert(!r.flags.contains(key));
            let after = read(before.push(entry))->Ok_0;
            assert forall|k: SettingsToggleKey| #[trigger] after.flags.contains(
                k,
            ) implies toggle_rank(k) < n by {
                if k != key {
                    let i = choose|i: int| 0 <= i < after.flags.len() && after.flags[i] == k;
                    assert(r.flags[i] == k);
                    assert(r.flags.contains(k));
                }
            }
            assert forall|k: SettingsToggleKey| #[trigger]
                after.settings.flag(k) == (if toggle_rank(k) < n {
                    s.flag(k)
                } else {
                    Settings::standard().flag(k)
                }) by {
                lemma_ranks(k, SettingsTextKey::VncTimeout);
                assert(r.settings.flag(k) == (if toggle_rank(k) < n - 1 {
                    s.flag(k)
                } else {
                    Settings::standard().flag(k)
                }));
            }
            assert forall|k: SettingsTextKey| #[trigger]
                after.settings.text(k) == Settings::standard().text(k) by {
                assert(r.settings.text(k) == Settings::standard().text(k));
            }
        } else {
            assert forall|k: SettingsToggleKey| #[trigger]
                r.settings.flag(k) == (if toggle_rank(k) < n {
                    s.flag(k)
                } else {
                    Settings::standard().flag(k)
                }) by {
                lemma_ranks(k, SettingsTextKey::VncTimeout);
            }
        }
    }
}

proof fn lemma_texts_read(s: Settings, m: int)
    requires
        0 <= m <= text_keys().len(),
    ensures
        ({
            let entries = stored_flags(s, toggle_keys()) + stored_texts(s, text_keys().take(m));
            &&& read(entries) is Ok
            &&& read_upto(s, read(entries)->Ok_0, toggle_keys().len() as int, m)
        }),
    decreases m,
{
    let first = stored_flags(s, toggle_keys());
    if m == 0 {
        lemma_flags_read(s, toggle_keys().len() as int);
        assert(toggle_keys().take(toggle_keys().len() as int) =~= toggle_keys());
        assert(first + stored_texts(s, text_keys().take(0)) =~= first);
    } else {
        lemma_texts_read(s, m - 1);
        let keys = text_keys().take(m);
        let key = keys.last();
        assert(keys.drop_last() =~= text_keys().take(m - 1));
        lemma_text_at(m - 1);
        let before = first + stored_texts(s, keys.drop_last());
        let r = read(before)->Ok_0;
        if s.text(key) != Settings::standard().text(key) {
            let entry = Entry { name: text_name(key), value: Value::Text(s.text(key)) };
            assert(first + stored_texts(s, keys) =~= before.push(entry));
            assert(before.push(entry).drop_last() =~= before);
            names_tell_settings_apart(SettingsToggleKey::RdpNla, key);
            assert(!r.texts.contains(key));
            let after = read(before.push(entry))->Ok_0;
            assert forall|k: SettingsTextKey| #[trigger] after.texts.contains(
                k,
            ) implies text_rank(k) < m by {
                if k != key {
                    let i = choose|i: int| 0 <= i < after.texts.len() && after.texts[i] == k;
                    assert(r.texts[i] == k);
                    assert(r.texts.contains(k));
                }
            }
            assert forall|k: SettingsTextKey| #[trigger]
                after.settings.text(k) == (if text_rank(k) < m {
                    s.text(k)
                } else {
                    Settings::standard().text(k)
                }) by {
                lemma_ranks(SettingsToggleKey::RdpNla, k);
                assert(r.settings.text(k) == (if text_rank(k) < m - 1 {
                    s.text(k)
                } else {
                    Settings::standard().text(k)
                }));
            }
            assert forall|k: SettingsToggleKey| #[trigger]
                after.settings.flag(k) == (if toggle_rank(k) < toggle_keys().len() {
                    s.flag(k)
                } else {
                    Settings::standard().flag(k)
                }) by {
                assert(r.settings.flag(k) == (if toggle_rank(k) < toggle_keys().len() {
                    s.flag(k)
                } else {
                    Settings::standard().flag(k)
                }));
            }
        } else {
            assert forall|k: SettingsTextKey| #[trigger]
                r.settings.text(k) == (if text_rank(k) < m {
                    s.text(k)
                } else {
                    Settings::standard().text(k)
                }) by {
                lemma_ranks(SettingsToggleKey::RdpNla, k);
            }
        }
    }
}

/// Settings that were stored are read back as they were, those that differ from the defaults and
/// those that do not.
pub proof fn stored_settings_read_back(s: Settings)
    ensures
        match read(stored(s)) {
            Ok(reading) => reading.settings == s,
            Err(_) => false,
        },
{
    lemma_texts_read(s, text_keys().len() as int);
    assert(text_keys().take(text_keys().len() as int) =~= text_keys());
    let r = read(stored(s))->Ok_0;
    let read_settings = r.settings;
    assert forall|k: SettingsToggleKey| #[trigger] read_settings.flag(k) == s.flag(k) by {
        lemma_ranks(k, SettingsTextKey::VncTimeout);
    }
    assert forall|k: SettingsTextKey| #[trigger] read_settings.text(k) == s.text(k) by {
        lemma_ranks(SettingsToggleKey::RdpNla, k);
    }
    assert forall|k: SettingsToggleKey| #[trigger] (read_settings.flags)(k) == (s.flags)(k) by {
        assert(read_settings.flag(k) == s.flag(k));
    }
    assert forall|k: SettingsTextKey| #[trigger] (read_settings.texts)(k) == (s.texts)(k) by {
        assert(read_settings.text(k) == s.text(k));
    }
    assert(read_settings =~= s);
}

/// Of the default settings nothing is stored.
pub proof fn defaults_are_not_stored()
    ensures
        stored(Settings::standard()) == Seq::<Entry>::empty(),
{
    lemma_no_flags(toggle_keys());
    lemma_no_texts(text_keys());
    assert(stored(Settings::standard()) =~= Seq::<Entry>::empty());
}

proof fn lemma_no_flags(keys: Seq<SettingsToggleKey>)
    ensures
        stored_flags(Settings::standard(), keys) == Seq::<Entry>::empty(),
    decreases keys.len(),
{
    if keys.len() > 0 {
        lemma_no_flags(keys.drop_last());
    }
}

proof fn lemma_no_texts(keys: Seq<SettingsTextKey>)
    ensures
        stored_texts(Settings::standard(), keys) == Seq::<Entry>::empty(),
    decreases keys.len(),
{
    if keys.len() > 0 {
        lemma_no_texts(keys.drop_last());
    }
}

/// Every entry that is stored names a setting which differs from its default, and holds its value.
pub proof fn only_changes_are_stored(s: Settings, i: int)
    requires
        0 <= i < stored(s).len(),
    ensures
        match (toggle_of(stored(s)[i].name), text_of(stored(s)[i].name)) {
            (Some(key), None) => {
                &&& stored(s)[i].value == Value::Flag(s.flag(key))
                &&& s.flag(key) != Settings::standard().flag(key)
            },
            (None, Some(key)) => {
                &&& stored(s)[i].value == Value::Text(s.text(key))
                &&& s.text(key) != Settings::standard().text(key)
            },
            _ => false,
        },
{
    let first = stored_flags(s, toggle_keys());
    if i < first.len() {
        lemma_changed_flag(s, toggle_keys(), i);
    } else {
        lemma_changed_text(s, text_keys(), i - first.len());
    }
}

proof fn lemma_changed_flag(s: Settings, keys: Seq<SettingsToggleKey>, i: int)
    requires
        0 <= i < stored_flags(s, keys).len(),
    ensures
        ({
            let entry = stored_flags(s, keys)[i];
            &&& toggle_of(entry.name) is Some
            &&& text_of(entry.name) is None
            &&& entry.value == Value::Flag(s.flag(toggle_of(entry.name)->0))
            &&& s.flag(toggle_of(entry.name)->0) != Settings::standard().flag(
                toggle_of(entry.name)->0,
            )
        }),
    decreases keys.len(),
{
    if keys.len() > 0 {
        names_tell_settings_apart(keys.last(), SettingsTextKey::VncTimeout);
        if i < stored_flags(s, keys.drop_last()).len() {
            lemma_changed_flag(s, keys.drop_last(), i);
        }
    }
}

proof fn lemma_changed_text(s: Settings, keys: Seq<SettingsTextKey>, i: int)
    requires
        0 <= i < stored_texts(s, keys).len(),
    ensures
        ({
            let entry = stored_texts(s, keys)[i];
            &&& text_of(entry.name) is Some
            &&& toggle_of(entry.name) is None
            &&& entry.value == Value::Text(s.text(text_of(entry.name)->0))
            &&& s.text(text_of(entry.name)->0) != Settings::standard().text(
                text_of(entry.name)->0,
            )
        }),
    decreases keys.len(),
{
    if keys.len() > 0 {
        names_tell_settings_apart(SettingsToggleKey::RdpNla, keys.last());
        if i < stored_texts(s, keys.drop_last()).len() {
            lemma_changed_text(s, keys.drop_last(), i);
        }
    }
}

} // verus!
