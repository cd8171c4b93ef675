//! The settings page: its categories, and the rows of each.
use crate::app::model::{SettingsTabKind, SettingsTextKey, SettingsToggleKey};
use crate::app::settings_persistence::{Settings, SettingsData};
use crate::app::state::State;
use vstd::prelude::*;

verus! {

/// What a group of settings is about.
#[derive(Debug, Clone, Copy, PartialEq, Eq, Structural)]
pub enum Category {
    Common,
    Ssh,
    Telnet,
    Serial,
    LocalShell,
    Rdp,
    Vnc,
    Theme,
    /// No group of the page.
    Unknown,
}

/// The categories of a settings page.
pub open spec fn categories(kind: SettingsTabKind) -> Seq<Category> {
    match kind {
        SettingsTabKind::Preferences => seq![
            Category::Common,
            Category::Ssh,
            Category::Telnet,
            Category::Serial,
            Category::LocalShell,
            Category::Rdp,
            Category::Vnc,
        ],
        SettingsTabKind::Theme => seq![Category::Theme],
    }
}

/// The name of a category.
pub open spec fn category_name(category: Category) -> Seq<char> {
    match category {
        Category::Common => "Common"@,
        Category::Ssh => "SSH"@,
        Category::Telnet => "Telnet"@,
        Category::Serial => "Serial"@,
        Category::LocalShell => "Local Shell"@,
        Category::Rdp => "RDP"@,
        Category::Vnc => "VNC"@,
        Category::Theme => "Theme"@,
        Category::Unknown => "Unknown"@,
    }
}

/// What is said under the title of a category.
pub open spec fn category_note(category: Category) -> Seq<char> {
    match category {
        Category::Common => "Adjust application-wide behavior."@,
        Category::Ssh => "Configure SSH connection options."@,
        Category::Telnet => "Configure Telnet connection options."@,
        Category::Serial => "Configure serial port parameters."@,
        Category::LocalShell => "Configure local shell launch behavior."@,
        Category::Rdp => "Configure Remote Desktop Protocol options."@,
        Category::Vnc => "Configure VNC connection options."@,
        Category::Theme => "Theme options placeholder."@,
        Category::Unknown => "No settings available."@,
    }
}

/// The category that is chosen.
pub open spec fn chosen(kind: SettingsTabKind, index: int) -> Category {
    if 0 <= index < categories(kind).len() {
        categories(kind)[index]
    } else {
        Category::Unknown
    }
}

/// The title over the settings of a category.
pub open spec fn panel_title(kind: SettingsTabKind, index: int) -> Seq<char> {
    match kind {
        SettingsTabKind::Preferences => category_name(chosen(kind, index)) + " Settings"@,
        SettingsTabKind::Theme => "Theme Settings"@,
    }
}

/// What a row lets the user do.
#[derive(Debug)]
pub enum SettingControl {
    /// Write a text.
    Text { key: SettingsTextKey, value: String },
    /// Switch on or off.
    Toggle { key: SettingsToggleKey, on: bool },
    /// Read a text.
    Fixed(&'static str),
}

/// What a row lets the user do, as a mathematical value.
#[verifier::ext_equal]
pub enum Control {
    Text { key: SettingsTextKey, value: Seq<char> },
    Toggle { key: SettingsToggleKey, on: bool },
    Fixed(Seq<char>),
}

/// A row of settings.
#[derive(Debug)]
pub struct SettingRow {
    pub label: &'static str,
    pub description: &'static str,
    pub control: SettingControl,
}

/// A row of settings as a mathematical value.
#[verifier::ext_equal]
pub struct Line {
    pub label: Seq<char>,
    pub description: Seq<char>,
    pub control: Control,
}

impl View for SettingRow {
    type V = Line;

    open spec fn view(&self) -> Line {
        Line {
            label: self.label@,
            description: self.description@,
            control: match self.control {
                SettingControl::Text { key, value } => Control::Text { key, value: value@ },
                SettingControl::Toggle { key, on } => Control::Toggle { key, on },
                SettingControl::Fixed(text) => Control::Fixed(text@),
            },
        }
    }
}

/// Rows as mathematical values.
pub open spec fn lines(rows: Seq<SettingRow>) -> Seq<Line> {
    Seq::new(rows.len(), |i: int| rows[i]@)
}

/// A row with a text.
pub open spec fn text_line(
    s: Settings,
    label: Seq<char>,
    description: Seq<char>,
    key: SettingsTextKey,
) -> Line {
    Line { label, description, control: Control::Text { key, value: s.text(key) } }
}

/// A row with a switch.
pub open spec fn toggle_line(
    s: Settings,
    label: Seq<char>,
    description: Seq<char>,
    key: SettingsToggleKey,
) -> Line {
    Line { label, description, control: Control::Toggle { key, on: s.flag(key) } }
}

/// A row that cannot be changed.
pub open spec fn fixed_line(label: Seq<char>, text: Seq<char>) -> Line {
    Line { label, description: "Not yet configurable"@, control: Control::Fixed(text) }
}

/// The rows of a category.
pub open spec fn category_lines(s: Settings, category: Category) -> Seq<Line> {
    match category {
        Category::Common => seq![
            text_line(
                s,
                "Connection Timeout (sec)"@,
                "TCP connect timeout in seconds"@,
                SettingsTextKey::CommonTimeout,
            ),
            toggle_line(
                s,
                "Auto-reconnect"@,
                "Reconnect automatically when the session disconnects"@,
                SettingsToggleKey::AutoReconnect,
            ),
        ],
        Category::Ssh => seq![
            text_line(
                s,
                "Keep Alive Interval (sec)"@,
                "Seconds between keepalive packets (0 = disabled)"@,
                SettingsTextKey::SshKeepAliveInterval,
            ),
            text_line(
                s,
                "Terminal Type"@,
                "PTY terminal type string for remote shell"@,
                SettingsTextKey::SshTerminalType,
            ),
            toggle_line(
                s,
                "Use Agent Forwarding"@,
                "Forward your local SSH agent to the remote host"@,
                SettingsToggleKey::UseAgentForwarding,
            ),
        ],
        Category::Telnet => seq![
            text_line(
                s,
                "Line Ending"@,
                "Outgoing line ending: CRLF, CR, or LF"@,
                SettingsTextKey::TelnetLineEnding,
            ),
            toggle_line(
                s,
                "Echo Locally"@,
                "Show typed characters locally before server echo"@,
                SettingsToggleKey::EchoLocally,
            ),
        ],
        Category::Serial => seq![
            text_line(
                s,
                "Data Bits"@,
                "Number of data bits: 5, 6, 7, 8"@,
                SettingsTextKey::SerialDataBits,
            ),
            text_line(
                s,
                "Stop Bits"@,
                "Number of stop bits: 1, 2"@,
                SettingsTextKey::SerialStopBits,
            ),
            text_line(
                s,
                "Parity"@,
                "Parity check: None, Odd, Even"@,
                SettingsTextKey::SerialParity,
            ),
            toggle_line(
                s,
                "Hardware Flow Control"@,
                "Use RTS/CTS hardware flow control"@,
                SettingsToggleKey::HardwareFlowControl,
            ),
        ],
        Category::LocalShell => seq![
            text_line(
                s,
                "Default Shell"@,
                "Path to shell executable (empty = auto-detect)"@,
                SettingsTextKey::LocalDefaultShell,
            ),
            text_line(
                s,
                "Startup Arguments"@,
                "Extra arguments passed to shell"@,
                SettingsTextKey::LocalStartupArgs,
            ),
            toggle_line(
                s,
                "Launch In Login Mode"@,
                "Start the shell as a login shell when supported"@,
                SettingsToggleKey::LaunchInLoginMode,
            ),
        ],
        Category::Rdp => seq![
            text_line(
                s,
                "Color Depth (bpp)"@,
                "Bits per pixel: 16, 24, 32"@,
                SettingsTextKey::RdpColorDepth,
            ),
            toggle_line(
                s,
                "NLA (Network Level Auth)"@,
                "Use CredSSP / NLA during authentication"@,
                SettingsToggleKey::RdpNla,
            ),
            toggle_line(
                s,
                "Enable Audio Playback"@,
                "Play remote session audio on this machine"@,
                SettingsToggleKey::RdpEnableAudio,
            ),
            toggle_line(
                s,
                "Font Smoothing"@,
                "Request ClearType/font smoothing in the remote session"@,
                SettingsToggleKey::RdpFontSmoothing,
            ),
            toggle_line(
                s,
                "Desktop Composition"@,
                "Enable desktop composition effects when available"@,
                SettingsToggleKey::RdpDesktopComposition,
            ),
        ],
        Category::Vnc => seq![
            text_line(
                s,
                "Connection Timeout (sec)"@,
                "TCP connect timeout in seconds"@,
                SettingsTextKey::VncTimeout,
            ),
            toggle_line(
                s,
                "Remote Cursor"@,
                "Use server-provided cursor shape updates"@,
                SettingsToggleKey::VncRemoteCursor,
            ),
            toggle_line(
                s,
                "Shared Session"@,
                "Allow sharing the same VNC desktop with other clients"@,
                SettingsToggleKey::VncSharedSession,
            ),
            toggle_line(
                s,
                "View Only"@,
                "Disable keyboard and mouse input to the remote host"@,
                SettingsToggleKey::VncViewOnly,
            ),
        ],
        Category::Theme => seq![
            fixed_line("Color Theme"@, "dark"@),
            fixed_line("Terminal Font Family"@, "D2Coding"@),
            toggle_line(
                s,
                "Use Compact Tab Style"@,
                "Use denser spacing for the tab strip"@,
                SettingsToggleKey::CompactTabStyle,
            ),
        ],
        Category::Unknown => Seq::empty(),
    }
}

/// The categories of a settings page.
pub fn get_settings_categories(tab_kind: SettingsTabKind) -> (list: Vec<Category>)
    ensures
        list@ == categories(tab_kind),
{
    let list: Vec<Category> = match tab_kind {
        SettingsTabKind::Preferences => vec![
            Category::Common,
            Category::Ssh,
            Category::Telnet,
            Category::Serial,
            Category::LocalShell,
            Category::Rdp,
            Category::Vnc,
        ],
        SettingsTabKind::Theme => vec![Category::Theme],
    };
    assert(list@ =~= categories(tab_kind));
    list
}

impl Category {
    /// The name of a category.
    pub fn name(self) -> (name: &'static str)
        ensures
            name@ == category_name(self),
    {
        match self {
            Category::Common => "Common",
            Category::Ssh => "SSH",
            Category::Telnet => "Telnet",
            Category::Serial => "Serial",
            Category::LocalShell => "Local Shell",
            Category::Rdp => "RDP",
            Category::Vnc => "VNC",
            Category::Theme => "Theme",
            Category::Unknown => "Unknown",
        }
    }

    /// What is said under the title of a category.
    pub fn note(self) -> (note: &'static str)
        ensures
            note@ == category_note(self),
    {
        match self {
            Category::Common => "Adjust application-wide behavior.",
            Category::Ssh => "Configure SSH connection options.",
            Category::Telnet => "Configure Telnet connection options.",
            Category::Serial => "Configure serial port parameters.",
            Category::LocalShell => "Configure local shell launch behavior.",
            Category::Rdp => "Configure Remote Desktop Protocol options.",
            Category::Vnc => "Configure VNC connection options.",
            Category::Theme => "Theme options placeholder.",
            Category::Unknown => "No settings available.",
        }
    }
}

/// The heading over the categories.
pub fn settings_header(tab_kind: SettingsTabKind) -> (header: &'static str)
    ensures
        header@ == (match tab_kind {
            SettingsTabKind::Preferences => "Preferences"@,
            SettingsTabKind::Theme => "Theme Settings"@,
        }),
{
    match tab_kind {
        SettingsTabKind::Preferences => "Preferences",
        SettingsTabKind::Theme => "Theme Settings",
    }
}

/// The list of categories, with the one that is chosen.
#[derive(Debug)]
pub struct Sidebar {
    pub header: &'static str,
    pub categories: Vec<Category>,
    /// The place of the chosen category in the list, where it is in the list.
    pub selected: Option<usize>,
}

/// The list of categories, with the one that is chosen.
pub fn render_settings_sidebar(tab_kind: SettingsTabKind, selected_index: usize) -> (sidebar:
    Sidebar)
    ensures
        sidebar.header@ == (match tab_kind {
            SettingsTabKind::Preferences => "Preferences"@,
            SettingsTabKind::Theme => "Theme Settings"@,
        }),
        sidebar.categories@ == categories(tab_kind),
        sidebar.selected == (if selected_index < categories(tab_kind).len() {
            Some(selected_index)
        } else {
            None
        }),
{
    let categories = get_settings_categories(tab_kind);
    let selected = if selected_index < categories.len() {
        Some(selected_index)
    } else {
        None
    };
    Sidebar { header: settings_header(tab_kind), categories, selected }
}

/// A row with a text.
fn text_row(
    settings: &SettingsData,
    label: &'static str,
    description: &'static str,
    key: SettingsTextKey,
) -> (row: SettingRow)
    ensures
        row@ == text_line(settings@, label@, description@, key),
{
    SettingRow {
        label,
        description,
        control: SettingControl::Text { key, value: String::from_str(settings.text(key)) },
    }
}

/// A row with a switch.
fn toggle_row(
    settings: &SettingsData,
    label: &'static str,
    description: &'static str,
    key: SettingsToggleKey,
) -> (row: SettingRow)
    ensures
        row@ == toggle_line(settings@, label@, description@, key),
{
    SettingRow {
        label,
        description,
        control: SettingControl::Toggle { key, on: settings.flag(key) },
    }
}

/// A row that cannot be changed.
fn fixed_row(label: &'static str, text: &'static str) -> (row: SettingRow)
    ensures
        row@ == fixed_line(label@, text@),
{
    SettingRow {
        label,
        description: "Not yet configurable",
        control: SettingControl::Fixed(text),
    }
}

/// The rows of a category.
pub fn category_rows(settings: &SettingsData, category: Category) -> (rows: Vec<SettingRow>)
    ensures
        lines(rows@) == category_lines(settings@, category),
{
    let mut rows: Vec<SettingRow> = Vec::new();
    match category {
        Category::Common => {
            rows.push(
                text_row(
                    settings,
                    "Connection Timeout (sec)",
                    "TCP connect timeout in seconds",
                    SettingsTextKey::CommonTimeout,
                ),
            );
            rows.push(
                toggle_row(
                    settings,
                    "Auto-reconnect",
                    "Reconnect automatically when the session disconnects",
                    SettingsToggleKey::AutoReconnect,
                ),
            );
        },
        Category::Ssh => {
            rows.push(
                text_row(
                    settings,
                    "Keep Alive Interval (sec)",
                    "Seconds between keepalive packets (0 = disabled)",
                    SettingsTextKey::SshKeepAliveInterval,
                ),
            );
            rows.push(
                text_row(
                    settings,
                    "Terminal Type",
                    "PTY terminal type string for remote shell",
                    SettingsTextKey::SshTerminalType,
                ),
            );
            rows.push(
                toggle_row(
                    settings,
                    "Use Agent Forwarding",
                    "Forward your local SSH agent to the remote host",
                    SettingsToggleKey::UseAgentForwarding,
                ),
            );
        },
        Category::Telnet => {
            rows.push(
                text_row(
                    settings,
                    "Line Ending",
                    "Outgoing line ending: CRLF, CR, or LF",
                    SettingsTextKey::TelnetLineEnding,
                ),
            );
            rows.push(
                toggle_row(
                    settings,
                    "Echo Locally",
                    "Show typed characters locally before server echo",
                    SettingsToggleKey::EchoLocally,
                ),
            );
        },
        Category::Serial => {
            rows.push(
                text_row(
                    settings,
                    "Data Bits",
                    "Number of data bits: 5, 6, 7, 8",
                    SettingsTextKey::SerialDataBits,
                ),
            );
            rows.push(
                text_row(
                    settings,
                    "Stop Bits",
                    "Number of stop bits: 1, 2",
                    SettingsTextKey::SerialStopBits,
                ),
            );
            rows.push(
                text_row(
                    settings,
                    "Parity",
                    "Parity check: None, Odd, Even",
                    SettingsTextKey::SerialParity,
                ),
            );
            rows.push(
                toggle_row(
                    settings,
                    "Hardware Flow Control",
                    "Use RTS/CTS hardware flow control",
                    SettingsToggleKey::HardwareFlowControl,
                ),
            );
        },
        Category::LocalShell => {
            rows.push(
                text_row(
                    settings,
                    "Default Shell",
                    "Path to shell executable (empty = auto-detect)",
                    SettingsTextKey::LocalDefaultShell,
                ),
            );
            rows.push(
                text_row(
                    settings,
                    "Startup Arguments",
                    "Extra arguments passed to shell",
                    SettingsTextKey::LocalStartupArgs,
                ),
            );
            rows.push(
                toggle_row(
                    settings,
                    "Launch In Login Mode",
                    "Start the shell as a login shell when supported",
                    SettingsToggleKey::LaunchInLoginMode,
                ),
            );
        },
        Category::Rdp => {
            rows.push(
                text_row(
                    settings,
                    "Color Depth (bpp)",
                    "Bits per pixel: 16, 24, 32",
                    SettingsTextKey::RdpColorDepth,
                ),
            );
            rows.push(
                toggle_row(
                    settings,
                    "NLA (Network Level Auth)",
                    "Use CredSSP / NLA during authentication",
                    SettingsToggleKey::RdpNla,
                ),
            );
            rows.push(
                toggle_row(
                    settings,
                    "Enable Audio Playback",
                    "Play remote session audio on this machine",
                    SettingsToggleKey::RdpEnableAudio,
                ),
            );
            rows.push(
                toggle_row(
                    settings,
                    "Font Smoothing",
                    "Request ClearType/font smoothing in the remote session",
                    SettingsToggleKey::RdpFontSmoothing,
                ),
            );
            rows.push(
                toggle_row(
                    settings,
                    "Desktop Composition",
                    "Enable desktop composition effects when available",
                    SettingsToggleKey::RdpDesktopComposition,
                ),
            );
        },
        Category::Vnc => {
            rows.push(
                text_row(
                    settings,
                    "Connection Timeout (sec)",
                    "TCP connect timeout in seconds",
                    SettingsTextKey::VncTimeout,
                ),
            );
            rows.push(
                toggle_row(
                    settings,
                    "Remote Cursor",
                    "Use server-provided cursor shape updates",
                    SettingsToggleKey::VncRemoteCursor,
                ),
            );
            rows.push(
                toggle_row(
                    settings,
                    "Shared Session",
                    "Allow sharing the same VNC desktop with other clients",
                    SettingsToggleKey::VncSharedSession,
                ),
            );
            rows.push(
                toggle_row(
                    settings,
                    "View Only",
                    "Disable keyboard and mouse input to the remote host",
                    SettingsToggleKey::VncViewOnly,
                ),
            );
        },
        Category::Theme => {
            rows.push(fixed_row("Color Theme", "dark"));
            rows.push(fixed_row("Terminal Font Family", "D2Coding"));
            rows.push(
                toggle_row(
                    settings,
                    "Use Compact Tab Style",
                    "Use denser spacing for the tab strip",
                    SettingsToggleKey::CompactTabStyle,
                ),
            );
        },
        Category::Unknown => {},
    }
    assert(lines(rows@) =~= category_lines(settings@, category));
    rows
}

/// The settings of the chosen category.
#[derive(Debug)]
pub struct Panel {
    pub title: String,
    pub note: &'static str,
    pub rows: Vec<SettingRow>,
}

/// The settings of the chosen category.
pub fn render_settings_panel(
    state: &State,
    tab_kind: SettingsTabKind,
    selected_index: usize,
) -> (panel: Panel)
    ensures
        panel.title@ == panel_title(tab_kind, selected_index as int),
        panel.note@ == category_note(chosen(tab_kind, selected_index as int)),
        lines(panel.rows@) == category_lines(
            state@.settings,
            chosen(tab_kind, selected_index as int),
        ),
{
    let categories = get_settings_categories(tab_kind);
    let category = if selected_index < categories.len() {
        categories[selected_index]
    } else {
        Category::Unknown
    };
    let title = match tab_kind {
        SettingsTabKind::Preferences => String::from_str(category.name()).concat(" Settings"),
        SettingsTabKind::Theme => String::from_str("Theme Settings"),
    };
    Panel { title, note: category.note(), rows: category_rows(&state.settings, category) }
}

/// The label of a switch.
pub fn toggle_label(on: bool) -> (label: &'static str)
    ensures
        label@ == (if on {
            "ON"@
        } else {
            "OFF"@
        }),
{
    if on {
        "ON"
    } else {
        "OFF"
    }
}

/// What a page shows of a switch is its setting.
pub proof fn rows_show_the_settings(s: Settings, category: Category, i: int)
    requires
        0 <= i < category_lines(s, category).len(),
    ensures
        category_lines(s, category)[i].control matches Control::Toggle { key, on } ==> on == s.flag(
            key,
        ),
        category_lines(s, category)[i].control matches Control::Text { key, value } ==> value
            == s.text(key),
{
}

} // verus!
