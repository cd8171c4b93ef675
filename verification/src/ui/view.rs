//! The main window: its tabs, its content and its menus.
use crate::app::connect::{rdp_resolution_presets, resolution_presets};
use crate::app::message::Message;
use crate::app::model::{
    shells_view, FieldId, LocalShellOption, ProtocolMode, Session, SessionKind, SettingsTabKind,
    Shell, Tab, WindowDirection,
};
use crate::app::state::{Model, State};
use crate::text::{decimal, push_decimal, same_text};
use vstd::prelude::*;

verus! {

/// The label of a tab.
#[derive(Debug)]
pub struct TabLabel {
    pub name: String,
    pub is_active: bool,
    /// Whether the tab can be closed.
    pub is_closable: bool,
}

/// The label of a tab as a mathematical value.
#[verifier::ext_equal]
pub struct Label {
    pub name: Seq<char>,
    pub is_active: bool,
    pub is_closable: bool,
}

impl View for TabLabel {
    type V = Label;

    open spec fn view(&self) -> Label {
        Label { name: self.name@, is_active: self.is_active, is_closable: self.is_closable }
    }
}

/// What the tab that is shown holds.
#[derive(Debug)]
pub enum TabContent {
    /// The forms for a new session.
    Welcome,
    /// The terminal, with what its scroll bar shows.
    Terminal { history_len: usize, offset: usize },
    /// What there is to say about a remote picture.
    Status(String),
    /// The remote picture.
    Picture,
    /// A remote picture of which nothing has come.
    Waiting,
    /// No remote picture.
    Uninitialized,
    Settings(SettingsTabKind),
    /// A settings page without a subject.
    NoSettings,
    /// No tab is shown.
    NoTab,
}

/// What the tab that is shown holds, as a mathematical value.
#[verifier::ext_equal]
pub enum Content {
    Welcome,
    Terminal { history_len: int, offset: int },
    Status(Seq<char>),
    Picture,
    Waiting,
    Uninitialized,
    Settings(SettingsTabKind),
    NoSettings,
    NoTab,
}

/// What a tab holds.
pub open spec fn content_of(tab: Tab) -> Content {
    match tab.kind {
        SessionKind::Welcome => Content::Welcome,
        SessionKind::Terminal => Content::Terminal {
            history_len: tab.screen.history.len() as int,
            offset: tab.screen.offset,
        },
        SessionKind::RemoteDisplay => match tab.display {
            Some(display) => match display.status {
                Some(text) => Content::Status(text),
                None => if display.width > 0 {
                    Content::Picture
                } else {
                    Content::Waiting
                },
            },
            None => Content::Uninitialized,
        },
        SessionKind::Settings => match tab.settings_kind {
            Some(kind) => Content::Settings(kind),
            None => Content::NoSettings,
        },
    }
}

impl View for TabContent {
    type V = Content;

    open spec fn view(&self) -> Content {
        match *self {
            TabContent::Welcome => Content::Welcome,
            TabContent::Terminal { history_len, offset } => Content::Terminal {
                history_len: history_len as int,
                offset: offset as int,
            },
            TabContent::Status(text) => Content::Status(text@),
            TabContent::Picture => Content::Picture,
            TabContent::Waiting => Content::Waiting,
            TabContent::Uninitialized => Content::Uninitialized,
            TabContent::Settings(kind) => Content::Settings(kind),
            TabContent::NoSettings => Content::NoSettings,
            TabContent::NoTab => Content::NoTab,
        }
    }
}

/// A row of a form: a label and a field.
#[derive(Debug)]
pub struct FormRow {
    pub label: &'static str,
    pub placeholder: &'static str,
    pub field: FieldId,
    pub value: String,
    /// Whether the value is hidden.
    pub secure: bool,
    /// Whether the enter key in this field opens the connection.
    pub submits: bool,
}

/// A row of a form as a mathematical value.
#[verifier::ext_equal]
pub struct Row {
    pub label: Seq<char>,
    pub placeholder: Seq<char>,
    pub field: FieldId,
    pub value: Seq<char>,
    pub secure: bool,
    pub submits: bool,
}

impl View for FormRow {
    type V = Row;

    open spec fn view(&self) -> Row {
        Row {
            label: self.label@,
            placeholder: self.placeholder@,
            field: self.field,
            value: self.value@,
            secure: self.secure,
            submits: self.submits,
        }
    }
}

/// Rows as mathematical values.
pub open spec fn rows_view(rows: Seq<FormRow>) -> Seq<Row> {
    Seq::new(rows.len(), |i: int| rows[i]@)
}

/// A row with the given parts.
pub open spec fn row(
    label: Seq<char>,
    placeholder: Seq<char>,
    field: FieldId,
    value: Seq<char>,
    secure: bool,
    submits: bool,
) -> Row {
    Row { label, placeholder, field, value, secure, submits }
}

/// An entry of a menu.
#[derive(Debug)]
pub enum MenuEntry {
    OpenProtocol(&'static str, ProtocolMode),
    OpenSettings(&'static str, SettingsTabKind),
    CloseTab(&'static str, usize),
    Separator,
    /// An entry that does nothing.
    Idle(String),
}

/// An entry of a menu as a mathematical value.
#[verifier::ext_equal]
pub enum Choice {
    OpenProtocol(Seq<char>, ProtocolMode),
    OpenSettings(Seq<char>, SettingsTabKind),
    CloseTab(Seq<char>, int),
    Separator,
    Idle(Seq<char>),
}

impl View for MenuEntry {
    type V = Choice;

    open spec fn view(&self) -> Choice {
        match *self {
            MenuEntry::OpenProtocol(label, mode) => Choice::OpenProtocol(label@, mode),
            MenuEntry::OpenSettings(label, kind) => Choice::OpenSettings(label@, kind),
            MenuEntry::CloseTab(label, index) => Choice::CloseTab(label@, index as int),
            MenuEntry::Separator => Choice::Separator,
            MenuEntry::Idle(label) => Choice::Idle(label@),
        }
    }
}

/// Entries as mathematical values.
pub open spec fn choices(entries: Seq<MenuEntry>) -> Seq<Choice> {
    Seq::new(entries.len(), |i: int| entries[i]@)
}

/// The entries of a menu.
pub open spec fn menu_choices(menu: Seq<char>, active: int) -> Seq<Choice> {
    if menu == "Session"@ {
        seq![
            Choice::OpenProtocol("New SSH Session"@, ProtocolMode::Ssh),
            Choice::OpenProtocol("New Telnet Session"@, ProtocolMode::Telnet),
            Choice::OpenProtocol("New Serial Session"@, ProtocolMode::Serial),
            Choice::OpenProtocol("New Local Session"@, ProtocolMode::Local),
            Choice::OpenProtocol("New RDP Session"@, ProtocolMode::Rdp),
            Choice::OpenProtocol("New VNC Session"@, ProtocolMode::Vnc),
            Choice::Separator,
            Choice::CloseTab("Close Current Tab"@, active),
        ]
    } else if menu == "Settings"@ {
        seq![
            Choice::OpenSettings("Preferences"@, SettingsTabKind::Preferences),
            Choice::Separator,
            Choice::OpenSettings("Theme"@, SettingsTabKind::Theme),
        ]
    } else {
        seq![Choice::Idle(menu + " Option 1"@), Choice::Idle(menu + " Option 2"@)]
    }
}

/// How far from the left edge a menu opens, in pixels.
pub open spec fn menu_place(menu: Seq<char>) -> int {
    if menu == "Settings"@ {
        167
    } else if menu == "View"@ {
        239
    } else if menu == "Help"@ {
        311
    } else {
        95
    }
}

/// How the pointer looks at an edge of the window.
#[derive(Debug, Clone, Copy, PartialEq, Eq, Structural)]
pub enum ResizePointer {
    Vertical,
    Horizontal,
    DiagonalDown,
    DiagonalUp,
}

/// How the pointer looks at an edge of the window.
pub open spec fn pointer_at(direction: WindowDirection) -> ResizePointer {
    match direction {
        WindowDirection::North => ResizePointer::Vertical,
        WindowDirection::South => ResizePointer::Vertical,
        WindowDirection::West => ResizePointer::Horizontal,
        WindowDirection::East => ResizePointer::Horizontal,
        WindowDirection::NorthWest => ResizePointer::DiagonalDown,
        WindowDirection::SouthEast => ResizePointer::DiagonalDown,
        WindowDirection::NorthEast => ResizePointer::DiagonalUp,
        WindowDirection::SouthWest => ResizePointer::DiagonalUp,
    }
}

/// The title of a form.
pub open spec fn form_title_of(mode: ProtocolMode) -> Seq<char> {
    match mode {
        ProtocolMode::Ssh => "SSH Connection"@,
        ProtocolMode::Telnet => "Telnet Connection"@,
        ProtocolMode::Serial => "Serial Connection"@,
        ProtocolMode::Local => "Local System"@,
        ProtocolMode::Rdp => "RDP Connection"@,
        ProtocolMode::Vnc => "VNC Connection"@,
    }
}

/// What the button of a form says.
pub open spec fn form_button_of(mode: ProtocolMode) -> Seq<char> {
    match mode {
        ProtocolMode::Ssh => "Connect"@,
        ProtocolMode::Telnet => "Connect"@,
        ProtocolMode::Serial => "Connect"@,
        ProtocolMode::Local => "Launch Selected Shell"@,
        ProtocolMode::Rdp => "Connect"@,
        ProtocolMode::Vnc => "Connect"@,
    }
}

impl Model {
    /// The labels of the tabs.
    pub open spec fn labels(self) -> Seq<Label> {
        Seq::new(
            self.tabs.len(),
            |i: int|
                Label {
                    name: self.tabs[i].name,
                    is_active: i == self.active,
                    is_closable: self.tabs.len() > 1,
                },
        )
    }

    /// Whether one of the tabs is shown.
    pub open spec fn shows_tab(self) -> bool {
        0 <= self.active < self.tabs.len()
    }

    /// The title of the window: the name of the tab that is shown, or that of the program.
    pub open spec fn title(self) -> Seq<char> {
        if self.shows_tab() {
            self.current().name
        } else {
            "kterm"@
        }
    }

    /// What the tab that is shown holds.
    pub open spec fn content(self) -> Content {
        if self.shows_tab() {
            content_of(self.current())
        } else {
            Content::NoTab
        }
    }

    /// The rows of the form that is shown. The list of sizes of a remote desktop is no row.
    pub open spec fn form_rows(self) -> Seq<Row> {
        match self.welcome {
            ProtocolMode::Ssh => seq![
                row("Host: "@, "IP Address"@, FieldId::SshHost, self.form.ssh_host, false, false),
                row("Port: "@, "22"@, FieldId::SshPort, self.form.ssh_port, false, false),
                row("Username: "@, "user"@, FieldId::SshUser, self.form.ssh_user, false, false),
                row("Password: "@, "pass"@, FieldId::SshPass, self.form.ssh_pass, true, true),
            ],
            ProtocolMode::Telnet => seq![
                row(
                    "Host: "@,
                    "IP Address"@,
                    FieldId::TelnetHost,
                    self.form.ssh_host,
                    false,
                    false,
                ),
                row("Port: "@, "23"@, FieldId::TelnetPort, self.form.ssh_port, false, true),
            ],
            ProtocolMode::Serial => seq![
                row(
                    "COM Port: "@,
                    "COM1"@,
                    FieldId::SerialPort,
                    self.form.serial_port,
                    false,
                    false,
                ),
                row(
                    "Baud Rate: "@,
                    "115200"@,
                    FieldId::SerialBaud,
                    self.form.serial_baud,
                    false,
                    true,
                ),
            ],
            ProtocolMode::Local => Seq::empty(),
            ProtocolMode::Rdp => seq![
                row("Host: "@, "IP Address"@, FieldId::RdpHost, self.form.rdp_host, false, false),
                row("Port: "@, "3389"@, FieldId::RdpPort, self.form.rdp_port, false, false),
                row("Username: "@, "user"@, FieldId::RdpUser, self.form.rdp_user, false, false),
                row("Password: "@, "pass"@, FieldId::RdpPass, self.form.rdp_pass, true, true),
            ],
            ProtocolMode::Vnc => seq![
                row("Host: "@, "IP Address"@, FieldId::VncHost, self.form.vnc_host, false, false),
                row("Port: "@, "5900"@, FieldId::VncPort, self.form.vnc_port, false, false),
                row("Password: "@, "optional"@, FieldId::VncPass, self.form.vnc_pass, true, true),
            ],
        }
    }
}

/// The label of a size of a remote desktop.
pub open spec fn size_label(size: (u16, u16)) -> Seq<char> {
    decimal(size.0 as nat) + "x"@ + decimal(size.1 as nat)
}

/// Whether place `i` is the first of the sizes with the given label.
pub open spec fn is_first_label(label: Seq<char>, i: int) -> bool {
    &&& 0 <= i < resolution_presets().len()
    &&& size_label(resolution_presets()[i]) == label
    &&& forall|k: int| 0 <= k < i ==> size_label(#[trigger] resolution_presets()[k]) != label
}

/// Whether place `i` is the first of the shells with the given name.
pub open spec fn is_first_shell(shells: Seq<Shell>, name: Seq<char>, i: int) -> bool {
    &&& 0 <= i < shells.len()
    &&& shells[i].name == name
    &&& forall|k: int| 0 <= k < i ==> (#[trigger] shells[k]).name != name
}

/// What the main window shows.
#[derive(Debug)]
pub struct MainView {
    /// The name in the middle of the title bar.
    pub title: String,
    pub tabs: Vec<TabLabel>,
    pub content: TabContent,
    /// The name of the menu that is open.
    pub menu: Option<&'static str>,
    /// How the pointer looks while the window is resized.
    pub pointer: Option<ResizePointer>,
}

/// Labels as mathematical values.
pub open spec fn labels_view(tabs: Seq<TabLabel>) -> Seq<Label> {
    Seq::new(tabs.len(), |i: int| tabs[i]@)
}

/// How the pointer looks at an edge of the window.
pub fn resize_pointer(direction: WindowDirection) -> (pointer: ResizePointer)
    ensures
        pointer == pointer_at(direction),
{
    match direction {
        WindowDirection::North => ResizePointer::Vertical,
        WindowDirection::South => ResizePointer::Vertical,
        WindowDirection::West => ResizePointer::Horizontal,
        WindowDirection::East => ResizePointer::Horizontal,
        WindowDirection::NorthWest => ResizePointer::DiagonalDown,
        WindowDirection::SouthEast => ResizePointer::DiagonalDown,
        WindowDirection::NorthEast => ResizePointer::DiagonalUp,
        WindowDirection::SouthWest => ResizePointer::DiagonalUp,
    }
}

/// The labels of the tabs.
fn tab_labels(state: &State) -> (tabs: Vec<TabLabel>)
    ensures
        labels_view(tabs@) == state@.labels(),
{
    let many: bool = state.sessions.len() > 1;
    let mut tabs: Vec<TabLabel> = Vec::new();
    let mut i: usize = 0;
    while i < state.sessions.len()
        invariant
            i <= state.sessions.len(),
            many == (state.sessions@.len() > 1),
            tabs@.len() == i,
            forall|k: int| 0 <= k < i ==> (#[trigger] tabs@[k])@ == state@.labels()[k],
        decreases state.sessions.len() - i,
    {
        tabs.push(
            TabLabel {
                name: state.sessions[i].name.clone(),
                is_active: i == state.active_index,
                is_closable: many,
            },
        );
        i = i + 1;
    }
    assert(labels_view(tabs@) =~= state@.labels());
    tabs
}

/// What a tab holds.
fn tab_content(session: &Session) -> (content: TabContent)
    ensures
        content@ == content_of(session@),
{
    match session.kind {
        SessionKind::Welcome => TabContent::Welcome,
        SessionKind::Terminal => TabContent::Terminal {
            history_len: session.terminal.history.len(),
            offset: session.terminal.display_offset,
        },
        SessionKind::RemoteDisplay => match &session.remote_display {
            Some(display) => match &display.status_message {
                Some(text) => TabContent::Status(text.clone()),
                None => if display.width > 0 {
                    TabContent::Picture
                } else {
                    TabContent::Waiting
                },
            },
            None => TabContent::Uninitialized,
        },
        SessionKind::Settings => match session.settings_tab_kind {
            Some(kind) => TabContent::Settings(kind),
            None => TabContent::NoSettings,
        },
    }
}

/// What the main window shows.
pub fn view(state: &State) -> (shown: MainView)
    ensures
        shown.title@ == state@.title(),
        labels_view(shown.tabs@) == state@.labels(),
        shown.content@ == state@.content(),
        crate::app::state::menu_view(shown.menu) == (match state@.menu {
            Some(menu) => if menu.len() > 0 {
                Some(menu)
            } else {
                None
            },
            None => None,
        }),
        shown.pointer == (match state@.resizing {
            Some(direction) => Some(pointer_at(direction)),
            None => None,
        }),
{
    let (title, content) = if state.active_index < state.sessions.len() {
        let session = &state.sessions[state.active_index];
        (session.name.clone(), tab_content(session))
    } else {
        (String::from_str("kterm"), TabContent::NoTab)
    };
    MainView {
        title,
        tabs: tab_labels(state),
        content,
        menu: match state.dummy_menu_open {
            Some(menu) => if menu.unicode_len() > 0 {
                Some(menu)
            } else {
                None
            },
            None => None,
        },
        pointer: match state.resizing_direction {
            Some(direction) => Some(resize_pointer(direction)),
            None => None,
        },
    }
}

/// The title of a form.
pub fn form_title(mode: ProtocolMode) -> (title: &'static str)
    ensures
        title@ == form_title_of(mode),
{
    match mode {
        ProtocolMode::Ssh => "SSH Connection",
        ProtocolMode::Telnet => "Telnet Connection",
        ProtocolMode::Serial => "Serial Connection",
        ProtocolMode::Local => "Local System",
        ProtocolMode::Rdp => "RDP Connection",
        ProtocolMode::Vnc => "VNC Connection",
    }
}

/// What the button of a form says.
pub fn form_button(mode: ProtocolMode) -> (label: &'static str)
    ensures
        label@ == form_button_of(mode),
{
    match mode {
        ProtocolMode::Ssh => "Connect",
        ProtocolMode::Telnet => "Connect",
        ProtocolMode::Serial => "Connect",
        ProtocolMode::Local => "Launch Selected Shell",
        ProtocolMode::Rdp => "Connect",
        ProtocolMode::Vnc => "Connect",
    }
}

/// A row with the given parts.
fn form_row(
    label: &'static str,
    placeholder: &'static str,
    field: FieldId,
    value: &String,
    secure: bool,
    submits: bool,
) -> (r: FormRow)
    ensures
        r@ == row(label@, placeholder@, field, value@, secure, submits),
{
    FormRow { label, placeholder, field, value: value.clone(), secure, submits }
}

impl State {
    /// The rows of the form that is shown.
    pub fn form_rows(&self) -> (rows: Vec<FormRow>)
        ensures
            rows_view(rows@) == self@.form_rows(),
    {
        let mut rows: Vec<FormRow> = Vec::new();
        match self.welcome_protocol {
            ProtocolMode::Ssh => {
                rows.push(
                    form_row(
                        "Host: ",
                        "IP Address",
                        FieldId::SshHost,
                        &self.ssh_host,
                        false,
                        false,
                    ),
                );
                rows.push(form_row("Port: ", "22", FieldId::SshPort, &self.ssh_port, false, false));
                rows.push(
                    form_row("Username: ", "user", FieldId::SshUser, &self.ssh_user, false, false),
                );
                rows.push(
                    form_row("Password: ", "pass", FieldId::SshPass, &self.ssh_pass, true, true),
                );
            },
            ProtocolMode::Telnet => {
                rows.push(
                    form_row(
                        "Host: ",
                        "IP Address",
                        FieldId::TelnetHost,
                        &self.ssh_host,
                        false,
                        false,
                    ),
                );
                rows.push(
                    form_row("Port: ", "23", FieldId::TelnetPort, &self.ssh_port, false, true),
                );
            },
            ProtocolMode::Serial => {
                rows.push(
                    form_row(
                        "COM Port: ",
                        "COM1",
                        FieldId::SerialPort,
                        &self.serial_port,
                        false,
                        false,
                    ),
                );
                rows.push(
                    form_row(
                        "Baud Rate: ",
                        "115200",
                        FieldId::SerialBaud,
                        &self.serial_baud,
                        false,
                        true,
                    ),
                );
            },
            ProtocolMode::Local => {
            },
            ProtocolMode::Rdp => {
                rows.push(
                    form_row(
                        "Host: ",
                        "IP Address",
                        FieldId::RdpHost,
                        &self.rdp_host,
                        false,
                        false,
                    ),
                );
                rows.push(
                    form_row("Port: ", "3389", FieldId::RdpPort, &self.rdp_port, false, false),
                );
                rows.push(
                    form_row("Username: ", "user", FieldId::RdpUser, &self.rdp_user, false, false),
                );
                rows.push(
                    form_row("Password: ", "pass", FieldId::RdpPass, &self.rdp_pass, true, true),
                );
            },
            ProtocolMode::Vnc => {
                rows.push(
                    form_row(
                        "Host: ",
                        "IP Address",
                        FieldId::VncHost,
                        &self.vnc_host,
                        false,
                        false,
                    ),
                );
                rows.push(
                    form_row("Port: ", "5900", FieldId::VncPort, &self.vnc_port, false, false),
                );
                rows.push(
                    form_row(
                        "Password: ",
                        "optional",
                        FieldId::VncPass,
                        &self.vnc_pass,
                        true,
                        true,
                    ),
                );
            },
        }
        assert(rows_view(rows@) =~= self@.form_rows());
        rows
    }
}

/// The message that a field has another value.
pub fn field_changed(field: FieldId, value: String) -> (message: Option<Message>)
    ensures
        message == (match field {
            FieldId::SshHost => Some(Message::HostChanged(value)),
            FieldId::SshPort => Some(Message::PortChanged(value)),
            FieldId::SshUser => Some(Message::UserChanged(value)),
            FieldId::SshPass => Some(Message::PassChanged(value)),
            FieldId::TelnetHost => Some(Message::HostChanged(value)),
            FieldId::TelnetPort => Some(Message::PortChanged(value)),
            FieldId::SerialPort => Some(Message::SerialPortChanged(value)),
            FieldId::SerialBaud => Some(Message::SerialBaudChanged(value)),
            FieldId::RdpHost => Some(Message::RdpHostChanged(value)),
            FieldId::RdpPort => Some(Message::RdpPortChanged(value)),
            FieldId::RdpUser => Some(Message::RdpUserChanged(value)),
            FieldId::RdpPass => Some(Message::RdpPassChanged(value)),
            FieldId::RdpResolution => None,
            FieldId::VncHost => Some(Message::VncHostChanged(value)),
            FieldId::VncPort => Some(Message::VncPortChanged(value)),
            FieldId::VncPass => Some(Message::VncPassChanged(value)),
        }),
{
    match field {
        FieldId::SshHost => Some(Message::HostChanged(value)),
        FieldId::SshPort => Some(Message::PortChanged(value)),
        FieldId::SshUser => Some(Message::UserChanged(value)),
        FieldId::SshPass => Some(Message::PassChanged(value)),
        FieldId::TelnetHost => Some(Message::HostChanged(value)),
        FieldId::TelnetPort => Some(Message::PortChanged(value)),
        FieldId::SerialPort => Some(Message::SerialPortChanged(value)),
        FieldId::SerialBaud => Some(Message::SerialBaudChanged(value)),
        FieldId::RdpHost => Some(Message::RdpHostChanged(value)),
        FieldId::RdpPort => Some(Message::RdpPortChanged(value)),
        FieldId::RdpUser => Some(Message::RdpUserChanged(value)),
        FieldId::RdpPass => Some(Message::RdpPassChanged(value)),
        FieldId::RdpResolution => None,
        FieldId::VncHost => Some(Message::VncHostChanged(value)),
        FieldId::VncPort => Some(Message::VncPortChanged(value)),
        FieldId::VncPass => Some(Message::VncPassChanged(value)),
    }
}

/// The message that opens the connection of a form.
pub fn submit_message(mode: ProtocolMode) -> (message: Message)
    ensures
        message == (match mode {
            ProtocolMode::Ssh => Message::ConnectSsh,
            ProtocolMode::Telnet => Message::ConnectTelnet,
            ProtocolMode::Serial => Message::ConnectSerial,
            ProtocolMode::Local => Message::ConnectLocal,
            ProtocolMode::Rdp => Message::ConnectRdp,
            ProtocolMode::Vnc => Message::ConnectVnc,
        }),
{
    match mode {
        ProtocolMode::Ssh => Message::ConnectSsh,
        ProtocolMode::Telnet => Message::ConnectTelnet,
        ProtocolMode::Serial => Message::ConnectSerial,
        ProtocolMode::Local => Message::ConnectLocal,
        ProtocolMode::Rdp => Message::ConnectRdp,
        ProtocolMode::Vnc => Message::ConnectVnc,
    }
}

/// The entries of a menu.
pub fn menu_entries(menu: &str, active_index: usize) -> (entries: Vec<MenuEntry>)
    ensures
        choices(entries@) == menu_choices(menu@, active_index as int),
{
    let mut entries: Vec<MenuEntry> = Vec::new();
    if same_text(menu, "Session") {
        entries.push(MenuEntry::OpenProtocol("New SSH Session", ProtocolMode::Ssh));
        entries.push(MenuEntry::OpenProtocol("New Telnet Session", ProtocolMode::Telnet));
        entries.push(MenuEntry::OpenProtocol("New Serial Session", ProtocolMode::Serial));
        entries.push(MenuEntry::OpenProtocol("New Local Session", ProtocolMode::Local));
        entries.push(MenuEntry::OpenProtocol("New RDP Session", ProtocolMode::Rdp));
        entries.push(MenuEntry::OpenProtocol("New VNC Session", ProtocolMode::Vnc));
        entries.push(MenuEntry::Separator);
        entries.push(MenuEntry::CloseTab("Close Current Tab", active_index));
    } else if same_text(menu, "Settings") {
        entries.push(MenuEntry::OpenSettings("Preferences", SettingsTabKind::Preferences));
        entries.push(MenuEntry::Separator);
        entries.push(MenuEntry::OpenSettings("Theme", SettingsTabKind::Theme));
    } else {
        entries.push(MenuEntry::Idle(String::from_str(menu).concat(" Option 1")));
        entries.push(MenuEntry::Idle(String::from_str(menu).concat(" Option 2")));
    }
    assert(choices(entries@) =~= menu_choices(menu@, active_index as int));
    entries
}

/// How far from the left edge a menu opens, in pixels.
pub fn menu_offset(menu: &str) -> (pixels: u32)
    ensures
        pixels == menu_place(menu@),
{
    if same_text(menu, "Settings") {
        167
    } else if same_text(menu, "View") {
        239
    } else if same_text(menu, "Help") {
        311
    } else {
        95
    }
}

/// The label of a size of a remote desktop.
pub fn resolution_label(size: (u16, u16)) -> (label: String)
    ensures
        label@ == size_label(size),
{
    let mut label = String::new();
    push_decimal(&mut label, size.0 as u64);
    let mut label = label.concat("x");
    push_decimal(&mut label, size.1 as u64);
    assert(label@ =~= size_label(size));
    label
}

/// The place of the size with the given label, or that of the usual size.
pub fn resolution_index(label: &str) -> (index: usize)
    ensures
        is_first_label(label@, index as int) || index == 1 && forall|i: int|
            !is_first_label(label@, i),
{
    let presets = rdp_resolution_presets();
    let mut i: usize = 0;
    while i < 7
        invariant
            i <= 7,
            presets@ == resolution_presets(),
            presets@.len() == 7,
            forall|k: int|
                0 <= k < i ==> size_label(#[trigger] resolution_presets()[k]) != label@,
        decreases 7 - i,
    {
        let other = resolution_label(presets[i]);
        assert(presets@[i as int] == resolution_presets()[i as int]);
        if same_text(other.as_str(), label) {
            assert(is_first_label(label@, i as int));
            return i;
        }
        i = i + 1;
    }
    1
}

/// The place of the shell with the given name, or the first.
pub fn shell_index(shells: &Vec<LocalShellOption>, name: &str) -> (index: usize)
    ensures
        is_first_shell(shells_view(shells@), name@, index as int) || index == 0 && forall|i: int|
            !is_first_shell(shells_view(shells@), name@, i),
{
    let ghost all = shells_view(shells@);
    let mut i: usize = 0;
    while i < shells.len()
        invariant
            i <= shells.len(),
            all == shells_view(shells@),
            forall|k: int| 0 <= k < i ==> (#[trigger] all[k]).name != name@,
        decreases shells.len() - i,
    {
        assert(all[i as int] == shells@[i as int]@);
        if same_text(shells[i].name.as_str(), name) {
            assert(is_first_shell(all, name@, i as int));
            return i;
        }
        i = i + 1;
    }
    0
}

/// Exactly one tab is marked as the active one, and it is the tab that is shown.
pub proof fn one_tab_is_active(m: Model, i: int)
    requires
        m.wf(),
        0 <= i < m.labels().len(),
    ensures
        m.labels()[i].is_active <==> i == m.active,
        m.labels()[m.active].is_active,
        m.labels()[m.active].name == m.current().name,
{
}

/// The fields of a form are shown in the order in which the tabulator visits them.
pub proof fn forms_show_the_visited_fields(m: Model, i: int)
    requires
        0 <= i < m.form_rows().len(),
    ensures
        m.form_rows().len() <= crate::app::state::fields_of(m.welcome).len(),
        m.form_rows()[i].field == crate::app::state::fields_of(m.welcome)[i],
{
}

/// Choosing the label of a size chooses that size.
pub proof fn labels_tell_sizes_apart(i: int)
    requires
        0 <= i < resolution_presets().len(),
    ensures
        is_first_label(size_label(resolution_presets()[i]), i),
{
    lemma_labels();
    let labels = seq![
        "1024x768"@,
        "1280x720"@,
        "1280x1024"@,
        "1366x768"@,
        "1600x900"@,
        "1920x1080"@,
        "2560x1440"@,
    ];
    reveal_strlit("1024x768");
    reveal_strlit("1280x720");
    reveal_strlit("1280x1024");
    reveal_strlit("1366x768");
    reveal_strlit("1600x900");
    reveal_strlit("1920x1080");
    reveal_strlit("2560x1440");
    assert(labels[0].len() == 8 && labels[0][1] == '0');
    assert(labels[1].len() == 8 && labels[1][1] == '2');
    assert(labels[2].len() == 9 && labels[2][1] == '2');
    assert(labels[3].len() == 8 && labels[3][1] == '3');
    assert(labels[4].len() == 8 && labels[4][1] == '6');
    assert(labels[5].len() == 9 && labels[5][1] == '9');
    assert(labels[6].len() == 9 && labels[6][1] == '5');
    assert forall|k: int| 0 <= k < 7 implies size_label(#[trigger] resolution_presets()[k])
        == labels[k] by {}
    assert forall|k: int| 0 <= k < i implies size_label(#[trigger] resolution_presets()[k])
        != size_label(resolution_presets()[i]) by {
        assert(labels[k].len() != labels[i].len() || labels[k][1] != labels[i][1]);
    }
}

proof fn lemma_labels()
    ensures
        size_label((1024, 768)) == "1024x768"@,
        size_label((1280, 720)) == "1280x720"@,
        size_label((1280, 1024)) == "1280x1024"@,
        size_label((1366, 768)) == "1366x768"@,
        size_label((1600, 900)) == "1600x900"@,
        size_label((1920, 1080)) == "1920x1080"@,
        size_label((2560, 1440)) == "2560x1440"@,
{
    reveal_with_fuel(decimal, 5);
    reveal_strlit("x");
    reveal_strlit("1024x768");
    reveal_strlit("1280x720");
    reveal_strlit("1280x1024");
    reveal_strlit("1366x768");
    reveal_strlit("1600x900");
    reveal_strlit("1920x1080");
    reveal_strlit("2560x1440");
    assert(size_label((1024, 768)) =~= "1024x768"@);
    assert(size_label((1280, 720)) =~= "1280x720"@);
    assert(size_label((1280, 1024)) =~= "1280x1024"@);
    assert(size_label((1366, 768)) =~= "1366x768"@);
    assert(size_label((1600, 900)) =~= "1600x900"@);
    assert(size_label((1920, 1080)) =~= "1920x1080"@);
    assert(size_label((2560, 1440)) =~= "2560x1440"@);
}

} // verus!
