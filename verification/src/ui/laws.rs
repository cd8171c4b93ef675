//! What the window shows of the state.
use crate::app::model::{
    FieldId, ProtocolMode, SessionKind, SettingsTabKind, SettingsTextKey, SettingsToggleKey, Tab,
    WindowDirection,
};
use crate::app::settings_persistence::Settings;
use crate::app::state::{Form, Model};
use crate::ui::settings::{categories, category_lines, chosen, Category, Control};
use crate::ui::view::{
    content_of, menu_choices, menu_place, pointer_at, size_label, Choice, Content, ResizePointer,
};
use vstd::prelude::*;

verus! {

/// What stands in a field of a form. Telnet shares the host and the port of SSH.
pub open spec fn entered(form: Form, field: FieldId) -> Seq<char> {
    match field {
        FieldId::SshHost => form.ssh_host,
        FieldId::SshPort => form.ssh_port,
        FieldId::SshUser => form.ssh_user,
        FieldId::SshPass => form.ssh_pass,
        FieldId::TelnetHost => form.ssh_host,
        FieldId::TelnetPort => form.ssh_port,
        FieldId::SerialPort => form.serial_port,
        FieldId::SerialBaud => form.serial_baud,
        FieldId::RdpHost => form.rdp_host,
        FieldId::RdpPort => form.rdp_port,
        FieldId::RdpUser => form.rdp_user,
        FieldId::RdpPass => form.rdp_pass,
        FieldId::RdpResolution => Seq::empty(),
        FieldId::VncHost => form.vnc_host,
        FieldId::VncPort => form.vnc_port,
        FieldId::VncPass => form.vnc_pass,
    }
}

/// A row of a form shows what was entered in its field. Passwords are not shown, and the last row
/// connects when it is done.
pub proof fn rows_show_what_was_entered(m: Model, i: int)
    requires
        0 <= i < m.form_rows().len(),
    ensures
        ({
            let row = m.form_rows()[i];
            let password = row.field == FieldId::SshPass || row.field == FieldId::RdpPass
                || row.field == FieldId::VncPass;
            &&& row.value == entered(m.form, row.field)
            &&& row.secure == password
            &&& row.submits == (i == m.form_rows().len() - 1)
        }),
{
}

/// A form has a row for each field of its protocol: four for SSH and RDP, three for VNC, two for
/// Telnet and for a serial port, and none for a local shell.
pub proof fn forms_have_their_rows(m: Model)
    ensures
        m.form_rows().len() == (match m.welcome {
            ProtocolMode::Ssh => 4nat,
            ProtocolMode::Rdp => 4,
            ProtocolMode::Vnc => 3,
            ProtocolMode::Telnet => 2,
            ProtocolMode::Serial => 2,
            ProtocolMode::Local => 0,
        }),
{
}

/// A tab shows what it is: its terminal with the place in the history, its picture or what there is to
/// say about it, or its page.
pub proof fn tabs_show_what_they_are(tab: Tab)
    ensures
        ({
            let shown = content_of(tab);
            &&& tab.kind == SessionKind::Welcome ==> shown == Content::Welcome
            &&& tab.kind == SessionKind::Terminal ==> shown == (Content::Terminal {
                history_len: tab.screen.history.len() as int,
                offset: tab.screen.offset,
            })
            &&& tab.kind == SessionKind::RemoteDisplay && tab.display is None ==> shown
                == Content::Uninitialized
            &&& tab.kind == SessionKind::RemoteDisplay && tab.display is Some ==> {
                let d = tab.display->0;
                &&& d.status matches Some(text) ==> shown == Content::Status(text)
                &&& d.status is None && d.width > 0 ==> shown == Content::Picture
                &&& d.status is None && d.width == 0 ==> shown == Content::Waiting
            }
            &&& tab.kind == SessionKind::Settings ==> (tab.settings_kind matches Some(kind) ==> shown
                == Content::Settings(kind))
        }),
{
}

/// The window has the title of the tab that is shown. A tab can be closed unless it is the last one.
pub proof fn titles_and_labels(m: Model, i: int)
    requires
        0 <= m.active < m.tabs.len(),
        0 <= i < m.tabs.len(),
    ensures
        m.title() == m.tabs[m.active].name,
        m.content() == content_of(m.tabs[m.active]),
        m.labels().len() == m.tabs.len(),
        m.labels()[i].name == m.tabs[i].name,
        m.labels()[i].is_active == (i == m.active),
        m.labels()[i].is_closable == (m.tabs.len() > 1),
{
}

/// The pointer at an edge shows the way in which the edge moves: opposite edges alike, and corners by
/// their diagonal.
pub proof fn pointers_show_the_way()
    ensures
        pointer_at(WindowDirection::North) == ResizePointer::Vertical,
        pointer_at(WindowDirection::South) == ResizePointer::Vertical,
        pointer_at(WindowDirection::West) == ResizePointer::Horizontal,
        pointer_at(WindowDirection::East) == ResizePointer::Horizontal,
        pointer_at(WindowDirection::NorthWest) == ResizePointer::DiagonalDown,
        pointer_at(WindowDirection::SouthEast) == ResizePointer::DiagonalDown,
        pointer_at(WindowDirection::NorthEast) == ResizePointer::DiagonalUp,
        pointer_at(WindowDirection::SouthWest) == ResizePointer::DiagonalUp,
{
}

/// The menu of sessions opens a page for each protocol and closes the tab that is shown; the menu of
/// settings opens the two settings pages. The menus open side by side, 72 pixels apart.
pub proof fn menus_lead_where_they_say(active: int, i: int)
    ensures
        ({
            let sessions = menu_choices("Session"@, active);
            let modes = seq![
                ProtocolMode::Ssh,
                ProtocolMode::Telnet,
                ProtocolMode::Serial,
                ProtocolMode::Local,
                ProtocolMode::Rdp,
                ProtocolMode::Vnc,
            ];
            let settings = menu_choices("Settings"@, active);
            &&& sessions.len() == 8
            &&& 0 <= i < 6 ==> sessions[i] is OpenProtocol && sessions[i]->OpenProtocol_1 == modes[i]
            &&& sessions[6] == Choice::Separator
            &&& sessions[7] is CloseTab && sessions[7]->CloseTab_1 == active
            &&& settings.len() == 3
            &&& settings[0] is OpenSettings && settings[0]->OpenSettings_1
                == SettingsTabKind::Preferences
            &&& settings[2] is OpenSettings && settings[2]->OpenSettings_1 == SettingsTabKind::Theme
            &&& menu_place("Settings"@) == menu_place("Session"@) + 72
            &&& menu_place("View"@) == menu_place("Settings"@) + 72
            &&& menu_place("Help"@) == menu_place("View"@) + 72
            &&& menu_place("Session"@) == 95
        }),
{
    reveal_strlit("Session");
    reveal_strlit("Settings");
    reveal_strlit("View");
    reveal_strlit("Help");
    assert("Session"@.len() == 7 && "Settings"@.len() == 8 && "View"@.len() == 4);
    assert("Help"@[0] == 'H' && "View"@[0] == 'V');
}

/// A size of a remote desktop is shown as its width, a cross and its height.
pub proof fn sizes_are_shown(size: (u16, u16))
    ensures
        size_label(size) == crate::text::decimal(size.0 as nat) + seq!['x'] + crate::text::decimal(
            size.1 as nat,
        ),
{
    reveal_strlit("x");
    assert("x"@ =~= seq!['x']);
}

/// Whether a page offers a setting that is on or off.
pub open spec fn offers_toggle(s: Settings, category: Category, key: SettingsToggleKey) -> bool {
    exists|i: int|
        0 <= i < category_lines(s, category).len() && (#[trigger] category_lines(
            s,
            category,
        )[i]).control == (Control::Toggle { key, on: s.flag(key) })
}

/// Whether a page offers a setting that is a text.
pub open spec fn offers_text(s: Settings, category: Category, key: SettingsTextKey) -> bool {
    exists|i: int|
        0 <= i < category_lines(s, category).len() && (#[trigger] category_lines(
            s,
            category,
        )[i]).control == (Control::Text { key, value: s.text(key) })
}

/// Every setting is offered on the page of its protocol, with its present value.
#[verifier::rlimit(40)]
pub proof fn every_setting_is_offered(s: Settings)
    ensures
        offers_text(s, Category::Common, SettingsTextKey::CommonTimeout),
        offers_toggle(s, Category::Common, SettingsToggleKey::AutoReconnect),
        offers_text(s, Category::Ssh, SettingsTextKey::SshKeepAliveInterval),
        offers_text(s, Category::Ssh, SettingsTextKey::SshTerminalType),
        offers_toggle(s, Category::Ssh, SettingsToggleKey::UseAgentForwarding),
        offers_text(s, Category::Telnet, SettingsTextKey::TelnetLineEnding),
        offers_toggle(s, Category::Telnet, SettingsToggleKey::EchoLocally),
        offers_text(s, Category::Serial, SettingsTextKey::SerialDataBits),
        offers_text(s, Category::Serial, SettingsTextKey::SerialStopBits),
        offers_text(s, Category::Serial, SettingsTextKey::SerialParity),
        offers_toggle(s, Category::Serial, SettingsToggleKey::HardwareFlowControl),
        offers_text(s, Category::LocalShell, SettingsTextKey::LocalDefaultShell),
        offers_text(s, Category::LocalShell, SettingsTextKey::LocalStartupArgs),
        offers_toggle(s, Category::LocalShell, SettingsToggleKey::LaunchInLoginMode),
        offers_text(s, Category::Rdp, SettingsTextKey::RdpColorDepth),
        offers_toggle(s, Category::Rdp, SettingsToggleKey::RdpNla),
        offers_toggle(s, Category::Rdp, SettingsToggleKey::RdpEnableAudio),
        offers_toggle(s, Category::Rdp, SettingsToggleKey::RdpFontSmoothing),
        offers_toggle(s, Category::Rdp, SettingsToggleKey::RdpDesktopComposition),
        offers_text(s, Category::Vnc, SettingsTextKey::VncTimeout),
        offers_toggle(s, Category::Vnc, SettingsToggleKey::VncRemoteCursor),
        offers_toggle(s, Category::Vnc, SettingsToggleKey::VncSharedSession),
        offers_toggle(s, Category::Vnc, SettingsToggleKey::VncViewOnly),
        offers_toggle(s, Category::Theme, SettingsToggleKey::CompactTabStyle),
{
    assert(category_lines(s, Category::Common)[0].control is Text);
    assert(category_lines(s, Category::Common)[1].control is Toggle);
    assert(category_lines(s, Category::Ssh)[0].control is Text);
    assert(category_lines(s, Category::Ssh)[1].control is Text);
    assert(category_lines(s, Category::Ssh)[2].control is Toggle);
    assert(category_lines(s, Category::Telnet)[0].control is Text);
    assert(category_lines(s, Category::Telnet)[1].control is Toggle);
    assert(category_lines(s, Category::Serial)[0].control is Text);
    assert(category_lines(s, Category::Serial)[1].control is Text);
    assert(category_lines(s, Category::Serial)[2].control is Text);
    assert(category_lines(s, Category::Serial)[3].control is Toggle);
    assert(category_lines(s, Category::LocalShell)[0].control is Text);
    assert(category_lines(s, Category::LocalShell)[1].control is Text);
    assert(category_lines(s, Category::LocalShell)[2].control is Toggle);
    assert(category_lines(s, Category::Rdp)[0].control is Text);
    assert(category_lines(s, Category::Rdp)[1].control is Toggle);
    assert(category_lines(s, Category::Rdp)[2].control is Toggle);
    assert(category_lines(s, Category::Rdp)[3].control is Toggle);
    assert(category_lines(s, Category::Rdp)[4].control is Toggle);
    assert(category_lines(s, Category::Vnc)[0].control is Text);
    assert(category_lines(s, Category::Vnc)[1].control is Toggle);
    assert(category_lines(s, Category::Vnc)[2].control is Toggle);
    assert(category_lines(s, Category::Vnc)[3].control is Toggle);
    assert(category_lines(s, Category::Theme)[2].control is Toggle);
}

/// The preferences have a category for each protocol behind the common one, and the theme page has
/// one. A category that is not there has no settings.
pub proof fn categories_come_in_order(s: Settings, i: int)
    ensures
        ({
            let all = seq![
                Category::Common,
                Category::Ssh,
                Category::Telnet,
                Category::Serial,
                Category::LocalShell,
                Category::Rdp,
                Category::Vnc,
            ];
            &&& 0 <= i < 7 ==> chosen(SettingsTabKind::Preferences, i) == all[i]
            &&& i < 0 || i >= 7 ==> chosen(SettingsTabKind::Preferences, i) == Category::Unknown
            &&& chosen(SettingsTabKind::Theme, 0) == Category::Theme
            &&& categories(SettingsTabKind::Theme).len() == 1
            &&& category_lines(s, Category::Unknown).len() == 0
        }),
{
}

} // verus!
