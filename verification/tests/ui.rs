use kterm::app::message::Message;
use kterm::app::model::{
    FieldId, LocalShellOption, ProtocolMode, SettingsTabKind, SettingsToggleKey, WindowDirection,
};
use kterm::app::state::State;
use kterm::app::update::update;
use kterm::ui::settings::{
    category_rows, get_settings_categories, render_settings_panel, render_settings_sidebar,
    settings_header, toggle_label, Category, SettingControl,
};
use kterm::ui::view::{
    field_changed, form_button, form_title, menu_entries, menu_offset, resize_pointer,
    resolution_index, resolution_label, shell_index, submit_message, view, MenuEntry,
    ResizePointer, TabContent,
};

#[test]
fn one_tab_is_active() {
    let mut state = State::default();
    let shown = view(&state);
    assert_eq!(shown.tabs.len(), 1);
    assert!(!shown.tabs[0].is_closable);
    assert!(matches!(shown.content, TabContent::Welcome));
    update(&mut state, Message::NewSshTab);
    let shown = view(&state);
    let active: Vec<bool> = shown.tabs.iter().map(|t| t.is_active).collect();
    assert_eq!(active, vec![false, true]);
    assert!(shown.tabs[0].is_closable);
    assert_eq!(shown.title, state.sessions[1].name);
}

#[test]
fn contents_of_tabs() {
    let mut state = State::default();
    update(&mut state, Message::ConnectVnc);
    assert!(matches!(
        view(&state).content,
        TabContent::Status(t) if t == "Connecting to VNC server..."
    ));
    update(&mut state, Message::ConnectRdp);
    assert!(matches!(view(&state).content, TabContent::Picture));
    update(&mut state, Message::ConnectSsh);
    assert!(matches!(
        view(&state).content,
        TabContent::Terminal { history_len: 0, offset: 0 }
    ));
    update(&mut state, Message::OpenSettingsTab(SettingsTabKind::Theme));
    assert!(matches!(view(&state).content, TabContent::Settings(SettingsTabKind::Theme)));
}

#[test]
fn no_tab_is_shown() {
    let mut state = State::default();
    state.sessions.clear();
    let shown = view(&state);
    assert_eq!(shown.title, "kterm");
    assert!(shown.tabs.is_empty());
    assert!(matches!(shown.content, TabContent::NoTab));
}

#[test]
fn menu_and_pointer_are_shown() {
    let mut state = State::default();
    update(&mut state, Message::ToggleMenu("View"));
    update(&mut state, Message::WindowResize(WindowDirection::SouthEast));
    let shown = view(&state);
    assert_eq!(shown.menu, Some("View"));
    assert_eq!(shown.pointer, Some(ResizePointer::DiagonalDown));
    assert_eq!(resize_pointer(WindowDirection::North), ResizePointer::Vertical);
}

#[test]
fn forms_show_the_visited_fields() {
    let mut state = State::default();
    update(&mut state, Message::HostChanged("10.0.0.1".to_string()));
    for mode in [ProtocolMode::Ssh, ProtocolMode::Telnet, ProtocolMode::Serial, ProtocolMode::Vnc] {
        state.welcome_protocol = mode;
        let fields: Vec<FieldId> = state.form_rows().iter().map(|r| r.field).collect();
        assert_eq!(fields, state.current_field_ids());
        assert!(state.form_rows().last().unwrap().submits);
    }
    state.welcome_protocol = ProtocolMode::Ssh;
    let rows = state.form_rows();
    assert_eq!(rows[0].value, "10.0.0.1");
    assert!(rows[3].secure);
    assert_eq!(form_title(ProtocolMode::Local), "Local System");
    assert_eq!(form_button(ProtocolMode::Local), "Launch Selected Shell");
}

#[test]
fn fields_and_buttons_send_messages() {
    assert!(matches!(
        field_changed(FieldId::RdpUser, "x".to_string()),
        Some(Message::RdpUserChanged(s)) if s == "x"
    ));
    assert!(matches!(
        field_changed(FieldId::TelnetHost, "x".to_string()),
        Some(Message::HostChanged(_))
    ));
    assert!(field_changed(FieldId::RdpResolution, String::new()).is_none());
    assert!(matches!(submit_message(ProtocolMode::Serial), Message::ConnectSerial));
}

#[test]
fn entries_of_menus() {
    let session = menu_entries("Session", 4);
    assert_eq!(session.len(), 8);
    assert!(matches!(session[7], MenuEntry::CloseTab("Close Current Tab", 4)));
    assert_eq!(menu_entries("Settings", 0).len(), 3);
    assert!(matches!(&menu_entries("Help", 0)[0], MenuEntry::Idle(t) if t == "Help Option 1"));
    assert_eq!(menu_offset("Session"), 95);
    assert_eq!(menu_offset("Help"), 311);
}

#[test]
fn sizes_are_chosen_by_label() {
    assert_eq!(resolution_label((1920, 1080)), "1920x1080");
    for (i, size) in kterm::app::connect::rdp_resolution_presets().iter().enumerate() {
        assert_eq!(resolution_index(&resolution_label(*size)), i);
    }
    assert_eq!(resolution_index("nonsense"), 1);
}

#[test]
fn shells_are_chosen_by_name() {
    let shell = |name: &str| LocalShellOption {
        name: name.to_string(),
        program: String::new(),
        args: vec![],
    };
    let shells = vec![shell("a"), shell("b"), shell("b")];
    assert_eq!(shell_index(&shells, "b"), 1);
    assert_eq!(shell_index(&shells, "z"), 0);
}

#[test]
fn settings_pages() {
    let list = get_settings_categories(SettingsTabKind::Preferences);
    assert_eq!(list[0], Category::Common);
    assert_eq!(get_settings_categories(SettingsTabKind::Theme), vec![Category::Theme]);
    assert_eq!(settings_header(SettingsTabKind::Preferences), "Preferences");
    let sidebar = render_settings_sidebar(SettingsTabKind::Preferences, 2);
    assert_eq!(sidebar.selected, Some(2));
    assert_eq!(render_settings_sidebar(SettingsTabKind::Theme, 5).selected, None);
}

#[test]
fn rows_show_the_settings() {
    let mut state = State::default();
    let rows = category_rows(&state.settings, Category::Rdp);
    assert!(rows.iter().any(|r| matches!(
        r.control,
        SettingControl::Toggle { key: SettingsToggleKey::RdpNla, on: true }
    )));
    update(&mut state, Message::ToggleSettingsCheckbox(SettingsToggleKey::RdpNla));
    let list = get_settings_categories(SettingsTabKind::Preferences);
    let rdp = list.iter().position(|c| *c == Category::Rdp).unwrap();
    let panel = render_settings_panel(&state, SettingsTabKind::Preferences, rdp);
    assert!(panel.rows.iter().any(|r| matches!(
        r.control,
        SettingControl::Toggle { key: SettingsToggleKey::RdpNla, on: false }
    )));
    assert_ne!(toggle_label(true), toggle_label(false));
}
