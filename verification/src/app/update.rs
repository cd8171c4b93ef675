//! What becomes of each message.
use crate::app::effect::{fxs, nothing, one, push_effect, Effect, Fx};
use crate::app::message::Message;
use crate::app::model::{ProtocolMode, RemoteDisplayProtocol, Session, Tab};
use crate::app::session::{
    content, content_size, pasted_bytes, without_nulls, FRAME_HEIGHT, FRAME_WIDTH,
};
use crate::app::state::{fields_of, Form, Model, State};
use crate::connection::types::{ConnectionEvent, ConnectionInput, Event, Input, RemoteInput};
use crate::remote_display::display::next_seq;
use crate::terminal::cell::Selection;
use crate::terminal::screen::Screen;
use crate::text::same_text;
use vstd::prelude::*;
use vstd::utf8::encode_utf8;

verus! {

/// Whether tab `i` is the first with the given id.
pub open spec fn is_first(tabs: Seq<Tab>, id: u64, i: int) -> bool {
    &&& 0 <= i < tabs.len()
    &&& tabs[i].id == id
    &&& forall|k: int| 0 <= k < i ==> (#[trigger] tabs[k]).id != id
}

/// The first tab with the given id.
pub open spec fn tab_of(tabs: Seq<Tab>, id: u64) -> Option<int> {
    if exists|i: int| is_first(tabs, id, i) {
        Some(choose|i: int| is_first(tabs, id, i))
    } else {
        None
    }
}

impl Model {
    /// With a tab added, which is then shown.
    pub open spec fn opened(self, tab: Tab) -> Model {
        Model {
            tabs: self.tabs.push(tab),
            next_id: next_seq(self.next_id),
            active: self.tabs.len() as int,
            ..self
        }
    }

    /// Without a tab. The last tab stays.
    pub open spec fn closed(self, index: int) -> Model {
        if self.tabs.len() <= 1 {
            self
        } else {
            let tabs = self.tabs.remove(index);
            Model {
                tabs,
                active: if self.active >= tabs.len() {
                    tabs.len() - 1
                } else {
                    self.active
                },
                ..self
            }
        }
    }

    /// What closing a tab asks for: its connection ends and its clipboard is forgotten.
    pub open spec fn close_fx(self, index: int) -> Seq<Fx> {
        if self.tabs.len() <= 1 {
            Seq::empty()
        } else {
            self.tabs[index].hang() + seq![Fx::RemoveClipboard { session_id: self.tabs[index].id }]
        }
    }

    /// After an event of the connection of the session with the given id. A session that is gone
    /// gets nothing. A picture that starts takes a new number.
    pub open spec fn after_connection(self, id: u64, event: Event) -> Model {
        match tab_of(self.tabs, id) {
            Some(i) => Model {
                tabs: self.tabs.update(i, self.tabs[i].after_event(event, self.next_source)),
                next_source: self.tabs[i].number_next(event, self.next_source),
                ..self
            },
            None => self,
        }
    }

    /// What an event of a connection asks for.
    pub open spec fn connection_fx(self, id: u64, event: Event) -> Seq<Fx> {
        match tab_of(self.tabs, id) {
            Some(i) => self.tabs[i].event_fx(event, self.size),
            None => Seq::empty(),
        }
    }

    /// Where the keyboard's attention goes with the tabulator.
    pub open spec fn next_field(self, back: bool) -> int {
        let count = fields_of(self.welcome).len();
        if back {
            if self.focused == 0 {
                count - 1
            } else {
                self.focused - 1
            }
        } else {
            (self.focused + 1) % (count as int)
        }
    }

    /// After the tabulator.
    pub open spec fn tabbed(self, back: bool) -> Model {
        if fields_of(self.welcome).len() == 0 {
            self
        } else {
            Model { focused: self.next_field(back), ..self }
        }
    }

    /// What the tabulator asks for.
    pub open spec fn tab_fx(self, back: bool) -> Seq<Fx> {
        if fields_of(self.welcome).len() == 0 {
            Seq::empty()
        } else {
            seq![Fx::Focus(fields_of(self.welcome)[self.next_field(back)])]
        }
    }

    /// With another protocol on the welcome page.
    pub open spec fn with_protocol(self, mode: ProtocolMode) -> Model {
        Model { welcome: mode, focused: 0, ..self }
    }

    /// With another menu open. The open one closes, and so does any for an empty name.
    pub open spec fn with_menu(self, menu: Seq<char>) -> Model {
        Model {
            menu: if menu.len() == 0 || self.menu == Some(menu) {
                None
            } else {
                Some(menu)
            },
            ..self
        }
    }

    /// What another size of the window asks for: a connected remote desktop is told.
    pub open spec fn size_fx(self, width: u32, height: u32) -> Seq<Fx> {
        self.current().desktop_fx(
            Input::Resize {
                cols: content_size(width, FRAME_WIDTH),
                rows: content_size(height, FRAME_HEIGHT),
            },
        )
    }

    /// An effect on the window, where the window is known.
    pub open spec fn window_fx(self, effect: spec_fn(u64) -> Fx) -> Seq<Fx> {
        match self.window {
            Some(id) => seq![effect(id)],
            None => Seq::empty(),
        }
    }

    /// Whether a message means something in this state: a tab that is closed is there, and the
    /// field that the tabulator leads to as well.
    pub open spec fn accepts(self, message: Message) -> bool {
        match message {
            Message::CloseTab(index) => self.tabs.len() <= 1 || index < self.tabs.len(),
            Message::TabPressed(back) => {
                ||| fields_of(self.welcome).len() == 0
                ||| back && self.focused <= fields_of(self.welcome).len()
                ||| !back && self.focused < usize::MAX
            },
            _ => true,
        }
    }

    /// The state after a message.
    pub open spec fn after(self, message: Message) -> Model {
        match message {
            Message::TabSelected(index) => if index < self.tabs.len() {
                Model { active: index as int, ..self }
            } else {
                self
            },
            Message::CloseTab(index) => self.closed(index as int),
            Message::NewSshTab => self.opened(Tab::welcome(self.next_id)),
            Message::TerminalInput(bytes) => self.with_current(
                self.current().after_typing(bytes@),
            ),
            Message::ImePreedit(text) => self.with_current(
                Tab {
                    screen: Screen { preedit: text@, ..self.current().screen },
                    ..self.current()
                },
            ),
            Message::ImeCommit(text) => self.with_current(self.current().after_commit(text@)),
            Message::ConnectionMessage(id, event) => self.after_connection(id, event@),
            Message::TerminalResize(rows, cols) => self.with_current(
                self.current().after_resize(rows as int, cols as int),
            ),
            Message::TerminalScroll(back) => self.with_current(self.current().scrolled(back)),
            Message::TerminalScrollTo(offset) => self.with_current(
                Tab {
                    screen: Screen { offset: offset as int, ..self.current().screen },
                    ..self.current()
                },
            ),
            Message::HostChanged(s) => Model { form: Form { ssh_host: s@, ..self.form }, ..self },
            Message::PortChanged(s) => Model { form: Form { ssh_port: s@, ..self.form }, ..self },
            Message::UserChanged(s) => Model { form: Form { ssh_user: s@, ..self.form }, ..self },
            Message::PassChanged(s) => Model { form: Form { ssh_pass: s@, ..self.form }, ..self },
            Message::SerialPortChanged(s) => Model {
                form: Form { serial_port: s@, ..self.form },
                ..self
            },
            Message::SerialBaudChanged(s) => Model {
                form: Form { serial_baud: s@, ..self.form },
                ..self
            },
            Message::RdpHostChanged(s) => Model {
                form: Form { rdp_host: s@, ..self.form },
                ..self
            },
            Message::RdpPortChanged(s) => Model {
                form: Form { rdp_port: s@, ..self.form },
                ..self
            },
            Message::RdpUserChanged(s) => Model {
                form: Form { rdp_user: s@, ..self.form },
                ..self
            },
            Message::RdpPassChanged(s) => Model {
                form: Form { rdp_pass: s@, ..self.form },
                ..self
            },
            Message::RdpResolutionSelected(index) => Model { resolution: index as int, ..self },
            Message::VncHostChanged(s) => Model {
                form: Form { vnc_host: s@, ..self.form },
                ..self
            },
            Message::VncPortChanged(s) => Model {
                form: Form { vnc_port: s@, ..self.form },
                ..self
            },
            Message::VncPassChanged(s) => Model {
                form: Form { vnc_pass: s@, ..self.form },
                ..self
            },
            Message::SelectProtocol(mode) => self.with_protocol(mode),
            Message::SelectLocalShell(index) => if index < self.shells.len() {
                Model { shell: index as int, ..self }
            } else {
                self
            },
            Message::ConnectSsh => self.with_terminal(self.ssh_name()),
            Message::ConnectTelnet => self.with_terminal(self.telnet_name()),
            Message::ConnectSerial => self.with_terminal(self.serial_name()),
            Message::ConnectLocal => self.with_terminal(self.local_name()),
            Message::ConnectRdp => self.with_remote(
                self.rdp_name(),
                self.resolution_chosen(),
                RemoteDisplayProtocol::Rdp,
                None,
            ),
            Message::ConnectVnc => self.with_remote(
                self.vnc_name(),
                (1280, 720),
                RemoteDisplayProtocol::Vnc,
                Some("Connecting to VNC server..."@),
            ),
            Message::SelectionStart(col, row) => self.with_current(
                self.current().selecting(
                    Some(Selection { start: (col, row), end: (col, row) }),
                ),
            ),
            Message::SelectionUpdate(col, row) => self.with_current(
                self.current().selection_moved(col, row),
            ),
            Message::PasteData(Some(text)) => self.with_current(
                self.current().after_typing(encode_utf8(without_nulls(text@))),
            ),
            Message::ClearSelection => self.with_current(self.current().selecting(None)),
            Message::WindowSizeChanged(width, height) => Model { size: (width, height), ..self },
            Message::TabPressed(back) => self.tabbed(back),
            Message::FieldFocused(index) => Model { focused: index as int, ..self },
            Message::WindowIdCaptured(id) => Model {
                window: if self.window is None {
                    Some(id)
                } else {
                    self.window
                },
                ..self
            },
            Message::WindowResize(direction) => Model { resizing: Some(direction), ..self },
            Message::ResizeFinished => Model { resizing: None, ..self },
            Message::ToggleMenu(menu) => self.with_menu(menu@),
            Message::CloseMenu => Model { menu: None, ..self },
            Message::OpenProtocolTab(mode) => Model {
                welcome: mode,
                menu: None,
                ..self.opened(Tab::welcome(self.next_id))
            },
            Message::OpenSettingsTab(kind) => Model {
                category: 0,
                menu: None,
                ..self.opened(Tab::settings(self.next_id, kind))
            },
            Message::SettingsCategorySelected(index) => Model { category: index as int, ..self },
            Message::ToggleSettingsCheckbox(key) => Model {
                settings: self.settings.with_flag(key, !self.settings.flag(key)),
                ..self
            },
            Message::SettingsTextChanged(key, value) => Model {
                settings: self.settings.with_text(key, value@),
                ..self
            },
            _ => self,
        }
    }

    /// What a message asks for.
    pub open spec fn effects(self, message: Message) -> Seq<Fx> {
        match message {
            Message::CloseTab(index) => self.close_fx(index as int),
            Message::TerminalInput(bytes) => self.current().typing_fx(bytes@),
            Message::ImeCommit(text) => self.current().commit_fx(text@),
            Message::ConnectionMessage(id, event) => self.connection_fx(id, event@),
            Message::TerminalResize(rows, cols) => self.current().resize_fx(
                rows as int,
                cols as int,
            ),
            Message::SelectProtocol(mode) => if fields_of(mode).len() == 0 {
                Seq::empty()
            } else {
                seq![Fx::Focus(fields_of(mode)[0])]
            },
            Message::ConnectSsh => self.connect_fx(self.ssh_call()),
            Message::ConnectTelnet => self.connect_fx(self.telnet_call()),
            Message::ConnectSerial => self.connect_fx(self.serial_call()),
            Message::ConnectLocal => self.connect_fx(self.local_call()),
            Message::ConnectRdp => self.connect_fx(self.rdp_call()),
            Message::ConnectVnc => self.connect_fx(self.vnc_call()),
            Message::CopyCurrentSelection => seq![
                Fx::ThenCopy(self.current().screen.selected_text()),
            ],
            Message::CopyText(text) => if text@.len() == 0 {
                Seq::empty()
            } else {
                seq![Fx::WriteClipboard(text@)]
            },
            Message::PasteFromClipboard => seq![Fx::ReadClipboard],
            Message::PasteData(Some(text)) => self.current().typing_fx(
                encode_utf8(without_nulls(text@)),
            ),
            Message::TryHandleKey(key, modifiers) => self.current().key_fx(key, modifiers),
            Message::RemoteDisplayInput(input) => self.current().remote_fx(seq![input]),
            Message::RemoteDisplayInputs(inputs) => self.current().remote_fx(inputs@),
            Message::RemoteSecureAttention(down) => self.current().attention_fx(down),
            Message::SyncRemoteKeyboardIndicators => self.current().indicators_fx(),
            Message::ReleaseRemoteModifiers => self.current().desktop_fx(
                Input::ReleaseAllModifiers,
            ),
            Message::WindowSizeChanged(width, height) => self.size_fx(width, height),
            Message::TabPressed(back) => self.tab_fx(back),
            Message::WindowDrag => self.window_fx(|id: u64| Fx::DragWindow(id)),
            Message::WindowResize(direction) => self.window_fx(
                |id: u64| Fx::DragResizeWindow(id, direction),
            ),
            Message::MinimizeWindow => self.window_fx(|id: u64| Fx::MinimizeWindow(id)),
            Message::MaximizeWindow => self.window_fx(|id: u64| Fx::ToggleMaximizeWindow(id)),
            Message::CloseWindow => self.window_fx(|id: u64| Fx::CloseWindow(id)),
            Message::CloseMenuDeferred => seq![Fx::ThenCloseMenu],
            Message::ToggleSettingsCheckbox(_) => seq![Fx::SaveSettings],
            Message::SettingsTextChanged(_, _) => seq![Fx::SaveSettings],
            _ => Seq::empty(),
        }
    }
}

impl State {
    /// Whether a message means something in this state.
    pub fn can_update(&self, message: &Message) -> (b: bool)
        requires
            self@.wf(),
        ensures
            b == self@.accepts(*message),
    {
        match message {
            Message::CloseTab(index) => self.sessions.len() <= 1 || *index < self.sessions.len(),
            Message::TabPressed(back) => {
                let count: usize = self.current_field_ids().len();
                count == 0 || (if *back {
                    self.focused_field <= count
                } else {
                    self.focused_field < usize::MAX
                })
            },
            _ => true,
        }
    }

    /// Shows another tab.
    fn select_tab(&mut self, index: usize)
        requires
            old(self)@.wf(),
        ensures
            final(self)@ == old(self)@.after(Message::TabSelected(index)),
            final(self)@.wf(),
    {
        if index < self.sessions.len() {
            self.active_index = index;
        }
    }

    /// Adds a tab and shows it.
    fn open_tab(&mut self, session: Session)
        requires
            old(self)@.wf(),
            session@.wf(),
        ensures
            final(self)@ == old(self)@.opened(session@),
            final(self)@.wf(),
    {
        let ghost before = self@.tabs;
        let ghost tab = session@;
        self.next_session_id = self.next_session_id.wrapping_add(1);
        self.sessions.push(session);
        self.active_index = self.sessions.len() - 1;
        assert(self@.tabs =~= before.push(tab));
    }

    /// Closes a tab.
    fn close_tab(&mut self, index: usize) -> (effects: Vec<Effect>)
        requires
            old(self)@.wf(),
            old(self)@.accepts(Message::CloseTab(index)),
        ensures
            final(self)@ == old(self)@.closed(index as int),
            final(self)@.wf(),
            fxs(effects@) == old(self)@.close_fx(index as int),
    {
        if self.sessions.len() <= 1 {
            return nothing();
        }
        let ghost before = self@.tabs;
        let session = self.sessions.remove(index);
        assert(session@ == before[index as int]);
        assert(self@.tabs =~= before.remove(index as int));
        let mut effects = match session.sender {
            Some(channel) => one(Effect::Hang { channel }),
            None => nothing(),
        };
        push_effect(&mut effects, Effect::RemoveClipboard { session_id: session.id });
        if self.active_index >= self.sessions.len() {
            self.active_index = self.sessions.len() - 1;
        }
        assert(fxs(effects@) =~= old(self)@.close_fx(index as int));
        effects
    }

    /// Takes an event of a connection.
    fn connection_message(&mut self, id: u64, event: ConnectionEvent) -> (effects: Vec<Effect>)
        requires
            old(self)@.wf(),
        ensures
            final(self)@ == old(self)@.after_connection(id, event@),
            final(self)@.wf(),
            fxs(effects@) == old(self)@.connection_fx(id, event@),
    {
        let ghost before = self@.tabs;
        let mut i: usize = 0;
        while i < self.sessions.len()
            invariant
                i <= self.sessions.len(),
                before == self@.tabs,
                self@ == old(self)@,
                self@.wf(),
                forall|k: int| 0 <= k < i ==> (#[trigger] before[k]).id != id,
            decreases self.sessions.len() - i,
        {
            assert(before[i as int] == self.sessions@[i as int]@);
            if self.sessions[i].id == id {
                assert(is_first(before, id, i as int));
                assert(tab_of(before, id) == Some(i as int));
                assert(before[i as int].wf());
                let window = self.window_size;
                let ghost event_was = event@;
                let effects = self.sessions[i].connection_event(
                    event,
                    window,
                    &mut self.source_numbers,
                );
                assert(self@.tabs =~= before.update(
                    i as int,
                    before[i as int].after_event(event_was, old(self)@.next_source),
                ));
                return effects;
            }
            i = i + 1;
        }
        assert(forall|k: int| !is_first(before, id, k));
        nothing()
    }

    /// Moves the keyboard's attention.
    fn press_tab(&mut self, back: bool) -> (effects: Vec<Effect>)
        requires
            old(self)@.wf(),
            old(self)@.accepts(Message::TabPressed(back)),
        ensures
            final(self)@ == old(self)@.tabbed(back),
            final(self)@.wf(),
            fxs(effects@) == old(self)@.tab_fx(back),
    {
        let fields = self.current_field_ids();
        let count: usize = fields.len();
        if count == 0 {
            return nothing();
        }
        if back {
            self.focused_field = if self.focused_field == 0 {
                count - 1
            } else {
                self.focused_field - 1
            };
        } else {
            self.focused_field = (self.focused_field + 1) % count;
        }
        one(Effect::Focus(fields[self.focused_field]))
    }

    /// Shows the form of another protocol.
    fn select_protocol(&mut self, mode: ProtocolMode) -> (effects: Vec<Effect>)
        requires
            old(self)@.wf(),
        ensures
            final(self)@ == old(self)@.with_protocol(mode),
            final(self)@.wf(),
            fxs(effects@) == old(self)@.effects(Message::SelectProtocol(mode)),
    {
        self.welcome_protocol = mode;
        self.focused_field = 0;
        let fields = self.current_field_ids();
        if fields.len() == 0 {
            nothing()
        } else {
            one(Effect::Focus(fields[0]))
        }
    }

    /// Opens or closes a menu.
    fn toggle_menu(&mut self, menu: &'static str)
        requires
            old(self)@.wf(),
        ensures
            final(self)@ == old(self)@.with_menu(menu@),
            final(self)@.wf(),
    {
        let same: bool = match self.dummy_menu_open {
            Some(open) => same_text(open, menu),
            None => false,
        };
        if menu.unicode_len() == 0 || same {
            self.dummy_menu_open = None;
        } else {
            self.dummy_menu_open = Some(menu);
        }
    }
}

impl State {
    /// Types bytes into the session that is shown.
    fn type_active(&mut self, bytes: Vec<u8>) -> (effects: Vec<Effect>)
        requires
            old(self)@.wf(),
        ensures
            final(self)@ == old(self)@.with_current(old(self)@.current().after_typing(bytes@)),
            final(self)@.wf(),
            fxs(effects@) == old(self)@.current().typing_fx(bytes@),
    {
        let i: usize = self.active_index;
        let ghost before = self@.tabs;
        assert(before[i as int].wf());
        let effects = self.sessions[i].type_bytes(bytes);
        assert(self@.tabs =~= before.update(i as int, self.sessions@[i as int]@));
        effects
    }

    /// Hands a text of an input method to the session that is shown.
    fn commit_active(&mut self, text: &str) -> (effects: Vec<Effect>)
        requires
            old(self)@.wf(),
        ensures
            final(self)@ == old(self)@.with_current(old(self)@.current().after_commit(text@)),
            final(self)@.wf(),
            fxs(effects@) == old(self)@.current().commit_fx(text@),
    {
        let i: usize = self.active_index;
        let ghost before = self@.tabs;
        assert(before[i as int].wf());
        let effects = self.sessions[i].commit_text(text);
        assert(self@.tabs =~= before.update(i as int, self.sessions@[i as int]@));
        effects
    }

    /// Changes the size of the terminal that is shown.
    fn resize_active(&mut self, rows: usize, cols: usize) -> (effects: Vec<Effect>)
        requires
            old(self)@.wf(),
        ensures
            final(self)@ == old(self)@.with_current(
                old(self)@.current().after_resize(rows as int, cols as int),
            ),
            final(self)@.wf(),
            fxs(effects@) == old(self)@.current().resize_fx(rows as int, cols as int),
    {
        let i: usize = self.active_index;
        let ghost before = self@.tabs;
        assert(before[i as int].wf());
        let effects = self.sessions[i].resize_terminal(rows, cols);
        assert(self@.tabs =~= before.update(i as int, self.sessions@[i as int]@));
        effects
    }

    /// Shows the text that an input method is composing.
    fn preedit_active(&mut self, text: String)
        requires
            old(self)@.wf(),
        ensures
            final(self)@ == old(self)@.with_current(
                Tab {
                    screen: Screen { preedit: text@, ..old(self)@.current().screen },
                    ..old(self)@.current()
                },
            ),
            final(self)@.wf(),
    {
        let i: usize = self.active_index;
        let ghost before = self@.tabs;
        assert(before[i as int].wf());
        self.sessions[i].set_preedit(text);
        assert(self@.tabs =~= before.update(i as int, self.sessions@[i as int]@));
    }

    /// Scrolls the terminal that is shown.
    fn scroll_active(&mut self, back: bool)
        requires
            old(self)@.wf(),
        ensures
            final(self)@ == old(self)@.with_current(old(self)@.current().scrolled(back)),
            final(self)@.wf(),
    {
        let i: usize = self.active_index;
        let ghost before = self@.tabs;
        assert(before[i as int].wf());
        self.sessions[i].scroll(back);
        assert(self@.tabs =~= before.update(i as int, self.sessions@[i as int]@));
    }

    /// Moves the view of the terminal that is shown.
    fn scroll_active_to(&mut self, offset: usize)
        requires
            old(self)@.wf(),
        ensures
            final(self)@ == old(self)@.with_current(
                Tab {
                    screen: Screen { offset: offset as int, ..old(self)@.current().screen },
                    ..old(self)@.current()
                },
            ),
            final(self)@.wf(),
    {
        let i: usize = self.active_index;
        let ghost before = self@.tabs;
        assert(before[i as int].wf());
        self.sessions[i].scroll_to(offset);
        assert(self@.tabs =~= before.update(i as int, self.sessions@[i as int]@));
    }

    /// Changes the selection in the terminal that is shown.
    fn select_active(&mut self, selection: Option<Selection>)
        requires
            old(self)@.wf(),
        ensures
            final(self)@ == old(self)@.with_current(old(self)@.current().selecting(selection)),
            final(self)@.wf(),
    {
        let i: usize = self.active_index;
        let ghost before = self@.tabs;
        assert(before[i as int].wf());
        self.sessions[i].select(selection);
        assert(self@.tabs =~= before.update(i as int, self.sessions@[i as int]@));
    }

    /// Moves the end of the selection in the terminal that is shown.
    fn move_active_selection(&mut self, col: usize, row: usize)
        requires
            old(self)@.wf(),
        ensures
            final(self)@ == old(self)@.with_current(old(self)@.current().selection_moved(col, row)),
            final(self)@.wf(),
    {
        let i: usize = self.active_index;
        let ghost before = self@.tabs;
        assert(before[i as int].wf());
        self.sessions[i].move_selection(col, row);
        assert(self@.tabs =~= before.update(i as int, self.sessions@[i as int]@));
    }
}

/// Takes a message: changes the state, and gives what is to be done outside.
pub fn update(state: &mut State, message: Message) -> (effects: Vec<Effect>)
    requires
        old(state)@.wf(),
        old(state)@.accepts(message),
    ensures
        final(state)@ == old(state)@.after(message),
        final(state)@.wf(),
        fxs(effects@) == old(state)@.effects(message),
{
    match message {
        Message::TabSelected(index) => {
            state.select_tab(index);
            nothing()
        },
        Message::CloseTab(index) => state.close_tab(index),
        Message::NewSshTab => {
            let id: u64 = state.next_session_id;
            state.open_tab(Session::welcome(id));
            nothing()
        },
        Message::TerminalInput(bytes) => state.type_active(bytes),
        Message::ImePreedit(text) => {
            state.preedit_active(text);
            nothing()
        },
        Message::ImeCommit(text) => state.commit_active(text.as_str()),
        Message::FontLoaded => nothing(),
        Message::ConnectionMessage(id, event) => state.connection_message(id, event),
        Message::RemoteDisplayRedrawPulse => nothing(),
        Message::TerminalResize(rows, cols) => state.resize_active(rows, cols),
        Message::TerminalScroll(back) => {
            state.scroll_active(back);
            nothing()
        },
        Message::TerminalScrollTo(offset) => {
            state.scroll_active_to(offset);
            nothing()
        },
        Message::HostChanged(s) => {
            state.ssh_host = s;
            nothing()
        },
        Message::PortChanged(s) => {
            state.ssh_port = s;
            nothing()
        },
        Message::UserChanged(s) => {
            state.ssh_user = s;
            nothing()
        },
        Message::PassChanged(s) => {
            state.ssh_pass = s;
            nothing()
        },
        Message::SerialPortChanged(s) => {
            state.serial_port = s;
            nothing()
        },
        Message::SerialBaudChanged(s) => {
            state.serial_baud = s;
            nothing()
        },
        Message::RdpHostChanged(s) => {
            state.rdp_host = s;
            nothing()
        },
        Message::RdpPortChanged(s) => {
            state.rdp_port = s;
            nothing()
        },
        Message::RdpUserChanged(s) => {
            state.rdp_user = s;
            nothing()
        },
        Message::RdpPassChanged(s) => {
            state.rdp_pass = s;
            nothing()
        },
        Message::VncHostChanged(s) => {
            state.vnc_host = s;
            nothing()
        },
        Message::VncPortChanged(s) => {
            state.vnc_port = s;
            nothing()
        },
        Message::VncPassChanged(s) => {
            state.vnc_pass = s;
            nothing()
        },
        Message::RdpResolutionSelected(index) => {
            state.selected_rdp_resolution_index = index;
            nothing()
        },
        Message::SelectProtocol(mode) => state.select_protocol(mode),
        Message::SelectLocalShell(index) => {
            if index < state.local_shells.len() {
                state.selected_local_shell = index;
            }
            nothing()
        },
        Message::ConnectSsh => state.connect_ssh(),
        Message::ConnectTelnet => state.connect_telnet(),
        Message::ConnectSerial => state.connect_serial(),
        Message::ConnectLocal => state.connect_local(),
        Message::ConnectRdp => state.connect_rdp(),
        Message::ConnectVnc => state.connect_vnc(),
        Message::SelectionStart(col, row) => {
            state.select_active(Some(Selection { start: (col, row), end: (col, row) }));
            nothing()
        },
        Message::SelectionUpdate(col, row) => {
            state.move_active_selection(col, row);
            nothing()
        },
        Message::CopyCurrentSelection => one(
            Effect::ThenCopy(state.sessions[state.active_index].terminal.get_selected_text()),
        ),
        Message::CopyText(text) => {
            if text.as_str().unicode_len() == 0 {
                return nothing();
            }
            one(Effect::WriteClipboard(text))
        },
        Message::PasteFromClipboard => one(Effect::ReadClipboard),
        Message::PasteData(text) => {
            if let Some(text) = text {
                return state.type_active(pasted_bytes(text.as_str()));
            }
            nothing()
        },
        Message::ClearSelection => {
            state.select_active(None);
            nothing()
        },
        Message::TryHandleKey(key, modifiers) => state.sessions[state.active_index].handle_key(
            &key,
            modifiers,
        ),
        Message::RemoteDisplayInput(input) => {
            let inputs: Vec<RemoteInput> = vec![input];
            assert(inputs@ =~= seq![input]);
            state.sessions[state.active_index].remote_inputs(inputs)
        },
        Message::RemoteDisplayInputs(inputs) => state.sessions[state.active_index].remote_inputs(inputs),
        Message::RemoteSecureAttention(down) => state.sessions[state.active_index].secure_attention(down),
        Message::SyncRemoteKeyboardIndicators => state.sessions[state.active_index].sync_indicators(),
        Message::ReleaseRemoteModifiers => state.sessions[state.active_index].desktop_input(
            ConnectionInput::ReleaseAllModifiers,
        ),
        Message::WindowSizeChanged(width, height) => {
            state.window_size = (width, height);
            let input = ConnectionInput::Resize {
                cols: content(width, FRAME_WIDTH),
                rows: content(height, FRAME_HEIGHT),
            };
            state.sessions[state.active_index].desktop_input(input)
        },
        Message::TabPressed(back) => state.press_tab(back),
        Message::FieldFocused(index) => {
            state.focused_field = index;
            nothing()
        },
        Message::WindowIdCaptured(id) => {
            if state.window_id.is_none() {
                state.window_id = Some(id);
            }
            nothing()
        },
        Message::WindowDrag => {
            match state.window_id {
                Some(id) => one(Effect::DragWindow(id)),
                None => nothing(),
            }
        },
        Message::WindowResize(direction) => {
            state.resizing_direction = Some(direction);
            match state.window_id {
                Some(id) => one(Effect::DragResizeWindow(id, direction)),
                None => nothing(),
            }
        },
        Message::ResizeFinished => {
            state.resizing_direction = None;
            nothing()
        },
        Message::MinimizeWindow => {
            match state.window_id {
                Some(id) => one(Effect::MinimizeWindow(id)),
                None => nothing(),
            }
        },
        Message::MaximizeWindow => {
            match state.window_id {
                Some(id) => one(Effect::ToggleMaximizeWindow(id)),
                None => nothing(),
            }
        },
        Message::CloseWindow => {
            match state.window_id {
                Some(id) => one(Effect::CloseWindow(id)),
                None => nothing(),
            }
        },
        Message::ToggleMenu(menu) => {
            state.toggle_menu(menu);
            nothing()
        },
        Message::CloseMenuDeferred => one(Effect::ThenCloseMenu),
        Message::CloseMenu => {
            state.dummy_menu_open = None;
            nothing()
        },
        Message::OpenProtocolTab(mode) => {
            let id: u64 = state.next_session_id;
            state.open_tab(Session::welcome(id));
            state.welcome_protocol = mode;
            state.dummy_menu_open = None;
            nothing()
        },
        Message::OpenSettingsTab(kind) => {
            let id: u64 = state.next_session_id;
            state.settings_selected_category = 0;
            state.open_tab(Session::new_settings(id, kind));
            state.dummy_menu_open = None;
            nothing()
        },
        Message::SettingsCategorySelected(index) => {
            state.settings_selected_category = index;
            nothing()
        },
        Message::ToggleSettingsCheckbox(key) => {
            state.toggle_settings_checkbox(key);
            one(Effect::SaveSettings)
        },
        Message::SettingsTextChanged(key, value) => {
            state.set_settings_text(key, value);
            one(Effect::SaveSettings)
        },
    }
}

} // verus!
