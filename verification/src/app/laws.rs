//! What holds of the application whatever happens.
use crate::app::effect::Fx;
use crate::app::message::Message;
use crate::app::model::Tab;
use crate::app::settings_persistence::{read, stored, stored_settings_read_back};
use crate::app::state::{fields_of, Model};
use crate::app::update::{is_first, tab_of};
use crate::connection::types::{ConnectionEvent, Event, Input};
use crate::remote_display::display::{Display, Update};
use vstd::prelude::*;

verus! {

/// Whether every session has an id of its own that was given out already.
pub open spec fn ids_differ(m: Model) -> bool {
    &&& forall|i: int| 0 <= i < m.tabs.len() ==> (#[trigger] m.tabs[i]).id < m.next_id
    &&& forall|i: int, j: int|
        0 <= i < j < m.tabs.len() ==> (#[trigger] m.tabs[i]).id != (#[trigger] m.tabs[j]).id
}

/// No two sessions ever have the same id, as long as there are ids left.
#[verifier::rlimit(100)]
pub proof fn sessions_keep_their_own_ids(m: Model, message: Message)
    requires
        m.wf(),
        m.accepts(message),
        ids_differ(m),
        m.next_id < u64::MAX,
    ensures
        ids_differ(m.after(message)),
{
    match message {
        Message::ConnectionMessage(id, event) => {
            lemma_connection_ids(m, id, event@);
        },
        Message::CloseTab(index) => {
            lemma_closed_ids(m, index as int);
        },
        Message::NewSshTab => {
            lemma_opened_ids(m, m.after(message));
        },
        Message::OpenProtocolTab(_) => {
            lemma_opened_ids(m, m.after(message));
        },
        Message::OpenSettingsTab(_) => {
            lemma_opened_ids(m, m.after(message));
        },
        _ => {
            lemma_quiet_messages(m, message);
            lemma_same_ids(m, m.after(message), m.active);
        },
    }
}

proof fn lemma_connection_ids(m: Model, id: u64, event: Event)
    requires
        ids_differ(m),
    ensures
        ids_differ(m.after_connection(id, event)),
{
    if let Some(i) = tab_of(m.tabs, id) {
        assert(is_first(m.tabs, id, i));
        lemma_event_keeps_id(m.tabs[i], event, m.next_source);
        lemma_same_ids(m, m.after_connection(id, event), i);
    }
}

proof fn lemma_closed_ids(m: Model, index: int)
    requires
        ids_differ(m),
        m.tabs.len() <= 1 || 0 <= index < m.tabs.len(),
    ensures
        ids_differ(m.closed(index)),
{
    if m.tabs.len() > 1 {
        let after = m.closed(index);
        assert forall|i: int| 0 <= i < after.tabs.len() implies (#[trigger] after.tabs[i]).id
            < after.next_id by {
            if i < index {
                assert(after.tabs[i] == m.tabs[i]);
            } else {
                assert(after.tabs[i] == m.tabs[i + 1]);
            }
        }
        assert forall|i: int, j: int| 0 <= i < j < after.tabs.len() implies (
        #[trigger] after.tabs[i]).id != (#[trigger] after.tabs[j]).id by {
            let a = if i < index {
                i
            } else {
                i + 1
            };
            let b = if j < index {
                j
            } else {
                j + 1
            };
            assert(after.tabs[i] == m.tabs[a]);
            assert(after.tabs[j] == m.tabs[b]);
        }
    }
}

proof fn lemma_opened_ids(m: Model, after: Model)
    requires
        ids_differ(m),
        m.next_id < u64::MAX,
        after.tabs.len() == m.tabs.len() + 1,
        after.tabs == m.tabs.push(after.tabs[m.tabs.len() as int]),
        after.tabs[m.tabs.len() as int].id == m.next_id,
        after.next_id == m.next_id + 1,
    ensures
        ids_differ(after),
{
    assert forall|i: int| 0 <= i < m.tabs.len() implies (#[trigger] after.tabs[i]) == m.tabs[i] by {
    }
}

proof fn lemma_event_keeps_id(tab: Tab, event: Event, source_id: u64)
    ensures
        tab.after_event(event, source_id).id == tab.id,
{
}

/// All other messages change at most the tab that is shown, and keep its id.
#[verifier::rlimit(100)]
proof fn lemma_quiet_messages(m: Model, message: Message)
    requires
        m.wf(),
        !(message is ConnectionMessage),
        !(message is CloseTab),
        !(message is NewSshTab),
        !(message is OpenProtocolTab),
        !(message is OpenSettingsTab),
    ensures
        m.after(message).next_id == m.next_id,
        m.after(message).tabs == m.tabs || m.after(message).tabs == m.tabs.update(
            m.active,
            m.after(message).tabs[m.active],
        ),
        m.after(message).tabs[m.active].id == m.tabs[m.active].id,
{
}

/// Where only tab `k` changed, and kept its id, the ids still differ.
proof fn lemma_same_ids(m: Model, after: Model, k: int)
    requires
        ids_differ(m),
        0 <= k < m.tabs.len(),
        after.next_id == m.next_id,
        after.tabs == m.tabs || after.tabs == m.tabs.update(k, after.tabs[k]),
        after.tabs[k].id == m.tabs[k].id,
    ensures
        ids_differ(after),
{
    assert forall|i: int| 0 <= i < after.tabs.len() implies (#[trigger] after.tabs[i]).id
        == m.tabs[i].id by {}
    assert forall|i: int, j: int| 0 <= i < j < after.tabs.len() implies (
    #[trigger] after.tabs[i]).id != (#[trigger] after.tabs[j]).id by {
        assert(after.tabs[i].id == m.tabs[i].id);
        assert(after.tabs[j].id == m.tabs[j].id);
    }
}

/// Whether every picture has a number of its own that was given out already.
pub open spec fn sources_differ(m: Model) -> bool {
    &&& forall|i: int|
        0 <= i < m.tabs.len() && (#[trigger] m.tabs[i]).display is Some
            ==> m.tabs[i].display->0.source_id < m.next_source
    &&& forall|i: int, j: int|
        0 <= i < j < m.tabs.len() && (#[trigger] m.tabs[i]).display is Some && (
        #[trigger] m.tabs[j]).display is Some ==> m.tabs[i].display->0.source_id
            != m.tabs[j].display->0.source_id
}

/// Whether a picture with the given number is shown in one of the tabs.
pub open spec fn has_picture(m: Model, source_id: u64) -> bool {
    exists|i: int|
        0 <= i < m.tabs.len() && (#[trigger] m.tabs[i]).display is Some
            && m.tabs[i].display->0.source_id == source_id
}

/// No two pictures ever have the same number, as long as there are numbers left. A picture that
/// was not there before a message has a number that was not given out before, and numbers that
/// were given out stay so.
#[verifier::rlimit(100)]
pub proof fn pictures_keep_their_own_numbers(m: Model, message: Message, source_id: u64)
    requires
        m.wf(),
        m.accepts(message),
        sources_differ(m),
        m.next_source < u64::MAX,
    ensures
        sources_differ(m.after(message)),
        m.next_source <= m.after(message).next_source,
        has_picture(m.after(message), source_id) ==> has_picture(m, source_id) || m.next_source
            <= source_id < m.after(message).next_source,
{
    let after = m.after(message);
    match message {
        Message::ConnectionMessage(id, event) => {
            if let Some(i) = tab_of(m.tabs, id) {
                assert(is_first(m.tabs, id, i));
                if let Event::Frames(frames) = event@ {
                    let picture = m.tabs[i].picture(m.next_source);
                    let start = Display { status: None, ..picture };
                    lemma_updates_keep_source(start.batch_start(), frames, frames.len() as int);
                }
                lemma_one_picture(m, after, i, source_id);
            }
        },
        Message::CloseTab(index) => {
            lemma_closed_sources(m, index as int, source_id);
        },
        Message::NewSshTab => {
            lemma_opened_sources(m, after, source_id);
        },
        Message::OpenProtocolTab(_) => {
            lemma_opened_sources(m, after, source_id);
        },
        Message::OpenSettingsTab(_) => {
            lemma_opened_sources(m, after, source_id);
        },
        Message::ConnectRdp => {
            lemma_one_picture(m, after, m.active, source_id);
        },
        Message::ConnectVnc => {
            lemma_one_picture(m, after, m.active, source_id);
        },
        _ => {
            lemma_quiet_pictures(m, message);
            lemma_one_picture(m, after, m.active, source_id);
        },
    }
}

proof fn lemma_updates_keep_source(display: Display, updates: Seq<Update>, n: int)
    ensures
        display.applied_all(updates, n).source_id == display.source_id,
    decreases n,
{
    if n > 0 {
        lemma_updates_keep_source(display, updates, n - 1);
    }
}

/// All messages that start no picture change at most the tab that is shown, and keep the number of
/// its picture.
#[verifier::rlimit(100)]
proof fn lemma_quiet_pictures(m: Model, message: Message)
    requires
        m.wf(),
        !(message is ConnectionMessage),
        !(message is CloseTab),
        !(message is NewSshTab),
        !(message is OpenProtocolTab),
        !(message is OpenSettingsTab),
        !(message is ConnectRdp),
        !(message is ConnectVnc),
    ensures
        m.after(message).next_source == m.next_source,
        m.after(message).tabs == m.tabs || m.after(message).tabs == m.tabs.update(
            m.active,
            m.after(message).tabs[m.active],
        ),
        m.after(message).tabs[m.active].display is Some ==> m.tabs[m.active].display is Some
            && m.after(message).tabs[m.active].display->0.source_id
            == m.tabs[m.active].display->0.source_id,
{
}

/// Where only tab `k` changed, and has its old number, a new one, or no picture, the numbers still
/// differ.
proof fn lemma_one_picture(m: Model, after: Model, k: int, source_id: u64)
    requires
        sources_differ(m),
        0 <= k < m.tabs.len(),
        after.tabs == m.tabs || after.tabs == m.tabs.update(k, after.tabs[k]),
        m.next_source <= after.next_source,
        after.tabs[k].display is Some ==> ({
            let number = after.tabs[k].display->0.source_id;
            ||| m.tabs[k].display is Some && number == m.tabs[k].display->0.source_id
            ||| m.next_source <= number < after.next_source
        }),
    ensures
        sources_differ(after),
        has_picture(after, source_id) ==> has_picture(m, source_id) || m.next_source <= source_id
            < after.next_source,
{
    assert forall|i: int| 0 <= i < after.tabs.len() && i != k implies (#[trigger] after.tabs[i])
        == m.tabs[i] by {}
    assert forall|i: int, j: int|
        0 <= i < j < after.tabs.len() && (#[trigger] after.tabs[i]).display is Some && (
        #[trigger] after.tabs[j]).display is Some implies after.tabs[i].display->0.source_id
        != after.tabs[j].display->0.source_id by {
        assert(m.tabs[i].display is Some || i == k);
        assert(m.tabs[j].display is Some || j == k);
    }
    if has_picture(after, source_id) {
        let i = choose|i: int|
            0 <= i < after.tabs.len() && (#[trigger] after.tabs[i]).display is Some
                && after.tabs[i].display->0.source_id == source_id;
        assert(m.tabs[i].display is Some || i == k);
    }
}

proof fn lemma_closed_sources(m: Model, index: int, source_id: u64)
    requires
        sources_differ(m),
        m.tabs.len() <= 1 || 0 <= index < m.tabs.len(),
    ensures
        sources_differ(m.closed(index)),
        has_picture(m.closed(index), source_id) ==> has_picture(m, source_id),
{
    if m.tabs.len() > 1 {
        let after = m.closed(index);
        assert forall|i: int| 0 <= i < after.tabs.len() implies (#[trigger] after.tabs[i])
            == m.tabs[if i < index {
            i
        } else {
            i + 1
        }] by {}
        assert forall|i: int, j: int|
            0 <= i < j < after.tabs.len() && (#[trigger] after.tabs[i]).display is Some && (
            #[trigger] after.tabs[j]).display is Some implies after.tabs[i].display->0.source_id
            != after.tabs[j].display->0.source_id by {}
    }
}

proof fn lemma_opened_sources(m: Model, after: Model, source_id: u64)
    requires
        sources_differ(m),
        after.tabs.len() == m.tabs.len() + 1,
        after.tabs == m.tabs.push(after.tabs[m.tabs.len() as int]),
        after.tabs[m.tabs.len() as int].display is None,
        after.next_source == m.next_source,
    ensures
        sources_differ(after),
        has_picture(after, source_id) ==> has_picture(m, source_id),
{
    assert forall|i: int| 0 <= i < m.tabs.len() implies (#[trigger] after.tabs[i]) == m.tabs[i] by {
    }
}

/// An event of a connection changes its own session and no other.
pub proof fn events_reach_their_session_only(m: Model, id: u64, event: ConnectionEvent, k: int)
    requires
        0 <= k < m.tabs.len(),
        m.tabs[k].id != id,
    ensures
        m.after(Message::ConnectionMessage(id, event)).tabs.len() == m.tabs.len(),
        m.after(Message::ConnectionMessage(id, event)).tabs[k] == m.tabs[k],
{
    if let Some(i) = tab_of(m.tabs, id) {
        assert(is_first(m.tabs, id, i));
    }
}

/// Events of a session that was closed change nothing and ask for nothing.
pub proof fn closed_sessions_hear_nothing(m: Model, id: u64, event: ConnectionEvent)
    requires
        forall|i: int| 0 <= i < m.tabs.len() ==> (#[trigger] m.tabs[i]).id != id,
    ensures
        m.after(Message::ConnectionMessage(id, event)) == m,
        m.effects(Message::ConnectionMessage(id, event)) == Seq::<Fx>::empty(),
{
    assert forall|i: int| !is_first(m.tabs, id, i) by {}
}

/// After a connection has ended, what is typed in its session is handed to no connection.
pub proof fn ended_connections_get_nothing(m: Model, event: ConnectionEvent, bytes: Vec<u8>)
    requires
        m.wf(),
        event@ is Disconnected || event@ is Error,
        tab_of(m.tabs, m.current().id) == Some(m.active),
    ensures
        ({
            let after = m.after(Message::ConnectionMessage(m.current().id, event));
            &&& after.current().sender is None
            &&& forall|i: int|
                0 <= i < after.effects(Message::TerminalInput(bytes)).len()
                    ==> #[trigger] after.effects(Message::TerminalInput(bytes))[i] == Fx::Fault
        }),
{
}

/// What is typed goes to the connection of the session that is shown, once and unchanged, and to
/// nothing else.
pub proof fn typing_goes_to_the_connection(m: Model, channel: u64, bytes: Vec<u8>)
    requires
        m.wf(),
        m.current().sender == Some(channel),
    ensures
        m.effects(Message::TerminalInput(bytes)) == seq![
            Fx::Send { channel, input: Input::Data(bytes@) },
        ],
        m.after(Message::TerminalInput(bytes)) == m,
{
    assert(m.tabs.update(m.active, m.current()) =~= m.tabs);
}

/// Opening a tab and closing it again leaves the tabs as they were.
pub proof fn opened_tabs_close(m: Model)
    requires
        m.wf(),
        m.tabs.len() < usize::MAX,
    ensures
        m.after(Message::NewSshTab).after(Message::CloseTab(m.tabs.len() as usize)).tabs == m.tabs,
{
    let opened = m.after(Message::NewSshTab);
    assert(opened.tabs.remove(m.tabs.len() as int) =~= m.tabs);
}

/// The last tab cannot be closed.
pub proof fn the_last_tab_stays(m: Model, index: usize)
    requires
        m.tabs.len() == 1,
    ensures
        m.after(Message::CloseTab(index)) == m,
        m.effects(Message::CloseTab(index)) == Seq::<Fx>::empty(),
{
}

/// The tabulator leads to a field of the form, and the tabulator with the shift key leads back.
pub proof fn tabulator_walks_the_form(m: Model)
    requires
        fields_of(m.welcome).len() > 0,
        0 <= m.focused < fields_of(m.welcome).len(),
    ensures
        ({
            let forward = m.tabbed(false);
            let back = m.tabbed(true);
            &&& 0 <= forward.focused < fields_of(m.welcome).len()
            &&& 0 <= back.focused < fields_of(m.welcome).len()
            &&& forward.tabbed(true) == m
            &&& back.tabbed(false) == m
        }),
{
    let n = fields_of(m.welcome).len() as int;
    if m.focused + 1 < n {
        vstd::arithmetic::div_mod::lemma_small_mod((m.focused + 1) as nat, n as nat);
    } else {
        assert(n % n == 0) by (nonlinear_arith)
            requires
                n > 0,
        ;
    }
    if m.focused == 0 {
        assert(n % n == 0) by (nonlinear_arith)
            requires
                n > 0,
        ;
    } else {
        vstd::arithmetic::div_mod::lemma_small_mod(m.focused as nat, n as nat);
    }
}

/// A menu that is chosen twice is closed.
pub proof fn menus_toggle(m: Model, menu: Seq<char>)
    requires
        m.menu is None,
    ensures
        m.with_menu(menu).with_menu(menu) == m,
{
}

/// A setting that is changed is stored, and what is stored gives back the settings.
pub proof fn changed_settings_are_kept(m: Model, key: crate::app::model::SettingsToggleKey)
    ensures
        m.effects(Message::ToggleSettingsCheckbox(key)) == seq![Fx::SaveSettings],
        ({
            let after = m.after(Message::ToggleSettingsCheckbox(key));
            match read(stored(after.settings)) {
                Ok(reading) => reading.settings == after.settings,
                Err(_) => false,
            }
        }),
{
    stored_settings_read_back(m.after(Message::ToggleSettingsCheckbox(key)).settings);
}

} // verus!
