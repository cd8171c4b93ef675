//! What is heard of the window system's events.
use crate::app::model::SessionKind;
use crate::app::state::Model;
use crate::app::subscription::{
    form_heard, key_bytes, menu_heard, remote_heard, terminal_heard, window_heard, Heard, UiEvent,
};
use crate::connection::keyboard::{Code, Key, Modifiers, Named};
use crate::connection::types::{RemoteInput, RemoteMouseButton};
use vstd::prelude::*;
use vstd::utf8::encode_utf8;

verus! {

/// A key with a name sends the bytes that terminals have for it, whatever its text: a control code, or
/// a sequence that starts with escape and a bracket.
pub proof fn named_keys_send_their_sequence(text: Option<Seq<char>>)
    ensures
        ({
            let sent = |n: Named| key_bytes(Key::Named(n), text, false);
            let arrow = |letter: u8| seq![27u8, 91u8, letter];
            let edit = |number: u8| seq![27u8, 91u8, number, 126u8];
            &&& sent(Named::Enter) == seq![13u8]
            &&& sent(Named::Backspace) == seq![127u8]
            &&& sent(Named::Tab) == seq![9u8]
            &&& sent(Named::Escape) == seq![27u8]
            &&& sent(Named::ArrowUp) == arrow(65)
            &&& sent(Named::ArrowDown) == arrow(66)
            &&& sent(Named::ArrowRight) == arrow(67)
            &&& sent(Named::ArrowLeft) == arrow(68)
            &&& sent(Named::End) == arrow(70)
            &&& sent(Named::Home) == arrow(72)
            &&& sent(Named::Delete) == edit(51)
            &&& sent(Named::PageUp) == edit(53)
            &&& sent(Named::PageDown) == edit(54)
        }),
{
}

/// Digits and signs of the number pad are typed as they are, other keys by their text where it is
/// ASCII; other texts are left to the input method.
pub proof fn texts_of_keys_are_typed(key: Key, c: char)
    requires
        !(key is Named),
    ensures
        ({
            let text = seq![c];
            let n = c as int;
            let pad = 48 <= n <= 57 || n == 42 || n == 43 || n == 45 || n == 46 || n == 47;
            &&& n <= 127 ==> key_bytes(key, Some(text), false) == encode_utf8(text)
            &&& n > 127 ==> key_bytes(key, Some(text), false).len() == 0
            &&& pad ==> key_bytes(Key::Named(Named::Home), Some(text), true) == encode_utf8(text)
            &&& !pad ==> key_bytes(Key::Named(Named::Home), Some(text), true) == seq![
                27u8,
                91u8,
                72u8,
            ]
            &&& key_bytes(key, None, false).len() == 0
        }),
{
    let text = seq![c];
    assert(text[0] == c);
    let n = c as int;
    let pad = 48 <= n <= 57 || n == 42 || n == 43 || n == 45 || n == 46 || n == 47;
    if pad {
        assert(crate::app::subscription::is_numpad_char(c));
        assert(crate::app::subscription::is_numpad_text(text));
    } else {
        assert(!crate::app::subscription::is_numpad_char(text[0]));
    }
    assert(crate::app::subscription::is_ascii_text(text) == (n <= 127));
}

/// A remote desktop hears of the moves of the mouse, and of its buttons and wheels what nothing else
/// took. Of a turn both ways it hears the vertical one.
pub proof fn desktops_hear_the_mouse(
    x: u16,
    y: u16,
    button: RemoteMouseButton,
    horizontal: i16,
    vertical: i16,
    taken: bool,
)
    ensures
        remote_heard(UiEvent::CursorMoved { x, y }, taken) == Some(
            Heard::RemoteInput(RemoteInput::MouseMove { x, y }),
        ),
        remote_heard(UiEvent::ButtonPressed(button), false) == Some(
            Heard::RemoteInput(RemoteInput::MouseButton { button, down: true }),
        ),
        remote_heard(UiEvent::ButtonReleased(button), false) == Some(
            Heard::RemoteInput(RemoteInput::MouseButton { button, down: false }),
        ),
        remote_heard(UiEvent::ButtonPressed(button), true) is None,
        remote_heard(UiEvent::ButtonReleased(button), true) is None,
        ({
            let wheel = UiEvent::WheelScrolled { horizontal, vertical };
            &&& remote_heard(wheel, true) is None
            &&& vertical != 0 ==> remote_heard(wheel, false) == Some(
                Heard::RemoteInput(RemoteInput::MouseWheel { delta: vertical }),
            )
            &&& vertical == 0 && horizontal != 0 ==> remote_heard(wheel, false) == Some(
                Heard::RemoteInput(RemoteInput::MouseHorizontalWheel { delta: horizontal }),
            )
            &&& vertical == 0 && horizontal == 0 ==> remote_heard(wheel, false) is None
        }),
{
}

/// Control, alt and the end key stand for the secure attention sequence on a remote desktop, down and
/// up.
pub proof fn attention_has_a_shortcut(
    key: Key,
    text: Option<String>,
    code: Option<Code>,
    numpad: bool,
    modifiers: Modifiers,
    taken: bool,
)
    ensures
        ({
            let down = remote_heard(
                UiEvent::KeyPressed { key, text, physical_key: code, numpad, modifiers },
                taken,
            );
            let up = remote_heard(
                UiEvent::KeyReleased { key, physical_key: code, modifiers },
                taken,
            );
            let shortcut = modifiers.control && modifiers.alt && code == Some(Code::End);
            &&& (down == Some(Heard::SecureAttention(true))) == shortcut
            &&& (up == Some(Heard::SecureAttention(false))) == shortcut
        }),
{
}

/// Every page hears the end of a drag and the changes of the window. The welcome page hears the
/// tabulator with its shift key, and escape as the tabulator; an open menu hears a click that nothing
/// else took.
pub proof fn pages_hear_the_window(
    key: Key,
    text: Option<String>,
    code: Option<Code>,
    numpad: bool,
    modifiers: Modifiers,
    width: u32,
    height: u32,
)
    ensures
        window_heard(UiEvent::ButtonReleased(RemoteMouseButton::Left)) == Some(
            Heard::ResizeFinished,
        ),
        window_heard(UiEvent::ButtonReleased(RemoteMouseButton::Right)) is None,
        window_heard(UiEvent::WindowResized { width, height }) == Some(
            Heard::WindowSizeChanged(width, height),
        ),
        window_heard(UiEvent::WindowFocused) == Some(Heard::SyncIndicators),
        window_heard(UiEvent::WindowUnfocused) == Some(Heard::ReleaseModifiers),
        ({
            let heard = form_heard(
                UiEvent::KeyPressed { key, text, physical_key: code, numpad, modifiers },
            );
            &&& key == Key::Named(Named::Tab) ==> heard == Some(Heard::TabPressed(modifiers.shift))
            &&& key == Key::Named(Named::Escape) ==> heard == Some(Heard::TabPressed(false))
            &&& key != Key::Named(Named::Tab) && key != Key::Named(Named::Escape) ==> heard is None
        }),
        menu_heard(UiEvent::ButtonPressed(RemoteMouseButton::Left), false) == Some(
            Heard::CloseMenuDeferred,
        ),
        menu_heard(UiEvent::ButtonPressed(RemoteMouseButton::Left), true) is None,
        menu_heard(UiEvent::ButtonPressed(RemoteMouseButton::Right), false) is None,
{
}

/// A terminal types the bytes of a key, but for copying, pasting and escaping, which have a meaning of
/// their own. Composed text is heard as it is.
#[verifier::rlimit(40)]
pub proof fn terminals_hear_keys(
    key: Key,
    code: Option<Code>,
    numpad: bool,
    modifiers: Modifiers,
    c: char,
    text: String,
)
    requires
        key matches Key::Character(t) ==> t@ == seq![c],
    ensures
        ({
            let heard = terminal_heard(
                UiEvent::KeyPressed {
                    key,
                    text: Some(text),
                    physical_key: code,
                    numpad,
                    modifiers,
                },
            );
            let own = key == Key::Named(Named::Escape) || (key is Character && modifiers.control
                && (c == 'c' || c == 'C' || c == 'v' || c == 'V'));
            let bytes = key_bytes(key, Some(text@), numpad);
            &&& own ==> heard == Some(Heard::TryHandleKey(key, modifiers))
            &&& !own && bytes.len() > 0 ==> heard == Some(Heard::TerminalInput(bytes))
            &&& !own && bytes.len() == 0 ==> heard is None
            &&& terminal_heard(UiEvent::ImePreedit(text)) == Some(Heard::ImePreedit(text@))
            &&& terminal_heard(UiEvent::ImeCommit(text)) == Some(Heard::ImeCommit(text@))
        }),
{
    reveal_strlit("c");
    reveal_strlit("C");
    reveal_strlit("v");
    reveal_strlit("V");
    assert("c"@ =~= seq!['c']);
    assert("C"@ =~= seq!['C']);
    assert("v"@ =~= seq!['v']);
    assert("V"@ =~= seq!['V']);
    assert(seq![c][0] == c);
    assert(seq!['c'][0] == 'c' && seq!['C'][0] == 'C' && seq!['v'][0] == 'v' && seq!['V'][0]
        == 'V');
}

/// The page that is shown hears what is meant for it: the form on the welcome page, keys in a
/// terminal, and keys and the mouse on a remote desktop. The window is heard of on every page, and a
/// new one as long as it is not known.
#[verifier::rlimit(40)]
pub proof fn pages_hear_what_is_meant_for_them(m: Model, event: UiEvent, taken: bool, h: Heard)
    ensures
        ({
            let kind = m.current().kind;
            let menu = m.menu is Some && m.menu->0.len() > 0;
            m.hears(event, taken).contains(h) == ({
                ||| window_heard(event) == Some(h)
                ||| kind == SessionKind::Welcome && form_heard(event) == Some(h)
                ||| kind == SessionKind::Terminal && terminal_heard(event) == Some(h)
                ||| kind != SessionKind::Welcome && kind != SessionKind::Terminal && remote_heard(
                    event,
                    taken,
                ) == Some(h)
                ||| menu && menu_heard(event, taken) == Some(h)
                ||| m.window is None && (event matches UiEvent::WindowOpened(id) && h
                    == Heard::WindowIdCaptured(id))
            })
        }),
{
    let kind = m.current().kind;
    let none = Seq::<Heard>::empty();
    let page = if kind == SessionKind::Welcome {
        form_heard(event)
    } else if kind == SessionKind::Terminal {
        terminal_heard(event)
    } else {
        remote_heard(event, taken)
    };
    let w = window_heard(event);
    let p = m.menu_part(event, taken);
    let o = m.opened_part(event);
    lemma_also(none, page, h);
    lemma_also(crate::app::subscription::also(none, page), w, h);
    lemma_also(crate::app::subscription::also(crate::app::subscription::also(none, page), w), p, h);
    lemma_also(none, w, h);
    lemma_also(crate::app::subscription::also(none, w), p, h);
    lemma_also(crate::app::subscription::also(crate::app::subscription::also(none, w), p), page, h);
    let first = crate::app::subscription::also(
        crate::app::subscription::also(crate::app::subscription::also(none, page), w),
        p,
    );
    let second = crate::app::subscription::also(
        crate::app::subscription::also(crate::app::subscription::also(none, w), p),
        page,
    );
    lemma_also(first, o, h);
    lemma_also(second, o, h);
}

proof fn lemma_also(before: Seq<Heard>, more: Option<Heard>, h: Heard)
    ensures
        crate::app::subscription::also(before, more).contains(h) == (before.contains(h) || more
            == Some(h)),
{
    let after = crate::app::subscription::also(before, more);
    if let Some(x) = more {
        assert(after[before.len() as int] == x);
        if before.contains(h) {
            let i = choose|i: int| 0 <= i < before.len() && before[i] == h;
            assert(after[i] == h);
        }
        if after.contains(h) {
            let i = choose|i: int| 0 <= i < after.len() && after[i] == h;
            if i < before.len() {
                assert(before[i] == h);
            }
        }
    }
}

} // verus!
