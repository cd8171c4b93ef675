//! Which key events go to a remote desktop, and as what.
use crate::connection::keyboard::{map_key_to_rdp_scancode, scancode, Code, Key, Modifiers, Named};
use crate::connection::types::RemoteInput;
use vstd::prelude::*;

verus! {

/// What becomes of a key event.
#[derive(Debug, Clone, Copy, PartialEq, Eq, Structural)]
pub enum RoutedKeyEvent {
    Ignore,
    SyncIndicators,
    Input(RemoteInput),
}

/// Whether a key event is that of a lock key, by its place or by its meaning.
pub open spec fn is_lock_key(physical_key: Option<Code>, key: Key) -> bool {
    ||| physical_key == Some(Code::CapsLock)
    ||| physical_key == Some(Code::NumLock)
    ||| physical_key == Some(Code::ScrollLock)
    ||| key == Key::Named(Named::CapsLock)
    ||| key == Key::Named(Named::NumLock)
    ||| key == Key::Named(Named::ScrollLock)
}

/// The scancode input of a key that has a scancode.
pub open spec fn scancode_input(physical_key: Option<Code>, down: bool) -> Option<RemoteInput> {
    match physical_key {
        Some(code) => match scancode(code) {
            Some((code, extended)) => Some(RemoteInput::KeyboardScancode { code, extended, down }),
            None => None,
        },
        None => None,
    }
}

/// The input for the first character of a text, where 16 bits hold it.
pub open spec fn unicode_input(text: Seq<char>, down: bool) -> Option<RemoteInput> {
    if text.len() > 0 && text[0] as int <= 0xffff {
        Some(RemoteInput::KeyboardUnicode { codepoint: text[0] as u16, down })
    } else {
        None
    }
}

/// What a pressed key becomes: lock keys wait for their release, known keys go by scancode, and
/// others by the text that they give.
pub open spec fn pressed(key: Key, text: Option<Seq<char>>, physical_key: Option<Code>)
    -> RoutedKeyEvent {
    if is_lock_key(physical_key, key) {
        RoutedKeyEvent::Ignore
    } else if scancode_input(physical_key, true) is Some {
        RoutedKeyEvent::Input(scancode_input(physical_key, true)->0)
    } else if text is Some && unicode_input(text->0, true) is Some {
        RoutedKeyEvent::Input(unicode_input(text->0, true)->0)
    } else {
        RoutedKeyEvent::Ignore
    }
}

/// What a released key becomes: a lock key calls for the lock state to be sent, known keys go by
/// scancode, and others by the character that they stand for.
pub open spec fn released(key: Key, physical_key: Option<Code>) -> RoutedKeyEvent {
    if is_lock_key(physical_key, key) {
        RoutedKeyEvent::SyncIndicators
    } else if scancode_input(physical_key, false) is Some {
        RoutedKeyEvent::Input(scancode_input(physical_key, false)->0)
    } else if key is Character && unicode_input(key->Character_0@, false) is Some {
        RoutedKeyEvent::Input(unicode_input(key->Character_0@, false)->0)
    } else {
        RoutedKeyEvent::Ignore
    }
}

/// The two inputs, down and up, for each character of a text that 16 bits hold.
pub open spec fn typed(text: Seq<char>) -> Seq<RemoteInput>
    decreases text.len(),
{
    if text.len() == 0 {
        Seq::empty()
    } else {
        let before = typed(text.drop_last());
        let c = text.last();
        if c as int > 0xffff {
            before
        } else {
            before.push(
                RemoteInput::KeyboardUnicode { codepoint: c as u16, down: true },
            ).push(RemoteInput::KeyboardUnicode { codepoint: c as u16, down: false })
        }
    }
}

/// Whether a key event is that of a lock key.
fn is_lock_key_event(physical_key: Option<Code>, key: &Key) -> (b: bool)
    ensures
        b == is_lock_key(physical_key, *key),
{
    if let Some(code) = physical_key {
        if code == Code::CapsLock || code == Code::NumLock || code == Code::ScrollLock {
            return true;
        }
    }
    match key {
        Key::Named(named) => *named == Named::CapsLock || *named == Named::NumLock || *named
            == Named::ScrollLock,
        _ => false,
    }
}

/// The input for the first character of a text, where 16 bits hold it.
fn first_character_input(text: &str, down: bool) -> (r: Option<RemoteInput>)
    ensures
        r == unicode_input(text@, down),
{
    if text.unicode_len() == 0 {
        return None;
    }
    let codepoint: u32 = text.get_char(0) as u32;
    if codepoint <= 0xffff {
        Some(RemoteInput::KeyboardUnicode { codepoint: codepoint as u16, down })
    } else {
        None
    }
}

/// An optional text as a mathematical value.
pub open spec fn text_view(text: Option<&str>) -> Option<Seq<char>> {
    match text {
        Some(s) => Some(s@),
        None => None,
    }
}

/// Decides what a pressed key becomes.
pub fn route_key_pressed(key: &Key, text: Option<&str>, physical_key: Option<Code>) -> (r:
    RoutedKeyEvent)
    ensures
        r == pressed(*key, text_view(text), physical_key),
{
    if is_lock_key_event(physical_key, key) {
        return RoutedKeyEvent::Ignore;
    }
    if let Some((code, extended)) = map_key_to_rdp_scancode(physical_key) {
        return RoutedKeyEvent::Input(
            RemoteInput::KeyboardScancode { code, extended, down: true },
        );
    }
    if let Some(value) = text {
        if let Some(input) = first_character_input(value, true) {
            return RoutedKeyEvent::Input(input);
        }
    }
    RoutedKeyEvent::Ignore
}

/// Decides what a released key becomes.
pub fn route_key_released(key: &Key, physical_key: Option<Code>) -> (r: RoutedKeyEvent)
    ensures
        r == released(*key, physical_key),
{
    if is_lock_key_event(physical_key, key) {
        return RoutedKeyEvent::SyncIndicators;
    }
    if let Some((code, extended)) = map_key_to_rdp_scancode(physical_key) {
        return RoutedKeyEvent::Input(
            RemoteInput::KeyboardScancode { code, extended, down: false },
        );
    }
    if let Key::Character(value) = key {
        if let Some(input) = first_character_input(value.as_str(), false) {
            return RoutedKeyEvent::Input(input);
        }
    }
    RoutedKeyEvent::Ignore
}

/// Whether a scancode means another key without the number lock.
pub fn is_numlock_conflict_scancode(code: u8) -> (b: bool)
    ensures
        b == (0x47 <= code <= 0x53 && code != 0x4a && code != 0x4e),
{
    0x47 <= code && code <= 0x53 && code != 0x4a && code != 0x4e
}

/// Whether a key is the one that stands for the secure attention key.
pub fn is_remote_secure_attention_key(physical_key: Option<Code>) -> (b: bool)
    ensures
        b == (physical_key == Some(Code::End)),
{
    match physical_key {
        Some(code) => code == Code::End,
        None => false,
    }
}

/// Whether a key event is the shortcut for the secure attention sequence.
pub fn is_remote_secure_attention_shortcut(physical_key: Option<Code>, modifiers: Modifiers) -> (b:
    bool)
    ensures
        b == (modifiers.control && modifiers.alt && physical_key == Some(Code::End)),
{
    modifiers.control && modifiers.alt && is_remote_secure_attention_key(physical_key)
}

/// The inputs of the secure attention sequence: the delete key, down or up.
pub fn remote_secure_attention_inputs(down: bool) -> (inputs: Vec<RemoteInput>)
    ensures
        inputs@ == seq![RemoteInput::KeyboardScancode { code: 0x53, extended: true, down }],
{
    let inputs: Vec<RemoteInput> = vec![
        RemoteInput::KeyboardScancode { code: 0x53, extended: true, down },
    ];
    assert(inputs@ =~= seq![RemoteInput::KeyboardScancode { code: 0x53, extended: true, down }]);
    inputs
}

/// The inputs that type a text.
pub fn unicode_inputs_for_text(text: &str) -> (inputs: Vec<RemoteInput>)
    ensures
        inputs@ == typed(text@),
{
    let len: usize = text.unicode_len();
    let mut inputs: Vec<RemoteInput> = Vec::new();
    let mut i: usize = 0;
    assert(text@.take(0) =~= Seq::empty());
    while i < len
        invariant
            i <= len,
            len == text@.len(),
            inputs@ == typed(text@.take(i as int)),
        decreases len - i,
    {
        let codepoint: u32 = text.get_char(i) as u32;
        assert(text@.take(i + 1).drop_last() =~= text@.take(i as int));
        if codepoint <= 0xffff {
            inputs.push(
                RemoteInput::KeyboardUnicode { codepoint: codepoint as u16, down: true },
            );
            inputs.push(
                RemoteInput::KeyboardUnicode { codepoint: codepoint as u16, down: false },
            );
        }
        i = i + 1;
    }
    assert(text@.take(len as int) =~= text@);
    inputs
}

/// A key that is pressed and released goes to the remote side with the same scancode both times.
pub proof fn press_and_release_match(
    key: Key,
    text: Option<Seq<char>>,
    physical_key: Option<Code>,
    code: u8,
    extended: bool,
)
    ensures
        pressed(key, text, physical_key) == RoutedKeyEvent::Input(
            RemoteInput::KeyboardScancode { code, extended, down: true },
        ) <==> released(key, physical_key) == RoutedKeyEvent::Input(
            RemoteInput::KeyboardScancode { code, extended, down: false },
        ),
{
}

/// A lock key never reaches the remote side as a key: its release asks for the lock state.
pub proof fn lock_keys_are_synchronized(key: Key, text: Option<Seq<char>>, physical_key: Option<Code>)
    requires
        is_lock_key(physical_key, key),
    ensures
        pressed(key, text, physical_key) == RoutedKeyEvent::Ignore,
        released(key, physical_key) == RoutedKeyEvent::SyncIndicators,
{
}

/// Typed text comes as presses, each followed by its release.
pub proof fn typed_text_alternates(text: Seq<char>, i: int)
    requires
        0 <= i,
        2 * i < typed(text).len(),
    ensures
        typed(text).len() % 2 == 0,
        typed(text)[2 * i] matches RemoteInput::KeyboardUnicode { codepoint, down }
            && down && typed(text)[2 * i + 1] == (RemoteInput::KeyboardUnicode {
            codepoint,
            down: false,
        }),
    decreases text.len(),
{
    if text.len() > 0 {
        let before = typed(text.drop_last());
        if before.len() > 0 {
            lemma_typed_even(text.drop_last());
        }
        if 2 * i < before.len() {
            typed_text_alternates(text.drop_last(), i);
        }
        lemma_typed_even(text);
    }
}

proof fn lemma_typed_even(text: Seq<char>)
    ensures
        typed(text).len() % 2 == 0,
    decreases text.len(),
{
    if text.len() > 0 {
        lemma_typed_even(text.drop_last());
    }
}

} // verus!
