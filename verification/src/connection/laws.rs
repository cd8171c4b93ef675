//! What keys, links and streams come to.
use crate::connection::keyboard::{scancode, Code, Key, Named};
use crate::connection::link::{asked, next_of, told, Ask, LinkKind, LinkNext, Outcome};
use crate::connection::merge::Merger;
use crate::connection::remote_input_policy::{pressed, released, typed, RoutedKeyEvent};
use crate::connection::serial::{
    data_bits_named, parity_named, stop_bits_named, DataBits, Parity, StopBits,
};
use crate::connection::telnet::{
    can_step, data_until_end, decoder_step, drained, escaped, has_end, received, window_size, Codec,
    Piece, TelnetPiece,
};
use crate::connection::types::{Event, Input, RemoteInput};
use crate::remote_display::display::Update;
use crate::text::{lowered, trimmed};
use crate::text_laws::{all_blank, trimming_takes_white_space};
use vstd::prelude::*;

verus! {

/// The keys of the digits, from 1 on, with the two behind them.
pub open spec fn digit_row() -> Seq<Code> {
    seq![
        Code::Digit1,
        Code::Digit2,
        Code::Digit3,
        Code::Digit4,
        Code::Digit5,
        Code::Digit6,
        Code::Digit7,
        Code::Digit8,
        Code::Digit9,
        Code::Digit0,
        Code::Minus,
        Code::Equal,
        Code::Backspace,
        Code::Tab,
    ]
}

/// The upper row of letters, with the keys behind it.
pub open spec fn upper_row() -> Seq<Code> {
    seq![
        Code::KeyQ,
        Code::KeyW,
        Code::KeyE,
        Code::KeyR,
        Code::KeyT,
        Code::KeyY,
        Code::KeyU,
        Code::KeyI,
        Code::KeyO,
        Code::KeyP,
        Code::BracketLeft,
        Code::BracketRight,
        Code::Enter,
        Code::ControlLeft,
    ]
}

/// The middle row of letters, with the keys behind it.
pub open spec fn middle_row() -> Seq<Code> {
    seq![
        Code::KeyA,
        Code::KeyS,
        Code::KeyD,
        Code::KeyF,
        Code::KeyG,
        Code::KeyH,
        Code::KeyJ,
        Code::KeyK,
        Code::KeyL,
        Code::Semicolon,
        Code::Quote,
        Code::Backquote,
        Code::ShiftLeft,
        Code::Backslash,
    ]
}

/// The lower row of letters, with the keys behind it.
pub open spec fn lower_row() -> Seq<Code> {
    seq![
        Code::KeyZ,
        Code::KeyX,
        Code::KeyC,
        Code::KeyV,
        Code::KeyB,
        Code::KeyN,
        Code::KeyM,
        Code::Comma,
        Code::Period,
        Code::Slash,
        Code::ShiftRight,
        Code::NumpadMultiply,
        Code::AltLeft,
        Code::Space,
    ]
}

/// The first ten function keys.
pub open spec fn function_row() -> Seq<Code> {
    seq![
        Code::F1,
        Code::F2,
        Code::F3,
        Code::F4,
        Code::F5,
        Code::F6,
        Code::F7,
        Code::F8,
        Code::F9,
        Code::F10,
    ]
}

/// The keys of the number pad, row by row from the top.
pub open spec fn number_pad() -> Seq<Code> {
    seq![
        Code::Numpad7,
        Code::Numpad8,
        Code::Numpad9,
        Code::NumpadSubtract,
        Code::Numpad4,
        Code::Numpad5,
        Code::Numpad6,
        Code::NumpadAdd,
        Code::Numpad1,
        Code::Numpad2,
        Code::Numpad3,
        Code::Numpad0,
        Code::NumpadDecimal,
    ]
}

/// Along a row of the keyboard the scancodes count up, from the one of its first key.
pub proof fn scancodes_follow_the_rows(i: int)
    ensures
        scancode(Code::Escape) == Some((1u8, false)),
        0 <= i < 14 ==> scancode(digit_row()[i]) == Some(((0x02 + i) as u8, false)),
        0 <= i < 14 ==> scancode(upper_row()[i]) == Some(((0x10 + i) as u8, false)),
        0 <= i < 14 ==> scancode(middle_row()[i]) == Some(((0x1e + i) as u8, false)),
        0 <= i < 14 ==> scancode(lower_row()[i]) == Some(((0x2c + i) as u8, false)),
        0 <= i < 10 ==> scancode(function_row()[i]) == Some(((0x3b + i) as u8, false)),
        0 <= i < 13 ==> scancode(number_pad()[i]) == Some(((0x47 + i) as u8, false)),
        scancode(Code::F11) == Some((0x57u8, false)),
        scancode(Code::F12) == Some((0x58u8, false)),
        scancode(Code::NumpadComma) == scancode(Code::NumpadDecimal),
{
}

/// A key that stands on the keyboard twice has the scancode of its twin, as an extended one: the
/// arrows and the keys above them that of a key of the number pad, and the right and the number pad's
/// keys that of the left and the main one.
pub proof fn twin_keys_share_their_scancode(a: Code, b: Code)
    requires
        ({
            ||| a == Code::Numpad7 && b == Code::Home
            ||| a == Code::Numpad8 && b == Code::ArrowUp
            ||| a == Code::Numpad9 && b == Code::PageUp
            ||| a == Code::Numpad4 && b == Code::ArrowLeft
            ||| a == Code::Numpad6 && b == Code::ArrowRight
            ||| a == Code::Numpad1 && b == Code::End
            ||| a == Code::Numpad2 && b == Code::ArrowDown
            ||| a == Code::Numpad3 && b == Code::PageDown
            ||| a == Code::Numpad0 && b == Code::Insert
            ||| a == Code::NumpadDecimal && b == Code::Delete
            ||| a == Code::ControlLeft && b == Code::ControlRight
            ||| a == Code::AltLeft && b == Code::AltRight
            ||| a == Code::Enter && b == Code::NumpadEnter
            ||| a == Code::Slash && b == Code::NumpadDivide
        }),
    ensures
        scancode(a) is Some,
        scancode(b) is Some,
        ({
            let (main, main_extended) = scancode(a)->0;
            let (twin, twin_extended) = scancode(b)->0;
            main == twin && !main_extended && twin_extended
        }),
        scancode(Code::SuperLeft) == Some((0x5bu8, true)),
        scancode(Code::SuperRight) == Some((0x5cu8, true)),
        scancode(Code::CapsLock) is None && scancode(Code::NumLock) is None && scancode(
            Code::ScrollLock,
        ) is None && scancode(Code::Other) is None,
{
}

/// A key with a scancode goes by it, another by the first character of its text, where sixteen bits
/// hold it. A lock key is not sent; when it comes up, the lock state is.
pub proof fn keys_go_by_scancode_or_text(key: Key, text: Seq<char>, code: Option<Code>)
    ensures
        ({
            let lock = code == Some(Code::CapsLock) || code == Some(Code::NumLock) || code == Some(
                Code::ScrollLock,
            ) || key == Key::Named(Named::CapsLock) || key == Key::Named(Named::NumLock) || key
                == Key::Named(Named::ScrollLock);
            let known = code is Some && scancode(code->0) is Some;
            let (number, extended) = scancode(code->0)->0;
            let down = pressed(key, Some(text), code);
            let up = released(key, code);
            &&& lock ==> down == RoutedKeyEvent::Ignore && up == RoutedKeyEvent::SyncIndicators
            &&& !lock && known ==> {
                &&& down == RoutedKeyEvent::Input(
                    RemoteInput::KeyboardScancode { code: number, extended, down: true },
                )
                &&& up == RoutedKeyEvent::Input(
                    RemoteInput::KeyboardScancode { code: number, extended, down: false },
                )
            }
            &&& !lock && !known && text.len() > 0 && text[0] as int <= 0xffff ==> down
                == RoutedKeyEvent::Input(
                RemoteInput::KeyboardUnicode { codepoint: text[0] as u16, down: true },
            )
            &&& !lock && !known && (text.len() == 0 || text[0] as int > 0xffff) ==> down
                == RoutedKeyEvent::Ignore
            &&& !lock && !known ==> pressed(key, None, code) == RoutedKeyEvent::Ignore
            &&& !lock && !known && key is Character && key->Character_0@.len() > 0
                && key->Character_0@[0] as int <= 0xffff ==> up == RoutedKeyEvent::Input(
                RemoteInput::KeyboardUnicode {
                    codepoint: key->Character_0@[0] as u16,
                    down: false,
                },
            )
            &&& !lock && !known && !(key is Character) ==> up == RoutedKeyEvent::Ignore
        }),
{
}

/// A text is typed character by character, each down and up, without those that sixteen bits do not
/// hold.
pub proof fn texts_are_typed_in_order(a: Seq<char>, b: Seq<char>, c: char)
    ensures
        typed(a + b) == typed(a) + typed(b),
        c as int > 0xffff ==> typed(seq![c]).len() == 0,
        c as int <= 0xffff ==> typed(seq![c]) == seq![
            RemoteInput::KeyboardUnicode { codepoint: c as u16, down: true },
            RemoteInput::KeyboardUnicode { codepoint: c as u16, down: false },
        ],
    decreases b.len(),
{
    reveal_with_fuel(typed, 2);
    let one = seq![c];
    assert(one.drop_last() =~= Seq::empty());
    assert(one.last() == c);
    if c as int <= 0xffff {
        assert(typed(one) =~= seq![
            RemoteInput::KeyboardUnicode { codepoint: c as u16, down: true },
            RemoteInput::KeyboardUnicode { codepoint: c as u16, down: false },
        ]);
    }
    if b.len() == 0 {
        assert(a + b =~= a);
        assert(typed(a) + typed(b) =~= typed(a));
    } else {
        texts_are_typed_in_order(a, b.drop_last(), c);
        assert((a + b).drop_last() =~= a + b.drop_last());
        assert((a + b).last() == b.last());
        assert(typed(a + b) =~= typed(a) + typed(b));
    }
}

/// Only Telnet changes what is typed, by doubling each byte 255. A size is told in the stream by
/// Telnet, not at all on a serial port, and apart from it by the others. Nothing else is passed on.
pub proof fn inputs_ask_for_writes_and_sizes(
    kind: LinkKind,
    a: Seq<u8>,
    b: Seq<u8>,
    byte: u8,
    cols: u16,
    rows: u16,
    remote: RemoteInput,
)
    ensures
        kind != LinkKind::Telnet ==> asked(kind, Input::Data(a)) == Ask::Write(a),
        asked(LinkKind::Telnet, Input::Data(a)) == Ask::Write(escaped(a)),
        escaped(a + b) == escaped(a) + escaped(b),
        byte != 255 ==> escaped(seq![byte]) == seq![byte],
        escaped(seq![255u8]) == seq![255u8, 255u8],
        asked(LinkKind::Serial, Input::Resize { cols, rows }) == Ask::Nothing,
        asked(LinkKind::Ssh, Input::Resize { cols, rows }) == (Ask::Resize { cols, rows }),
        asked(LinkKind::Local, Input::Resize { cols, rows }) == (Ask::Resize { cols, rows }),
        asked(kind, Input::ReleaseAllModifiers) == Ask::Nothing,
        asked(kind, Input::RemoteInput(remote)) == Ask::Nothing,
    decreases b.len(),
{
    reveal_with_fuel(escaped, 2);
    assert(seq![byte].drop_last() =~= Seq::empty() && seq![byte].last() == byte);
    assert(seq![255u8].drop_last() =~= Seq::empty() && seq![255u8].last() == 255);
    assert(escaped(seq![255u8]) =~= seq![255u8, 255u8]);
    if byte != 255 {
        assert(escaped(seq![byte]) =~= seq![byte]);
    }
    if b.len() == 0 {
        assert(a + b =~= a);
        assert(escaped(a) + escaped(b) =~= escaped(a));
    } else {
        inputs_ask_for_writes_and_sizes(kind, a, b.drop_last(), byte, cols, rows, remote);
        assert((a + b).drop_last() =~= a + b.drop_last());
        assert((a + b).last() == b.last());
        assert(escaped(a + b) =~= escaped(a) + escaped(b));
    }
}

/// The size of a Telnet terminal is told by option 31: its width and then its height, each with the
/// high byte first.
pub proof fn telnet_tells_its_size(cols: u16, rows: u16)
    ensures
        ({
            let ask = asked(LinkKind::Telnet, Input::Resize { cols, rows });
            let m = window_size(cols, rows);
            &&& ask == Ask::Write(m)
            &&& m.len() == 9
            &&& m[0] == 255 && m[1] == 250 && m[2] == 31
            &&& 256 * m[3] + m[4] == cols
            &&& 256 * m[5] + m[6] == rows
            &&& m[7] == 255 && m[8] == 240
        }),
{
}

/// A connection tells of what comes and of how it ends. A failure is told with its reason; Telnet
/// keeps quiet about bytes that hold nothing for the terminal.
#[verifier::rlimit(40)]
pub proof fn outcomes_are_told(kind: LinkKind, channel: u64, data: Seq<u8>, reason: Seq<char>)
    ensures
        told(kind, Outcome::Opened(channel)) == Some(Event::Connected(channel)),
        data.len() > 0 || kind != LinkKind::Telnet ==> told(kind, Outcome::Received(data)) == Some(
            Event::Data(data),
        ),
        data.len() == 0 ==> told(LinkKind::Telnet, Outcome::Received(data)) is None,
        told(kind, Outcome::Closed) == Some(Event::Disconnected),
        told(kind, Outcome::Refused) is Some && told(kind, Outcome::Refused)->0 is Error,
        told(kind, Outcome::Authenticated) is Some && told(kind, Outcome::Authenticated)->0 is Data,
        told(kind, Outcome::Done) == Some(Event::Data(Seq::empty())),
        told(kind, Outcome::OpenFailed(reason)) matches Some(Event::Error(words))
            && reason.is_suffix_of(words),
        kind == LinkKind::Serial ==> (told(kind, Outcome::ReadFailed(reason)) matches Some(
            Event::Error(words),
        ) && reason.is_suffix_of(words)),
        kind != LinkKind::Serial ==> told(kind, Outcome::ReadFailed(reason)) == Some(
            Event::Disconnected,
        ),
        kind == LinkKind::Ssh ==> (told(kind, Outcome::WriteFailed(reason)) matches Some(
            Event::Error(words),
        ) && reason.is_suffix_of(words)),
        kind == LinkKind::Ssh ==> (told(kind, Outcome::ResizeFailed(reason)) matches Some(
            Event::Error(words),
        ) && reason.is_suffix_of(words)),
        kind != LinkKind::Ssh ==> told(kind, Outcome::WriteFailed(reason)) == Some(
            Event::Data(Seq::empty()),
        ),
        kind != LinkKind::Ssh ==> told(kind, Outcome::ResizeFailed(reason)) == Some(
            Event::Data(Seq::empty()),
        ),
        kind == LinkKind::Ssh ==> told(kind, Outcome::InputsClosed) == Some(Event::Disconnected),
        kind != LinkKind::Ssh ==> told(kind, Outcome::InputsClosed) is None,
{
    let open = crate::connection::link::open_failure(kind) + reason;
    assert(open.skip(open.len() - reason.len()) =~= reason);
    let read = "Serial read error: "@ + reason;
    assert(read.skip(read.len() - reason.len()) =~= reason);
    let send = "Send Error: "@ + reason;
    assert(send.skip(send.len() - reason.len()) =~= reason);
    let size = "Resize Error: "@ + reason;
    assert(size.skip(size.len() - reason.len()) =~= reason);
}

/// A connection goes on while bytes come and inputs are done, and is over when a password was refused
/// or no inputs can come. After a failure SSH is over and the others are opened anew; after its end a
/// serial session is over too.
pub proof fn connections_end_or_are_opened_anew(
    kind: LinkKind,
    channel: u64,
    data: Seq<u8>,
    reason: Seq<char>,
)
    ensures
        next_of(kind, Outcome::Opened(channel)) == LinkNext::Open,
        next_of(kind, Outcome::Authenticated) == LinkNext::Open,
        next_of(kind, Outcome::Received(data)) == LinkNext::Open,
        next_of(kind, Outcome::Done) == LinkNext::Open,
        next_of(kind, Outcome::Refused) == LinkNext::Finished,
        next_of(kind, Outcome::InputsClosed) == LinkNext::Finished,
        kind == LinkKind::Ssh ==> {
            &&& next_of(kind, Outcome::OpenFailed(reason)) == LinkNext::Finished
            &&& next_of(kind, Outcome::ReadFailed(reason)) == LinkNext::Finished
            &&& next_of(kind, Outcome::WriteFailed(reason)) == LinkNext::Finished
            &&& next_of(kind, Outcome::ResizeFailed(reason)) == LinkNext::Finished
            &&& next_of(kind, Outcome::Closed) == LinkNext::Finished
        },
        kind != LinkKind::Ssh ==> {
            &&& next_of(kind, Outcome::OpenFailed(reason)) == LinkNext::Reopen
            &&& next_of(kind, Outcome::ReadFailed(reason)) == LinkNext::Reopen
            &&& next_of(kind, Outcome::WriteFailed(reason)) == LinkNext::Open
            &&& next_of(kind, Outcome::ResizeFailed(reason)) == LinkNext::Open
        },
        next_of(LinkKind::Serial, Outcome::Closed) == LinkNext::Finished,
        next_of(LinkKind::Telnet, Outcome::Closed) == LinkNext::Reopen,
        next_of(LinkKind::Local, Outcome::Closed) == LinkNext::Reopen,
{
}

/// What Telnet pieces hold for the terminal comes in their order: the byte of a character, the text of
/// a message, and nothing of what is about options.
pub proof fn telnet_pieces_come_in_order(
    a: Seq<TelnetPiece>,
    b: Seq<TelnetPiece>,
    piece: TelnetPiece,
    byte: u8,
)
    ensures
        received(a + b) == received(a) + received(b),
        piece == TelnetPiece::Character(byte) ==> received(seq![piece]) == seq![byte],
        piece is Other ==> received(seq![piece]).len() == 0,
        piece matches TelnetPiece::Message(text) ==> received(seq![piece])
            == vstd::utf8::encode_utf8(text@),
    decreases b.len(),
{
    reveal_with_fuel(received, 2);
    let one = seq![piece];
    assert(one.drop_last() =~= Seq::empty() && one.last() == piece);
    match piece {
        TelnetPiece::Character(c) => {
            assert(received(one) =~= seq![c]);
        },
        TelnetPiece::Message(text) => {
            assert(received(one) =~= vstd::utf8::encode_utf8(text@));
        },
        TelnetPiece::Other => {},
    }
    if b.len() == 0 {
        assert(a + b =~= a);
        assert(received(a) + received(b) =~= received(a));
    } else {
        telnet_pieces_come_in_order(a, b.drop_last(), piece, byte);
        assert((a + b).drop_last() =~= a + b.drop_last());
        assert((a + b).last() == b.last());
        assert(received(a + b) =~= received(a) + received(b));
    }
}

/// The decoder gets on with ordinary text and with a short beginning. It waits for the end of a
/// subnegotiation whose option has come.
pub proof fn decoding_waits_for_the_end(bytes: Seq<u8>)
    ensures
        bytes.len() < 2 ==> can_step(bytes),
        bytes.len() >= 2 && bytes[0] != 10 && bytes[0] != 255 ==> can_step(bytes),
        bytes.len() >= 2 && bytes[0] == 255 && 251 <= bytes[1] <= 254 ==> can_step(bytes),
        bytes == seq![255u8, 250u8] ==> can_step(bytes),
        bytes.len() == 3 && bytes[0] == 255 && bytes[1] == 250 ==> !can_step(bytes),
        bytes.len() == 4 && bytes[0] == 255 && bytes[1] == 250 && bytes[3] != 240 ==> !can_step(
            bytes,
        ),
{
    reveal_with_fuel(crate::connection::telnet::has_end, 2);
}

/// A serial port's parameters are read from their names, with white space around them and in capitals
/// or not. What is no such name means eight data bits, one stop bit and no parity.
pub proof fn serial_parameters_are_read(before: Seq<char>, word: Seq<char>, after: Seq<char>)
    requires
        all_blank(before),
        all_blank(after),
        word.len() > 0,
        !crate::text_laws::is_blank(word[0]),
        !crate::text_laws::is_blank(word.last()),
    ensures
        ({
            let s = before + word + after;
            &&& word == seq!['5'] ==> data_bits_named(s) == DataBits::Five
            &&& word == seq!['6'] ==> data_bits_named(s) == DataBits::Six
            &&& word == seq!['7'] ==> data_bits_named(s) == DataBits::Seven
            &&& word != seq!['5'] && word != seq!['6'] && word != seq!['7'] ==> data_bits_named(s)
                == DataBits::Eight
            &&& word == seq!['2'] ==> stop_bits_named(s) == StopBits::Two
            &&& word != seq!['2'] ==> stop_bits_named(s) == StopBits::One
            &&& lowered(word) == seq!['o', 'd', 'd'] ==> parity_named(s) == Parity::Odd
            &&& lowered(word) == seq!['e', 'v', 'e', 'n'] ==> parity_named(s) == Parity::Even
            &&& lowered(word) != seq!['o', 'd', 'd'] && lowered(word) != seq!['e', 'v', 'e', 'n']
                ==> parity_named(s) == Parity::Absent
        }),
{
    trimming_takes_white_space(before, word, after);
    assert(trimmed(before + word + after) == word);
    reveal_strlit("5");
    reveal_strlit("6");
    reveal_strlit("7");
    reveal_strlit("2");
    reveal_strlit("odd");
    reveal_strlit("even");
    assert("5"@ =~= seq!['5']);
    assert("6"@ =~= seq!['6']);
    assert("7"@ =~= seq!['7']);
    assert("2"@ =~= seq!['2']);
    assert("odd"@ =~= seq!['o', 'd', 'd']);
    assert("even"@ =~= seq!['e', 'v', 'e', 'n']);
    assert(seq!['5'][0] != seq!['6'][0] && seq!['5'][0] != seq!['7'][0] && seq!['6'][0]
        != seq!['7'][0]);
    assert(seq!['o', 'd', 'd'].len() != seq!['e', 'v', 'e', 'n'].len());
}

/// Frames that follow one another are merged into one event, which goes on when another event comes;
/// that one waits behind it. Where no frames wait, other events pass at once.
pub proof fn frames_are_merged(a: Seq<Update>, b: Seq<Update>, other: Event)
    requires
        !(other is Frames),
    ensures
        ({
            let none = Merger { merged: None, pending: None };
            let one = none.offered(Event::Frames(a));
            let two = one.offered(Event::Frames(b));
            &&& none.passed(Event::Frames(a)) is None
            &&& one.passed(Event::Frames(b)) is None
            &&& two.flushed() == Some(Event::Frames(a + b))
            &&& two.passed(other) == Some(Event::Frames(a + b))
            &&& two.offered(other).pending == Some(other) && two.offered(other).merged is None
            &&& none.passed(other) == Some(other)
            &&& none.offered(other) == none
            &&& none.flushed() is None
        }),
{
}

/// What cannot be decoded yet waits as it came. What is found goes to the terminal, and the rest is
/// decoded behind it.
pub proof fn decoding_goes_on(codec: Codec, pending: Seq<u8>)
    ensures
        ({
            let all = drained(codec, pending);
            let step = decoder_step(codec, pending);
            let goes_on = step.piece is Some && step.pending.len() < pending.len();
            let rest = drained(step.codec, step.pending);
            &&& !can_step(pending) ==> all.stuck && all.bytes.len() == 0 && all.pending == pending
                && all.codec == codec
            &&& can_step(pending) && !goes_on ==> !all.stuck && all.bytes.len() == 0 && all.pending
                == step.pending && all.codec == step.codec
            &&& can_step(pending) && goes_on ==> {
                &&& step.piece == Some(Piece::Other) ==> all.bytes == rest.bytes
                &&& step.piece matches Some(Piece::Character(b)) ==> all.bytes == seq![b]
                    + rest.bytes
                &&& all.stuck == rest.stuck && all.pending == rest.pending && all.codec
                    == rest.codec
            }
        }),
{
    let step = decoder_step(codec, pending);
    let rest = drained(step.codec, step.pending);
    assert(Seq::<u8>::empty() + rest.bytes =~= rest.bytes);
}

/// Whether data hold no byte that starts a command.
pub open spec fn holds_no_command(data: Seq<u8>) -> bool {
    forall|i: int| 0 <= i < data.len() ==> #[trigger] data[i] != 255
}

proof fn lemma_subnegotiation(data: Seq<u8>, after: Seq<u8>)
    requires
        holds_no_command(data),
    ensures
        !has_end(data),
        has_end(data + seq![255u8, 240u8] + after),
        data_until_end(data + seq![255u8, 240u8] + after) == Some(data),
        data_until_end(data + seq![255u8, 255u8] + seq![255u8, 240u8] + after) == Some(
            data.push(255),
        ),
    decreases data.len(),
{
    let ended = data + seq![255u8, 240u8] + after;
    let doubled = data + seq![255u8, 255u8] + seq![255u8, 240u8] + after;
    if data.len() == 0 {
        assert(ended[0] == 255 && ended[1] == 240);
        assert(doubled[0] == 255 && doubled[1] == 255);
        let rest = doubled.skip(2);
        assert(rest =~= seq![255u8, 240u8] + after);
        assert(rest[0] == 255 && rest[1] == 240);
        assert(data_until_end(rest) == Some(Seq::<u8>::empty()));
        assert(seq![255u8] + Seq::<u8>::empty() =~= data.push(255));
        assert(data =~= Seq::empty());
    } else {
        let rest = data.skip(1);
        assert forall|i: int| 0 <= i < rest.len() implies #[trigger] rest[i] != 255 by {
            assert(rest[i] == data[i + 1]);
        }
        lemma_subnegotiation(rest, after);
        assert(ended[0] == data[0] && doubled[0] == data[0]);
        assert(data[0] != 255);
        assert(ended.skip(1) =~= rest + seq![255u8, 240u8] + after);
        assert(doubled.skip(1) =~= rest + seq![255u8, 255u8] + seq![255u8, 240u8] + after);
        assert(seq![data[0]] + rest =~= data);
        assert(seq![data[0]] + rest.push(255) =~= data.push(255));
    }
}

/// A subnegotiation goes up to its end: the data before it are its own, with a doubled byte 255 taken
/// for one. Without its end the decoder waits, and with it the decoder goes on.
pub proof fn subnegotiations_have_an_end(data: Seq<u8>, after: Seq<u8>, option: u8)
    requires
        holds_no_command(data),
        option != 34,
    ensures
        data_until_end(data + seq![255u8, 240u8] + after) == Some(data),
        data_until_end(data + seq![255u8, 255u8] + seq![255u8, 240u8] + after) == Some(
            data.push(255),
        ),
        can_step(seq![255u8, 250u8, option] + (data + seq![255u8, 240u8] + after)),
        !can_step(seq![255u8, 250u8, option] + data),
{
    lemma_subnegotiation(data, after);
    let start = seq![255u8, 250u8, option];
    let whole = start + (data + seq![255u8, 240u8] + after);
    let cut = start + data;
    assert(whole[0] == 255 && whole[1] == 250 && whole[2] == option);
    assert(cut[0] == 255 && cut[1] == 250 && cut[2] == option);
    assert(whole.skip(3) =~= data + seq![255u8, 240u8] + after);
    assert(cut.skip(3) =~= data);
}

} // verus!
