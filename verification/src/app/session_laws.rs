//! What a session makes of events and inputs.
use crate::app::effect::Fx;
use crate::app::model::{RemoteDisplayProtocol, SessionKind, Tab};
use crate::app::session::{content_size, without_nulls};
use crate::app::state::Model;
use crate::connection::keyboard::{Key, Modifiers, Named};
use crate::connection::types::{Event, Input, RemoteInput};
use crate::remote_display::display::{Display, Update};
use crate::terminal::cell::Selection;
use crate::terminal::screen::Screen;
use vstd::prelude::*;
use vstd::utf8::encode_utf8;

verus! {

/// A session that is connected has a channel for its inputs. A former connection is given up. A
/// terminal tells its size on the channel; a remote desktop is told the room that the window leaves
/// it, and the lock keys.
#[verifier::rlimit(40)]
pub proof fn sessions_are_connected(tab: Tab, channel: u64, source_id: u64, window: (u32, u32))
    requires
        381 <= window.0 <= 65716,
        266 <= window.1 <= 65601,
        0 <= tab.screen.cols <= 65535,
        0 <= tab.screen.rows <= 65535,
    ensures
        ({
            let event = Event::Connected(channel);
            let asked = tab.event_fx(event, window);
            let given_up: int = if tab.sender is Some {
                1
            } else {
                0
            };
            &&& tab.after_event(event, source_id) == (Tab { sender: Some(channel), ..tab })
            &&& tab.sender matches Some(old) ==> asked[0] == (Fx::Hang { channel: old })
            &&& tab.kind == SessionKind::RemoteDisplay ==> {
                &&& asked.len() == given_up + 2
                &&& asked[given_up] == (Fx::Send {
                    channel,
                    input: Input::Resize {
                        cols: (window.0 - 181) as u16,
                        rows: (window.1 - 66) as u16,
                    },
                })
                &&& asked[given_up + 1] == (Fx::SendIndicators { channel })
            }
            &&& tab.kind != SessionKind::RemoteDisplay ==> {
                &&& asked.len() == given_up + 1
                &&& asked[given_up] == (Fx::Send {
                    channel,
                    input: Input::Resize {
                        cols: tab.screen.cols as u16,
                        rows: tab.screen.rows as u16,
                    },
                })
            }
        }),
{
}

/// What comes for a terminal is shown by it, and its replies go back to the connection and are not
/// kept. A remote desktop's session shows no bytes.
#[verifier::rlimit(40)]
pub proof fn bytes_are_shown(tab: Tab, data: Seq<u8>, source_id: u64, window: (u32, u32))
    ensures
        ({
            let event = Event::Data(data);
            let after = tab.after_event(event, source_id);
            let asked = tab.event_fx(event, window);
            let shown = tab.screen.given(data);
            &&& tab.kind != SessionKind::RemoteDisplay && data.len() > 0 ==> {
                &&& after.screen == (Screen { responses: Seq::empty(), ..shown })
                &&& after == (Tab { screen: after.screen, ..tab })
                &&& tab.screen.takes(data) && tab.sender is None ==> asked.len() == 0
                &&& tab.screen.takes(data) && tab.sender is Some ==> {
                    &&& asked.len() == shown.responses.len()
                    &&& forall|k: int|
                        0 <= k < shown.responses.len() ==> #[trigger] asked[k] == (Fx::Send {
                            channel: tab.sender->0,
                            input: Input::Data(shown.responses[k]),
                        })
                }
                &&& !tab.screen.takes(data) ==> asked.len() > 0 && asked[0] == Fx::Fault
            }
            &&& tab.kind == SessionKind::RemoteDisplay || data.len() == 0 ==> after == tab
                && asked.len() == 0
        }),
{
}

/// Frames are applied to the picture, which no longer shows a message; the first ones start a picture
/// of 1280 by 720 pixels with the next number. The screen is drawn anew.
#[verifier::rlimit(40)]
pub proof fn frames_are_shown(tab: Tab, frames: Seq<Update>, source_id: u64, window: (u32, u32))
    requires
        source_id < u64::MAX,
    ensures
        ({
            let event = Event::Frames(frames);
            let after = tab.after_event(event, source_id);
            &&& after == (Tab { display: after.display, ..tab })
            &&& tab.display matches Some(picture) ==> after.display == Some(
                (Display { status: None, ..picture }).batched(frames),
            ) && tab.number_next(event, source_id) == source_id
            &&& tab.display is None ==> after.display == Some(
                Display::fresh(source_id, 1280, 720).batched(frames),
            ) && tab.number_next(event, source_id) == source_id + 1
            &&& tab.event_fx(event, window) == seq![Fx::RedrawPulse]
        }),
{
}

/// A connection that ends is given up. A picture then shows why, and a terminal prints it.
#[verifier::rlimit(40)]
pub proof fn ends_are_shown(tab: Tab, reason: Seq<char>, source_id: u64, window: (u32, u32), e: Event)
    requires
        e == Event::Disconnected || e == Event::Error(reason),
    ensures
        ({
            let after = tab.after_event(e, source_id);
            let asked = tab.event_fx(e, window);
            &&& after.sender is None
            &&& after.id == tab.id && after.kind == tab.kind && after.name == tab.name
            &&& tab.sender matches Some(channel) ==> asked.len() > 0 && asked[0] == (Fx::Hang {
                channel,
            })
            &&& tab.display matches Some(picture) ==> {
                &&& after.screen == tab.screen
                &&& after.display is Some
                &&& after.display->0.rgba == picture.rgba
                &&& after.display->0.source_id == picture.source_id
                &&& e is Disconnected ==> after.display->0.status == Some("Disconnected"@)
                &&& e is Error ==> after.display->0.status is Some && reason.is_suffix_of(
                    after.display->0.status->0,
                )
            }
            &&& tab.display is None ==> exists|words: Seq<char>|
                after.screen == tab.screen.given(#[trigger] encode_utf8(words))
        }),
{
    let words = if e is Error {
        "\r\n\x1b[31m[Error: "@ + reason + "]\x1b[0m\r\n"@
    } else {
        "\r\n\x1b[31m[Disconnected]\x1b[0m\r\n"@
    };
    let after = tab.after_event(e, source_id);
    if tab.display is None {
        assert(after.screen == tab.screen.given(encode_utf8(words)));
    }
    let status = "Error: "@ + reason;
    assert(status.skip(status.len() - reason.len()) =~= reason);
}

/// What is typed goes to the connection; without one the terminal shows it itself.
#[verifier::rlimit(40)]
pub proof fn typed_bytes_are_sent_or_shown(tab: Tab, bytes: Seq<u8>)
    ensures
        ({
            let after = tab.after_typing(bytes);
            let asked = tab.typing_fx(bytes);
            &&& tab.sender matches Some(channel) ==> after == tab && asked == seq![
                Fx::Send { channel, input: Input::Data(bytes) },
            ]
            &&& tab.sender is None ==> {
                &&& after == (Tab { screen: tab.screen.given(bytes), ..tab })
                &&& tab.screen.takes(bytes) ==> asked.len() == 0
                &&& !tab.screen.takes(bytes) ==> asked == seq![Fx::Fault]
            }
        }),
{
}

proof fn lemma_without_nulls(a: Seq<char>, b: Seq<char>)
    ensures
        without_nulls(a + b) == without_nulls(a) + without_nulls(b),
    decreases b.len(),
{
    if b.len() == 0 {
        assert(a + b =~= a);
        assert(without_nulls(a) + without_nulls(b) =~= without_nulls(a));
    } else {
        lemma_without_nulls(a, b.drop_last());
        assert((a + b).drop_last() =~= a + b.drop_last());
        assert((a + b).last() == b.last());
        assert(without_nulls(a + b) =~= without_nulls(a) + without_nulls(b));
    }
}

/// A pasted text keeps all its characters in their order, but for the null characters.
#[verifier::rlimit(40)]
pub proof fn pasted_text_has_no_nulls(a: Seq<char>, b: Seq<char>, c: char)
    ensures
        without_nulls(a + b) == without_nulls(a) + without_nulls(b),
        c != '\0' ==> without_nulls(seq![c]) == seq![c],
        without_nulls(seq!['\0']).len() == 0,
{
    lemma_without_nulls(a, b);
    reveal_with_fuel(without_nulls, 2);
    assert(seq![c].drop_last() =~= Seq::empty() && seq![c].last() == c);
    assert(seq!['\0'].drop_last() =~= Seq::empty() && seq!['\0'].last() == '\0');
    if c != '\0' {
        assert(without_nulls(seq![c]) =~= seq![c]);
    }
}

/// The view scrolls by three lines at a turn of the wheel, within the history.
#[verifier::rlimit(40)]
pub proof fn the_wheel_scrolls_by_three_lines(tab: Tab)
    requires
        0 <= tab.screen.offset <= tab.screen.history.len(),
    ensures
        ({
            let s = tab.screen;
            let h = s.history.len() as int;
            let back = tab.scrolled(true).screen;
            let forth = tab.scrolled(false).screen;
            &&& s.offset + 3 <= h ==> back.offset == s.offset + 3
            &&& s.offset + 3 > h ==> back.offset == h
            &&& s.offset >= 3 ==> forth.offset == s.offset - 3
            &&& s.offset < 3 ==> forth.offset == 0
            &&& back == (Screen { offset: back.offset, ..s })
            &&& forth == (Screen { offset: forth.offset, ..s })
        }),
{
}

/// The end of a selection follows the mouse, and its start stays.
#[verifier::rlimit(40)]
pub proof fn selections_follow_the_mouse(tab: Tab, col: usize, row: usize)
    ensures
        ({
            let moved = tab.selection_moved(col, row);
            &&& tab.screen.selection matches Some(before) ==> moved.screen.selection == Some(
                Selection { start: before.start, end: (col, row) },
            )
            &&& tab.screen.selection is None ==> moved == tab
            &&& moved.screen == (Screen { selection: moved.screen.selection, ..tab.screen })
            &&& tab.selecting(None).screen == (Screen { selection: None, ..tab.screen })
        }),
{
}

/// With the control key, C copies what is selected and interrupts where nothing is, and V pastes.
/// Escape gives up the selection, and is typed where there is none.
#[verifier::rlimit(40)]
pub proof fn some_keys_have_a_meaning_of_their_own(tab: Tab, key: Key, modifiers: Modifiers, c: char)
    requires
        key matches Key::Character(text) ==> text@ == seq![c],
    ensures
        ({
            let asked = tab.key_fx(key, modifiers);
            let selected = tab.screen.selection is Some;
            let copies = key is Character && modifiers.control && (c == 'c' || c == 'C');
            let pastes = key is Character && modifiers.control && (c == 'v' || c == 'V');
            let escapes = key == Key::Named(Named::Escape);
            &&& copies && selected ==> asked == seq![Fx::ThenCopy(tab.screen.selected_text())]
            &&& copies && !selected ==> asked == seq![Fx::ThenType(3)]
            &&& pastes ==> asked == seq![Fx::ThenPaste]
            &&& escapes && selected ==> asked == seq![Fx::ThenClearSelection]
            &&& escapes && !selected ==> asked == seq![Fx::ThenType(27)]
            &&& !copies && !pastes && !escapes ==> asked.len() == 0
        }),
{
    reveal_strlit("c");
    reveal_strlit("C");
    reveal_strlit("v");
    reveal_strlit("V");
    assert("c"@ =~= seq!['c']);
    assert("C"@ =~= seq!['C']);
    assert("v"@ =~= seq!['v']);
    assert("V"@ =~= seq!['V']);
    assert(seq![c][0] == c);
    assert(seq!['c'][0] == 'c' && seq!['C'][0] == 'C' && seq!['v'][0] == 'v' && seq!['V'][0]
        == 'V');
}

/// A terminal that gets room for another size takes it, and the connection is told. One that has the
/// size already does nothing.
#[verifier::rlimit(40)]
pub proof fn terminals_take_the_room(tab: Tab, rows: int, cols: int)
    requires
        0 < rows <= 65535,
        1 < cols <= 65535,
    ensures
        ({
            let after = tab.after_resize(rows, cols);
            let asked = tab.resize_fx(rows, cols);
            let same = tab.screen.rows == rows && tab.screen.cols == cols;
            &&& same ==> after == tab && asked.len() == 0
            &&& !same ==> after == (Tab { screen: tab.screen.resized(rows, cols), ..tab })
            &&& !same && tab.sender is None ==> asked.len() == 0
            &&& !same && tab.sender is Some ==> asked == seq![
                Fx::Send {
                    channel: tab.sender->0,
                    input: Input::Resize { cols: cols as u16, rows: rows as u16 },
                },
            ]
        }),
{
}

/// A composed text is shown no more when it is done. A terminal types it, and a remote desktop gets
/// it key by key.
#[verifier::rlimit(40)]
pub proof fn composed_text_is_typed(tab: Tab, text: Seq<char>, k: int)
    ensures
        ({
            let after = tab.after_commit(text);
            let asked = tab.commit_fx(text);
            let keys = crate::connection::remote_input_policy::typed(text);
            let typed = tab.after_typing(encode_utf8(text));
            &&& after.screen.preedit.len() == 0
            &&& tab.kind != SessionKind::RemoteDisplay ==> {
                &&& asked == tab.typing_fx(encode_utf8(text))
                &&& after.screen == (Screen { preedit: Seq::empty(), ..typed.screen })
            }
            &&& tab.kind == SessionKind::RemoteDisplay ==> {
                &&& tab.sender is None ==> asked.len() == 0
                &&& tab.sender is Some ==> asked.len() == keys.len()
                &&& tab.sender is Some && 0 <= k < keys.len() ==> asked[k] == (Fx::Send {
                    channel: tab.sender->0,
                    input: Input::RemoteInput(keys[k]),
                })
            }
        }),
{
}

/// Inputs go to the connection in their order, and nowhere without one. The secure attention sequence
/// is for RDP alone: the delete key on the extended keys.
#[verifier::rlimit(40)]
pub proof fn remote_inputs_are_sent(tab: Tab, inputs: Seq<RemoteInput>, down: bool, input: Input)
    ensures
        ({
            let asked = tab.remote_fx(inputs);
            let delete = RemoteInput::KeyboardScancode { code: 0x53, extended: true, down };
            let attention = tab.attention_fx(down);
            &&& tab.sender is None ==> asked.len() == 0 && attention.len() == 0
            &&& tab.sender matches Some(channel) ==> {
                &&& asked.len() == inputs.len()
                &&& forall|k: int|
                    0 <= k < inputs.len() ==> #[trigger] asked[k] == (Fx::Send {
                        channel,
                        input: Input::RemoteInput(inputs[k]),
                    })
                &&& tab.protocol == Some(RemoteDisplayProtocol::Rdp) ==> attention == seq![
                    Fx::Send { channel, input: Input::RemoteInput(delete) },
                ]
                &&& tab.protocol != Some(RemoteDisplayProtocol::Rdp) ==> attention.len() == 0
            }
        }),
        ({
            let hears = tab.sender is Some && tab.kind == SessionKind::RemoteDisplay;
            &&& hears ==> tab.desktop_fx(input) == seq![Fx::Send { channel: tab.sender->0, input }]
            &&& hears ==> tab.indicators_fx() == seq![Fx::SendIndicators { channel: tab.sender->0 }]
            &&& !hears ==> tab.desktop_fx(input).len() == 0 && tab.indicators_fx().len() == 0
        }),
{
    if let Some(channel) = tab.sender {
        let delete = RemoteInput::KeyboardScancode { code: 0x53, extended: true, down };
        if tab.protocol == Some(RemoteDisplayProtocol::Rdp) {
            assert(tab.attention_fx(down) =~= seq![
                Fx::Send { channel, input: Input::RemoteInput(delete) },
            ]);
        }
    }
}

/// The frame takes 181 pixels of the width of the window and 66 of its height. A window that is too
/// small or too large leaves a remote desktop 200 or 65535 pixels.
#[verifier::rlimit(40)]
pub proof fn desktops_have_room(m: Model, window: u32)
    ensures
        ({
            let cols = content_size(window, 181);
            let rows = content_size(window, 66);
            &&& window < 381 ==> cols == 200
            &&& 381 <= window <= 65716 ==> cols == window - 181
            &&& window > 65716 ==> cols == 65535
            &&& window < 266 ==> rows == 200
            &&& 266 <= window <= 65601 ==> rows == window - 66
            &&& window > 65601 ==> rows == 65535
            &&& m.size_fx(window, window) == m.current().desktop_fx(Input::Resize { cols, rows })
        }),
{
}

} // verus!
