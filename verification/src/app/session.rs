//! What happens to a session.
use crate::app::effect::{fxs, nothing, one, push_effect, Effect, Fx};
use crate::app::model::{RemoteDisplayProtocol, Session, SessionKind, Tab};
use crate::connection::keyboard::{Key, Modifiers, Named};
use crate::connection::remote_input_policy::{
    remote_secure_attention_inputs, typed, unicode_inputs_for_text,
};
use crate::connection::types::{ConnectionEvent, ConnectionInput, Event, Input, RemoteInput};
use crate::remote_display::display::{next_seq, Display, RemoteDisplayState, SourceNumbers};
use crate::terminal::cell::Selection;
use crate::terminal::emulator::byte_strings;
use crate::terminal::screen::Screen;
use crate::text::{same_text, text_bytes};
use vstd::prelude::*;
use vstd::utf8::encode_utf8;

verus! {

/// What the window has left for the content beside the frame: at least 200 pixels, and at most
/// what 16 bits hold.
pub open spec fn content_size(window: u32, frame: u32) -> u16 {
    if window - frame < 200 {
        200
    } else if window - frame > 65535 {
        65535
    } else {
        (window - frame) as u16
    }
}

/// What the frame around the content takes of the width of the window.
pub const FRAME_WIDTH: u32 = 181;

/// What the frame around the content takes of the height of the window.
pub const FRAME_HEIGHT: u32 = 66;

/// A text without null characters.
pub open spec fn without_nulls(text: Seq<char>) -> Seq<char>
    decreases text.len(),
{
    if text.len() == 0 {
        Seq::empty()
    } else if text.last() == '\0' {
        without_nulls(text.drop_last())
    } else {
        without_nulls(text.drop_last()).push(text.last())
    }
}

/// Inputs for a remote desktop, each handed to a channel.
pub open spec fn sent_inputs(channel: u64, inputs: Seq<RemoteInput>) -> Seq<Fx> {
    Seq::new(
        inputs.len(),
        |i: int| Fx::Send { channel, input: Input::RemoteInput(inputs[i]) },
    )
}

/// Bytes for the process, each handed to a channel.
pub open spec fn sent_replies(channel: u64, replies: Seq<Seq<u8>>) -> Seq<Fx> {
    Seq::new(replies.len(), |i: int| Fx::Send { channel, input: Input::Data(replies[i]) })
}

/// Whether a key is that of a letter.
pub open spec fn is_letter(key: Key, small: Seq<char>, capital: Seq<char>) -> bool {
    match key {
        Key::Character(c) => c@ == small || c@ == capital,
        _ => false,
    }
}

impl Tab {
    /// The complaint about a terminal that cannot carry out what bytes ask for.
    pub open spec fn fault(self, bytes: Seq<u8>) -> Seq<Fx> {
        if self.screen.takes(bytes) {
            Seq::empty()
        } else {
            seq![Fx::Fault]
        }
    }

    /// With bytes shown by the terminal.
    pub open spec fn shown(self, bytes: Seq<u8>) -> Tab {
        Tab { screen: self.screen.given(bytes), ..self }
    }

    /// After bytes were typed: without a connection the terminal shows them itself.
    pub open spec fn after_typing(self, bytes: Seq<u8>) -> Tab {
        if self.sender is Some {
            self
        } else {
            self.shown(bytes)
        }
    }

    /// What typed bytes ask for: a connection gets them.
    pub open spec fn typing_fx(self, bytes: Seq<u8>) -> Seq<Fx> {
        match self.sender {
            Some(channel) => seq![Fx::Send { channel, input: Input::Data(bytes) }],
            None => self.fault(bytes),
        }
    }

    /// After an input method handed over a text.
    pub open spec fn after_commit(self, text: Seq<char>) -> Tab {
        let after = if self.kind == SessionKind::RemoteDisplay {
            self
        } else {
            self.after_typing(encode_utf8(text))
        };
        Tab { screen: Screen { preedit: Seq::empty(), ..after.screen }, ..after }
    }

    /// What a text from an input method asks for.
    pub open spec fn commit_fx(self, text: Seq<char>) -> Seq<Fx> {
        if self.kind == SessionKind::RemoteDisplay {
            match self.sender {
                Some(channel) => sent_inputs(channel, typed(text)),
                None => Seq::empty(),
            }
        } else {
            self.typing_fx(encode_utf8(text))
        }
    }

    /// What gives up the connection.
    pub open spec fn hang(self) -> Seq<Fx> {
        match self.sender {
            Some(channel) => seq![Fx::Hang { channel }],
            None => Seq::empty(),
        }
    }

    /// The picture, or a fresh one where there is none.
    pub open spec fn picture(self, source_id: u64) -> Display {
        match self.display {
            Some(display) => display,
            None => Display::fresh(source_id, 1280, 720),
        }
    }

    /// After the end of the connection. Where there is a picture it shows `status`, and else the
    /// terminal shows `text`.
    pub open spec fn ended(self, status: Seq<char>, text: Seq<char>) -> Tab {
        match self.display {
            Some(display) => Tab {
                sender: None,
                display: Some(Display { status: Some(status), ..display }),
                ..self
            },
            None => Tab { sender: None, ..self.shown(encode_utf8(text)) },
        }
    }

    /// What the end of the connection asks for.
    pub open spec fn end_fx(self, text: Seq<char>) -> Seq<Fx> {
        self.hang() + (if self.display is Some {
            Seq::empty()
        } else {
            self.fault(encode_utf8(text))
        })
    }

    /// The next number for a picture after an event of the connection.
    pub open spec fn number_next(self, event: Event, source_id: u64) -> u64 {
        if event is Frames && self.display is None {
            next_seq(source_id)
        } else {
            source_id
        }
    }

    /// After an event of the connection.
    pub open spec fn after_event(self, event: Event, source_id: u64) -> Tab {
        match event {
            Event::Connected(channel) => Tab { sender: Some(channel), ..self },
            Event::Data(data) => if self.kind == SessionKind::RemoteDisplay || data.len() == 0 {
                self
            } else {
                let after = self.shown(data);
                Tab { screen: Screen { responses: Seq::empty(), ..after.screen }, ..after }
            },
            Event::Frames(frames) => Tab {
                display: Some(
                    (Display { status: None, ..self.picture(source_id) }).batched(frames),
                ),
                ..self
            },
            Event::Disconnected => self.ended(
                "Disconnected"@,
                "\r\n\x1b[31m[Disconnected]\x1b[0m\r\n"@,
            ),
            Event::Error(e) => self.ended(
                "Error: "@ + e,
                "\r\n\x1b[31m[Error: "@ + e + "]\x1b[0m\r\n"@,
            ),
        }
    }

    /// What an event of the connection asks for.
    pub open spec fn event_fx(self, event: Event, window: (u32, u32)) -> Seq<Fx> {
        match event {
            Event::Connected(channel) => self.hang() + (if self.kind
                == SessionKind::RemoteDisplay {
                seq![
                    Fx::Send {
                        channel,
                        input: Input::Resize {
                            cols: content_size(window.0, FRAME_WIDTH),
                            rows: content_size(window.1, FRAME_HEIGHT),
                        },
                    },
                    Fx::SendIndicators { channel },
                ]
            } else {
                seq![
                    Fx::Send {
                        channel,
                        input: Input::Resize {
                            cols: (self.screen.cols % 65536) as u16,
                            rows: (self.screen.rows % 65536) as u16,
                        },
                    },
                ]
            }),
            Event::Data(data) => if self.kind == SessionKind::RemoteDisplay || data.len() == 0 {
                Seq::empty()
            } else {
                self.fault(data) + (match self.sender {
                    Some(channel) => sent_replies(channel, self.screen.given(data).responses),
                    None => Seq::empty(),
                })
            },
            Event::Frames(_) => seq![Fx::RedrawPulse],
            Event::Disconnected => self.end_fx("\r\n\x1b[31m[Disconnected]\x1b[0m\r\n"@),
            Event::Error(e) => self.end_fx("\r\n\x1b[31m[Error: "@ + e + "]\x1b[0m\r\n"@),
        }
    }

    /// Whether the terminal can take another size.
    pub open spec fn takes_size(self, rows: int, cols: int) -> bool {
        &&& 0 < rows <= isize::MAX
        &&& 0 < cols <= isize::MAX
        &&& self.screen.fits_columns(cols)
    }

    /// After another size was asked of the terminal.
    pub open spec fn after_resize(self, rows: int, cols: int) -> Tab {
        if self.screen.rows == rows && self.screen.cols == cols {
            self
        } else if self.takes_size(rows, cols) {
            Tab { screen: self.screen.resized(rows, cols), ..self }
        } else {
            self
        }
    }

    /// What another size of the terminal asks for: the connection is told.
    pub open spec fn resize_fx(self, rows: int, cols: int) -> Seq<Fx> {
        if self.screen.rows == rows && self.screen.cols == cols {
            Seq::empty()
        } else if self.takes_size(rows, cols) {
            match self.sender {
                Some(channel) => seq![
                    Fx::Send {
                        channel,
                        input: Input::Resize {
                            cols: (cols % 65536) as u16,
                            rows: (rows % 65536) as u16,
                        },
                    },
                ],
                None => Seq::empty(),
            }
        } else {
            seq![Fx::Fault]
        }
    }

    /// With the view scrolled by three lines, back into the history or forward.
    pub open spec fn scrolled(self, back: bool) -> Tab {
        let offset = if back {
            if self.screen.offset + 3 < self.screen.history.len() {
                self.screen.offset + 3
            } else {
                self.screen.history.len() as int
            }
        } else if self.screen.offset < 3 {
            0
        } else {
            self.screen.offset - 3
        };
        Tab { screen: Screen { offset, ..self.screen }, ..self }
    }

    /// With another selection.
    pub open spec fn selecting(self, selection: Option<Selection>) -> Tab {
        Tab { screen: Screen { selection, ..self.screen }, ..self }
    }

    /// With the end of the selection moved, where there is one.
    pub open spec fn selection_moved(self, col: usize, row: usize) -> Tab {
        match self.screen.selection {
            Some(selection) => self.selecting(
                Some(Selection { start: selection.start, end: (col, row) }),
            ),
            None => self,
        }
    }

    /// What a key with a meaning of its own asks for: copying, pasting, interrupting or escaping.
    pub open spec fn key_fx(self, key: Key, modifiers: Modifiers) -> Seq<Fx> {
        if modifiers.control && is_letter(key, "c"@, "C"@) {
            if self.screen.selection is Some {
                seq![Fx::ThenCopy(self.screen.selected_text())]
            } else {
                seq![Fx::ThenType(3)]
            }
        } else if modifiers.control && is_letter(key, "v"@, "V"@) {
            seq![Fx::ThenPaste]
        } else if key == Key::Named(Named::Escape) {
            if self.screen.selection is Some {
                seq![Fx::ThenClearSelection]
            } else {
                seq![Fx::ThenType(27)]
            }
        } else {
            Seq::empty()
        }
    }

    /// What inputs for the remote desktop ask for.
    pub open spec fn remote_fx(self, inputs: Seq<RemoteInput>) -> Seq<Fx> {
        match self.sender {
            Some(channel) => sent_inputs(channel, inputs),
            None => Seq::empty(),
        }
    }

    /// What the secure attention sequence asks for. Only RDP has it.
    pub open spec fn attention_fx(self, down: bool) -> Seq<Fx> {
        if self.protocol == Some(RemoteDisplayProtocol::Rdp) {
            self.remote_fx(
                seq![RemoteInput::KeyboardScancode { code: 0x53, extended: true, down }],
            )
        } else {
            Seq::empty()
        }
    }

    /// An input that only a connected remote desktop gets.
    pub open spec fn desktop_fx(self, input: Input) -> Seq<Fx> {
        match self.sender {
            Some(channel) => if self.kind == SessionKind::RemoteDisplay {
                seq![Fx::Send { channel, input }]
            } else {
                Seq::empty()
            },
            None => Seq::empty(),
        }
    }

    /// The state of the lock keys, which only a connected remote desktop gets.
    pub open spec fn indicators_fx(self) -> Seq<Fx> {
        match self.sender {
            Some(channel) => if self.kind == SessionKind::RemoteDisplay {
                seq![Fx::SendIndicators { channel }]
            } else {
                Seq::empty()
            },
            None => Seq::empty(),
        }
    }
}

/// What the window has left for the content.
pub fn content(window: u32, frame: u32) -> (size: u16)
    ensures
        size == content_size(window, frame),
{
    let left: u32 = window.saturating_sub(frame);
    if left < 200 {
        200
    } else if left > 65535 {
        65535
    } else {
        left as u16
    }
}

/// The low 16 bits of a number.
fn low_bits(n: usize) -> (r: u16)
    ensures
        r == n % 65536,
{
    (n % 65536) as u16
}

/// The bytes of a text without null characters.
pub fn pasted_bytes(text: &str) -> (bytes: Vec<u8>)
    ensures
        bytes@ == encode_utf8(without_nulls(text@)),
{
    let n: usize = text.unicode_len();
    let mut kept = String::new();
    let mut i: usize = 0;
    assert(kept@ =~= without_nulls(text@.take(0)));
    while i < n
        invariant
            i <= n,
            n == text@.len(),
            kept@ == without_nulls(text@.take(i as int)),
        decreases n - i,
    {
        assert(text@.take(i + 1).drop_last() =~= text@.take(i as int));
        let c: char = text.get_char(i);
        if c != '\0' {
            kept.push(c);
        }
        i = i + 1;
    }
    assert(text@.take(n as int) =~= text@);
    text_bytes(kept.as_str())
}

/// Whether a key is that of a letter.
fn letter(key: &Key, small: &str, capital: &str) -> (b: bool)
    ensures
        b == is_letter(*key, small@, capital@),
{
    match key {
        Key::Character(c) => same_text(c.as_str(), small) || same_text(c.as_str(), capital),
        _ => false,
    }
}

/// Hands inputs for a remote desktop to a channel.
fn send_inputs(channel: u64, inputs: Vec<RemoteInput>) -> (effects: Vec<Effect>)
    ensures
        fxs(effects@) == sent_inputs(channel, inputs@),
{
    let mut effects: Vec<Effect> = Vec::new();
    let mut i: usize = 0;
    while i < inputs.len()
        invariant
            i <= inputs.len(),
            fxs(effects@).len() == i,
            forall|k: int|
                0 <= k < i ==> #[trigger] fxs(effects@)[k] == (Fx::Send {
                    channel,
                    input: Input::RemoteInput(inputs@[k]),
                }),
        decreases inputs.len() - i,
    {
        let ghost before = fxs(effects@);
        push_effect(
            &mut effects,
            Effect::Send { channel, input: ConnectionInput::RemoteInput(inputs[i]) },
        );
        assert(fxs(effects@) =~= before.push(
            Fx::Send { channel, input: Input::RemoteInput(inputs@[i as int]) },
        ));
        i = i + 1;
    }
    assert(fxs(effects@) =~= sent_inputs(channel, inputs@));
    effects
}

/// Hands replies of the terminal to a channel, after other effects.
fn send_replies(effects: &mut Vec<Effect>, channel: u64, replies: Vec<Vec<u8>>)
    ensures
        fxs(final(effects)@) == fxs(old(effects)@) + sent_replies(channel, byte_strings(replies@)),
{
    let ghost first = fxs(effects@);
    let ghost all = byte_strings(replies@);
    assert(first + sent_replies(channel, all.take(0)) =~= first);
    for reply in it: replies
        invariant
            it.seq() == replies@,
            all == byte_strings(replies@),
            fxs(effects@) == first + sent_replies(channel, all.take(it.index() as int)),
    {
        let ghost i = it.index() as int;
        assert(reply@ == all[i]);
        let ghost before = fxs(effects@);
        push_effect(effects, Effect::Send { channel, input: ConnectionInput::Data(reply) });
        assert(fxs(effects@) =~= first + sent_replies(channel, all.take(i + 1)));
    }
    assert(all.take(all.len() as int) =~= all);
}

impl Session {
    /// Shows bytes on the terminal, and complains where it cannot carry out what they ask for.
    fn show(&mut self, effects: &mut Vec<Effect>, bytes: &Vec<u8>)
        requires
            old(self)@.wf(),
        ensures
            final(self)@ == old(self)@.shown(bytes@),
            final(self)@.wf(),
            fxs(final(effects)@) == fxs(old(effects)@) + old(self)@.fault(bytes@),
    {
        let ghost before = fxs(effects@);
        if self.terminal.process_bytes(bytes.as_slice()) {
            assert(before =~= before + Seq::<Fx>::empty());
        } else {
            push_effect(effects, Effect::Fault);
            assert(fxs(effects@) =~= before + seq![Fx::Fault]);
        }
    }

    /// Takes typed bytes.
    pub fn type_bytes(&mut self, bytes: Vec<u8>) -> (effects: Vec<Effect>)
        requires
            old(self)@.wf(),
        ensures
            final(self)@ == old(self)@.after_typing(bytes@),
            final(self)@.wf(),
            fxs(effects@) == old(self)@.typing_fx(bytes@),
    {
        match self.sender {
            Some(channel) => one(Effect::Send { channel, input: ConnectionInput::Data(bytes) }),
            None => {
                let mut effects = nothing();
                self.show(&mut effects, &bytes);
                assert(fxs(effects@) =~= old(self)@.fault(bytes@));
                effects
            },
        }
    }

    /// Takes a text from an input method.
    pub fn commit_text(&mut self, text: &str) -> (effects: Vec<Effect>)
        requires
            old(self)@.wf(),
        ensures
            final(self)@ == old(self)@.after_commit(text@),
            final(self)@.wf(),
            fxs(effects@) == old(self)@.commit_fx(text@),
    {
        let effects = if self.kind == SessionKind::RemoteDisplay {
            match self.sender {
                Some(channel) => send_inputs(channel, unicode_inputs_for_text(text)),
                None => nothing(),
            }
        } else {
            self.type_bytes(text_bytes(text))
        };
        self.terminal.clear_preedit();
        effects
    }

    /// Gives up the connection.
    fn hang_up(&mut self) -> (effects: Vec<Effect>)
        ensures
            final(self)@ == (Tab { sender: None, ..old(self)@ }),
            fxs(effects@) == old(self)@.hang(),
    {
        let effects = match self.sender {
            Some(channel) => one(Effect::Hang { channel }),
            None => nothing(),
        };
        self.sender = None;
        effects
    }

    /// Takes the end of the connection.
    fn end_connection(&mut self, status: String, text: &str) -> (effects: Vec<Effect>)
        requires
            old(self)@.wf(),
        ensures
            final(self)@ == old(self)@.ended(status@, text@),
            final(self)@.wf(),
            fxs(effects@) == old(self)@.end_fx(text@),
    {
        let mut effects = self.hang_up();
        if self.remote_display.is_some() {
            let mut display: Option<RemoteDisplayState> = None;
            std::mem::swap(&mut display, &mut self.remote_display);
            if let Some(d) = display {
                let mut d = d;
                d.status_message = Some(status);
                self.remote_display = Some(d);
            }
            assert(fxs(effects@) =~= old(self)@.end_fx(text@));
        } else {
            self.show(&mut effects, &text_bytes(text));
        }
        effects
    }

    /// Takes frames for the picture.
    fn take_frames(
        &mut self,
        frames: Vec<crate::remote_display::display::FrameUpdate>,
        numbers: &mut SourceNumbers,
    )
        requires
            old(self)@.wf(),
        ensures
            final(self)@ == old(self)@.after_event(
                ConnectionEvent::Frames(frames)@,
                old(numbers)@,
            ),
            final(self)@.wf(),
            final(numbers)@ == old(self)@.number_next(
                ConnectionEvent::Frames(frames)@,
                old(numbers)@,
            ),
    {
        let mut display: Option<RemoteDisplayState> = None;
        std::mem::swap(&mut display, &mut self.remote_display);
        let mut d = match display {
            Some(d) => d,
            None => RemoteDisplayState::new(numbers, 1280, 720),
        };
        d.status_message = None;
        let _ = d.apply_batch(frames);
        self.remote_display = Some(d);
    }

    /// Takes bytes from the connection.
    fn take_data(&mut self, data: &Vec<u8>) -> (effects: Vec<Effect>)
        requires
            old(self)@.wf(),
        ensures
            final(self)@ == old(self)@.after_event(Event::Data(data@), 0),
            final(self)@.wf(),
            fxs(effects@) == old(self)@.event_fx(Event::Data(data@), (0, 0)),
    {
        let mut effects = nothing();
        if self.kind == SessionKind::RemoteDisplay || data.len() == 0 {
            return effects;
        }
        self.show(&mut effects, data);
        let ghost shown = self@;
        let mut replies: Vec<Vec<u8>> = Vec::new();
        std::mem::swap(&mut replies, &mut self.terminal.pending_responses);
        assert(byte_strings(self.terminal.pending_responses@) =~= Seq::empty());
        assert(self@.screen =~= (Screen { responses: Seq::empty(), ..shown.screen }));
        match self.sender {
            Some(channel) => {
                send_replies(&mut effects, channel, replies);
            },
            None => {},
        }
        assert(fxs(effects@) =~= old(self)@.event_fx(Event::Data(data@), (0, 0)));
        effects
    }

    /// Takes the start of the connection.
    fn take_channel(&mut self, channel: u64, window: (u32, u32)) -> (effects: Vec<Effect>)
        requires
            old(self)@.wf(),
        ensures
            final(self)@ == (Tab { sender: Some(channel), ..old(self)@ }),
            fxs(effects@) == old(self)@.event_fx(Event::Connected(channel), window),
    {
        let mut effects = self.hang_up();
        self.sender = Some(channel);
        if self.kind == SessionKind::RemoteDisplay {
            push_effect(
                &mut effects,
                Effect::Send {
                    channel,
                    input: ConnectionInput::Resize {
                        cols: content(window.0, FRAME_WIDTH),
                        rows: content(window.1, FRAME_HEIGHT),
                    },
                },
            );
            push_effect(&mut effects, Effect::SendIndicators { channel });
        } else {
            push_effect(
                &mut effects,
                Effect::Send {
                    channel,
                    input: ConnectionInput::Resize {
                        cols: low_bits(self.terminal.cols),
                        rows: low_bits(self.terminal.rows),
                    },
                },
            );
        }
        assert(fxs(effects@) =~= old(self)@.event_fx(Event::Connected(channel), window));
        effects
    }

    /// Takes an event of the connection. A picture that starts with it takes the next number.
    pub fn connection_event(
        &mut self,
        event: ConnectionEvent,
        window: (u32, u32),
        numbers: &mut SourceNumbers,
    ) -> (effects: Vec<Effect>)
        requires
            old(self)@.wf(),
        ensures
            final(self)@ == old(self)@.after_event(event@, old(numbers)@),
            final(self)@.wf(),
            final(numbers)@ == old(self)@.number_next(event@, old(numbers)@),
            fxs(effects@) == old(self)@.event_fx(event@, window),
    {
        match event {
            ConnectionEvent::Connected(channel) => self.take_channel(channel, window),
            ConnectionEvent::Data(data) => self.take_data(&data),
            ConnectionEvent::Frames(frames) => {
                self.take_frames(frames, numbers);
                one(Effect::RedrawPulse)
            },
            ConnectionEvent::Disconnected => self.end_connection(
                String::from_str("Disconnected"),
                "\r\n\x1b[31m[Disconnected]\x1b[0m\r\n",
            ),
            ConnectionEvent::Error(e) => {
                let status = String::from_str("Error: ").concat(e.as_str());
                let text = String::from_str("\r\n\x1b[31m[Error: ").concat(e.as_str()).concat(
                    "]\x1b[0m\r\n",
                );
                self.end_connection(status, text.as_str())
            },
        }
    }

    /// Changes the size of the terminal.
    pub fn resize_terminal(&mut self, new_rows: usize, new_cols: usize) -> (effects: Vec<Effect>)
        requires
            old(self)@.wf(),
        ensures
            final(self)@ == old(self)@.after_resize(new_rows as int, new_cols as int),
            final(self)@.wf(),
            fxs(effects@) == old(self)@.resize_fx(new_rows as int, new_cols as int),
    {
        if self.terminal.rows == new_rows && self.terminal.cols == new_cols {
            return nothing();
        }
        if self.terminal.try_resize(new_rows, new_cols) {
            match self.sender {
                Some(channel) => one(
                    Effect::Send {
                        channel,
                        input: ConnectionInput::Resize {
                            cols: low_bits(new_cols),
                            rows: low_bits(new_rows),
                        },
                    },
                ),
                None => nothing(),
            }
        } else {
            one(Effect::Fault)
        }
    }

    /// Scrolls the view of the terminal.
    pub fn scroll(&mut self, back: bool)
        requires
            old(self)@.wf(),
        ensures
            final(self)@ == old(self)@.scrolled(back),
            final(self)@.wf(),
    {
        let offset: usize = self.terminal.display_offset;
        if back {
            let most: usize = self.terminal.history.len();
            let next: usize = offset.saturating_add(3);
            self.terminal.display_offset = if next < most {
                next
            } else {
                most
            };
        } else {
            self.terminal.display_offset = offset.saturating_sub(3);
        }
    }

    /// Moves the view of the terminal to a place in the history.
    pub fn scroll_to(&mut self, offset: usize)
        requires
            old(self)@.wf(),
        ensures
            final(self)@ == (Tab {
                screen: Screen { offset: offset as int, ..old(self)@.screen },
                ..old(self)@
            }),
            final(self)@.wf(),
    {
        self.terminal.display_offset = offset;
    }

    /// Shows the text that an input method is composing.
    pub fn set_preedit(&mut self, text: String)
        requires
            old(self)@.wf(),
        ensures
            final(self)@ == (Tab {
                screen: Screen { preedit: text@, ..old(self)@.screen },
                ..old(self)@
            }),
            final(self)@.wf(),
    {
        self.terminal.ime_preedit = text;
    }

    /// Changes the selection.
    pub fn select(&mut self, selection: Option<Selection>)
        requires
            old(self)@.wf(),
        ensures
            final(self)@ == old(self)@.selecting(selection),
            final(self)@.wf(),
    {
        self.terminal.selection = selection;
    }

    /// Moves the end of the selection.
    pub fn move_selection(&mut self, col: usize, row: usize)
        requires
            old(self)@.wf(),
        ensures
            final(self)@ == old(self)@.selection_moved(col, row),
            final(self)@.wf(),
    {
        if let Some(selection) = self.terminal.selection {
            self.terminal.selection = Some(
                Selection { start: selection.start, end: (col, row) },
            );
        }
    }

    /// Takes a key with a meaning of its own.
    pub fn handle_key(&self, key: &Key, modifiers: Modifiers) -> (effects: Vec<Effect>)
        ensures
            fxs(effects@) == self@.key_fx(*key, modifiers),
    {
        let has_selection = self.terminal.has_selection();
        if modifiers.control && letter(key, "c", "C") {
            if has_selection {
                return one(Effect::ThenCopy(self.terminal.get_selected_text()));
            } else {
                return one(Effect::ThenType(3));
            }
        }
        if modifiers.control && letter(key, "v", "V") {
            return one(Effect::ThenPaste);
        }
        match key {
            Key::Named(Named::Escape) => {
                if has_selection {
                    one(Effect::ThenClearSelection)
                } else {
                    one(Effect::ThenType(27))
                }
            },
            _ => nothing(),
        }
    }

    /// Takes inputs for the remote desktop.
    pub fn remote_inputs(&self, inputs: Vec<RemoteInput>) -> (effects: Vec<Effect>)
        ensures
            fxs(effects@) == self@.remote_fx(inputs@),
    {
        match self.sender {
            Some(channel) => send_inputs(channel, inputs),
            None => nothing(),
        }
    }

    /// Takes the secure attention sequence.
    pub fn secure_attention(&self, down: bool) -> (effects: Vec<Effect>)
        ensures
            fxs(effects@) == self@.attention_fx(down),
    {
        if self.is_rdp_display() {
            self.remote_inputs(remote_secure_attention_inputs(down))
        } else {
            nothing()
        }
    }

    /// Hands an input to a connected remote desktop.
    pub fn desktop_input(&self, input: ConnectionInput) -> (effects: Vec<Effect>)
        ensures
            fxs(effects@) == self@.desktop_fx(input@),
    {
        match self.sender {
            Some(channel) => {
                if self.kind == SessionKind::RemoteDisplay {
                    one(Effect::Send { channel, input })
                } else {
                    nothing()
                }
            },
            None => nothing(),
        }
    }

    /// Hands the state of the lock keys to a connected remote desktop.
    pub fn sync_indicators(&self) -> (effects: Vec<Effect>)
        ensures
            fxs(effects@) == self@.indicators_fx(),
    {
        match self.sender {
            Some(channel) => {
                if self.kind == SessionKind::RemoteDisplay {
                    one(Effect::SendIndicators { channel })
                } else {
                    nothing()
                }
            },
            None => nothing(),
        }
    }
}

} // verus!
