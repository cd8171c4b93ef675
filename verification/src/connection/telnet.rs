//! What goes over a Telnet connection.
use bytes::BytesMut;
use nectar::event::TelnetEvent;
use nectar::subnegotiation::SubnegotiationType;
use nectar::TelnetCodec;
use tokio_util::codec::{Decoder, Encoder};
use vstd::prelude::*;
use vstd::utf8::encode_utf8;

verus! {

/// The byte that starts a Telnet command.
pub const IAC: u8 = 255;

/// The byte that starts a subnegotiation, after the one that starts a command.
pub const SB: u8 = 250;

/// The byte that ends a subnegotiation, after the one that starts a command.
pub const SE: u8 = 240;

/// The byte that makes a command do nothing, after the one that starts it.
pub const NOP: u8 = 241;

/// The byte that ends a line.
pub const LF: u8 = 10;

/// The option of subnegotiations about line mode.
pub const LINEMODE: u8 = 34;

/// The byte that asks for an option, after the one that starts a command.
pub const DO: u8 = 253;

/// How many bytes of a message are kept.
pub const MESSAGE_LIMIT: usize = 8192;

/// What the Telnet decoder found in the stream.
#[derive(Debug)]
pub enum TelnetPiece {
    Character(u8),
    Message(String),
    /// Something about options, which changes nothing.
    Other,
}

/// What the Telnet decoder found in the stream, as a mathematical value.
#[verifier::ext_equal]
pub enum Piece {
    Character(u8),
    Message(Seq<char>),
    Other,
}

impl View for TelnetPiece {
    type V = Piece;

    open spec fn view(&self) -> Piece {
        match *self {
            TelnetPiece::Character(b) => Piece::Character(b),
            TelnetPiece::Message(text) => Piece::Message(text@),
            TelnetPiece::Other => Piece::Other,
        }
    }
}

/// The bytes for the terminal in a piece.
pub open spec fn piece_bytes(piece: Piece) -> Seq<u8> {
    match piece {
        Piece::Character(b) => seq![b],
        Piece::Message(text) => encode_utf8(text),
        Piece::Other => Seq::empty(),
    }
}

/// The bytes for the terminal in pieces, one after the other.
pub open spec fn received(pieces: Seq<TelnetPiece>) -> Seq<u8>
    decreases pieces.len(),
{
    if pieces.len() == 0 {
        Seq::empty()
    } else {
        received(pieces.drop_last()) + piece_bytes(pieces.last()@)
    }
}

/// Nectar's Telnet decoder.
#[verifier::external_type_specification]
#[verifier::external_body]
pub struct ExTelnetCodec(TelnetCodec);

/// A buffer of bytes.
#[verifier::external_type_specification]
#[verifier::external_body]
pub struct ExBytesMut(BytesMut);

/// The state of the decoder: whether go-aheads are suppressed, how many bytes a message can have,
/// the bytes of a message that is not complete, and whether it decodes by messages.
#[verifier::ext_equal]
pub struct Codec {
    pub sga: bool,
    pub max_len: usize,
    pub partial: Seq<u8>,
    pub by_message: bool,
}

/// What one step of the decoder comes to: what it found, and the state and the bytes after it.
#[verifier::ext_equal]
pub struct Step {
    pub piece: Option<Piece>,
    pub codec: Codec,
    pub pending: Seq<u8>,
}

/// The state that a decoder is in.
pub uninterp spec fn codec_state(codec: TelnetCodec) -> Codec;

/// The bytes that a buffer holds.
pub uninterp spec fn buffered(buffer: BytesMut) -> Seq<u8>;

/// What one step of the decoder makes of pending bytes.
pub uninterp spec fn decoder_step(codec: Codec, pending: Seq<u8>) -> Step;

/// Whether the end of a subnegotiation stands in bytes. A doubled command byte is none.
pub open spec fn has_end(bytes: Seq<u8>) -> bool
    decreases bytes.len(),
{
    if bytes.len() < 2 {
        false
    } else if bytes[0] != IAC {
        has_end(bytes.skip(1))
    } else {
        bytes[1] == SE || has_end(bytes.skip(2))
    }
}

/// The data of a subnegotiation, up to its end. A doubled command byte stands for one; with another
/// command among them there are none.
pub open spec fn data_until_end(bytes: Seq<u8>) -> Option<Seq<u8>>
    decreases bytes.len(),
{
    if bytes.len() < 2 {
        Some(bytes)
    } else if bytes[0] != IAC {
        match data_until_end(bytes.skip(1)) {
            Some(data) => Some(seq![bytes[0]] + data),
            None => None,
        }
    } else if bytes[1] == SE {
        Some(Seq::empty())
    } else if bytes[1] == IAC {
        match data_until_end(bytes.skip(2)) {
            Some(data) => Some(seq![IAC] + data),
            None => None,
        }
    } else {
        None
    }
}

/// Whether the decoder gets through the data of a subnegotiation about line mode, in a buffer of
/// `total` bytes. A mode (1), a forward mask (2) and the commands about one are followed by another
/// byte, and the decoder takes the command that asks for a mask to have all the 16 bytes of one.
pub open spec fn is_line_mode(data: Seq<u8>, total: int) -> bool {
    &&& data.len() == 1 ==> data[0] != 1 && data[0] != 2 && !(251 <= data[0] <= 254)
    &&& data.len() > 0 && data[0] == DO ==> total >= 23
}

/// Whether a decoder of single characters can take a step on the last bytes of a buffer of `total`
/// bytes. It passes over ends of lines, doubled command bytes and commands that do nothing. A
/// subnegotiation behind them has to be whole, unless nothing but its start has come.
pub open spec fn can_step_within(bytes: Seq<u8>, total: int) -> bool
    decreases bytes.len(),
{
    if bytes.len() < 2 {
        true
    } else if bytes[0] == LF {
        can_step_within(bytes.skip(1), total)
    } else if bytes[0] != IAC {
        true
    } else if bytes[1] == IAC || bytes[1] == NOP {
        can_step_within(bytes.skip(2), total)
    } else if bytes[1] == SB {
        bytes.len() == 2 || (has_end(bytes.skip(3)) && (bytes[2] == LINEMODE ==> match data_until_end(
            bytes.skip(3),
        ) {
            Some(data) => is_line_mode(data, total),
            None => true,
        }))
    } else if 251 <= bytes[1] {
        true
    } else {
        can_step_within(bytes.skip(1), total)
    }
}

/// Whether a decoder of single characters can take a step on bytes.
pub open spec fn can_step(bytes: Seq<u8>) -> bool {
    can_step_within(bytes, bytes.len() as int)
}

/// What decoding comes to when it goes no further: the bytes for the terminal, the state and the
/// bytes after them, and whether the decoder cannot take another step.
#[verifier::ext_equal]
pub struct Drained {
    pub bytes: Seq<u8>,
    pub codec: Codec,
    pub pending: Seq<u8>,
    pub stuck: bool,
}

/// Decodes as long as something is found and another step can be taken. What is found takes bytes
/// from the front.
pub open spec fn drained(codec: Codec, pending: Seq<u8>) -> Drained
    decreases pending.len(),
{
    let step = decoder_step(codec, pending);
    if !can_step(pending) {
        Drained { bytes: Seq::empty(), codec, pending, stuck: true }
    } else if step.piece is Some && step.pending.len() < pending.len() {
        let rest = drained(step.codec, step.pending);
        Drained { bytes: piece_bytes(step.piece->0) + rest.bytes, ..rest }
    } else {
        Drained { bytes: Seq::empty(), codec: step.codec, pending: step.pending, stuck: false }
    }
}

/// Data with the command byte doubled.
pub open spec fn escaped(data: Seq<u8>) -> Seq<u8>
    decreases data.len(),
{
    if data.len() == 0 {
        Seq::empty()
    } else if data.last() == IAC {
        escaped(data.drop_last()).push(IAC).push(IAC)
    } else {
        escaped(data.drop_last()).push(data.last())
    }
}

/// What a receiver makes of a stream without commands: a doubled command byte stands for one.
pub open spec fn unescaped(stream: Seq<u8>) -> Seq<u8>
    decreases stream.len(),
{
    if stream.len() == 0 {
        Seq::empty()
    } else if stream.len() >= 2 && stream[0] == IAC && stream[1] == IAC {
        seq![IAC] + unescaped(stream.skip(2))
    } else {
        seq![stream[0]] + unescaped(stream.skip(1))
    }
}

/// The message that tells the size of the terminal: width before height, high bytes first.
pub open spec fn window_size(cols: u16, rows: u16) -> Seq<u8> {
    seq![
        255u8,
        250u8,
        31u8,
        (cols / 256) as u8,
        (cols % 256) as u8,
        (rows / 256) as u8,
        (rows % 256) as u8,
        255u8,
        240u8,
    ]
}

/// Doubles the command byte in data.
pub fn escape(data: &Vec<u8>) -> (bytes: Vec<u8>)
    ensures
        bytes@ == escaped(data@),
{
    let mut bytes: Vec<u8> = Vec::new();
    let mut i: usize = 0;
    assert(bytes@ =~= escaped(data@.take(0)));
    while i < data.len()
        invariant
            i <= data.len(),
            bytes@ == escaped(data@.take(i as int)),
        decreases data.len() - i,
    {
        assert(data@.take(i + 1).drop_last() =~= data@.take(i as int));
        let b: u8 = data[i];
        if b == IAC {
            bytes.push(IAC);
            bytes.push(IAC);
        } else {
            bytes.push(b);
        }
        i = i + 1;
    }
    assert(data@.take(i as int) =~= data@);
    bytes
}

/// Appends the bytes for the terminal in a piece.
fn push_piece(bytes: &mut Vec<u8>, piece: &TelnetPiece)
    ensures
        final(bytes)@ == old(bytes)@ + piece_bytes(piece@),
{
    match piece {
        TelnetPiece::Character(b) => {
            bytes.push(*b);
        },
        TelnetPiece::Message(text) => {
            let mut more = crate::text::text_bytes(text.as_str());
            bytes.append(&mut more);
        },
        TelnetPiece::Other => {},
    }
    assert(bytes@ =~= old(bytes)@ + piece_bytes(piece@));
}

/// Collects the bytes for the terminal.
pub fn collect(pieces: &Vec<TelnetPiece>) -> (bytes: Vec<u8>)
    ensures
        bytes@ == received(pieces@),
{
    let mut bytes: Vec<u8> = Vec::new();
    let mut i: usize = 0;
    assert(bytes@ =~= received(pieces@.take(0)));
    while i < pieces.len()
        invariant
            i <= pieces.len(),
            bytes@ == received(pieces@.take(i as int)),
        decreases pieces.len() - i,
    {
        assert(pieces@.take(i + 1).drop_last() =~= pieces@.take(i as int));
        push_piece(&mut bytes, &pieces[i]);
        i = i + 1;
    }
    assert(pieces@.take(i as int) =~= pieces@);
    bytes
}

/// Calls `nectar::TelnetCodec::new` and sets whether it decodes by messages. Nothing is held back,
/// and go-aheads are not suppressed.
#[verifier::external_body]
pub(crate) fn new_codec(max_len: usize, by_message: bool) -> (codec: TelnetCodec)
    ensures
        codec_state(codec) == (Codec { sga: false, max_len, partial: Seq::empty(), by_message }),
{
    let mut codec = TelnetCodec::new(max_len);
    codec.message_mode = by_message;
    codec
}

/// Calls `bytes::BytesMut::new`: the buffer is empty.
#[verifier::external_body]
pub(crate) fn new_buffer() -> (buffer: BytesMut)
    ensures
        buffered(buffer) == Seq::<u8>::empty(),
{
    BytesMut::new()
}

/// Calls `bytes::BytesMut::extend_from_slice`: the bytes stand behind those that the buffer held.
#[verifier::external_body]
pub(crate) fn extend_buffer(buffer: &mut BytesMut, data: &[u8])
    ensures
        buffered(*final(buffer)) == buffered(*old(buffer)) + data@,
{
    buffer.extend_from_slice(data);
}

/// Calls `bytes::BytesMut::to_vec`, by way of the slice that the buffer stands for: a copy of the
/// bytes that it holds.
#[verifier::external_body]
pub(crate) fn buffer_bytes(buffer: &BytesMut) -> (bytes: Vec<u8>)
    ensures
        bytes@ == buffered(*buffer),
{
    buffer.to_vec()
}

/// Calls `nectar::TelnetCodec::decode`. What it finds, and what is left in the decoder and in the
/// buffer, is settled by what they held before. What is found takes bytes from the front of the
/// buffer; where nothing is found the buffer stays as it was, or is empty. Whether go-aheads are
/// suppressed, and whether it decodes by messages, does not change. Left out are bytes on which no
/// step can be taken, since the decoder panics where the end of a subnegotiation has not come yet
/// and on some about line mode.
#[verifier::external_body]
pub(crate) fn decode_next(codec: &mut TelnetCodec, buffer: &mut BytesMut) -> (piece: Option<
    TelnetPiece,
>)
    requires
        !codec_state(*old(codec)).sga,
        !codec_state(*old(codec)).by_message,
        can_step(buffered(*old(buffer))),
    ensures
        !codec_state(*final(codec)).sga,
        !codec_state(*final(codec)).by_message,
        decoder_step(codec_state(*old(codec)), buffered(*old(buffer))) == (Step {
            piece: piece_view(piece),
            codec: codec_state(*final(codec)),
            pending: buffered(*final(buffer)),
        }),
        piece is Some ==> exists|n: int|
            0 < n <= buffered(*old(buffer)).len() && buffered(*final(buffer))
                == #[trigger] buffered(*old(buffer)).skip(n),
        piece is None ==> buffered(*final(buffer)) == buffered(*old(buffer)) || buffered(
            *final(buffer),
        ).len() == 0,
{
    codec.decode(buffer).ok().flatten().map(|event| match event {
        TelnetEvent::Character(c) => TelnetPiece::Character(c),
        TelnetEvent::Message(text) => TelnetPiece::Message(text),
        _ => TelnetPiece::Other,
    })
}

/// An optional piece as a mathematical value.
pub open spec fn piece_view(piece: Option<TelnetPiece>) -> Option<Piece> {
    match piece {
        Some(p) => Some(p@),
        None => None,
    }
}

/// Whether the end of a subnegotiation stands in bytes from `at` on.
fn ends_from(bytes: &Vec<u8>, at: usize) -> (b: bool)
    requires
        at <= bytes@.len(),
    ensures
        b == has_end(bytes@.skip(at as int)),
{
    let mut i: usize = at;
    while bytes.len() - i >= 2
        invariant
            at <= i <= bytes.len(),
            has_end(bytes@.skip(at as int)) == has_end(bytes@.skip(i as int)),
        decreases bytes.len() - i,
    {
        assert(bytes@.skip(i as int).skip(1) =~= bytes@.skip(i + 1));
        assert(bytes@.skip(i as int).skip(2) =~= bytes@.skip(i + 2));
        if bytes[i] != IAC {
            i = i + 1;
        } else if bytes[i + 1] == SE {
            return true;
        } else {
            i = i + 2;
        }
    }
    false
}

/// The data of a subnegotiation from `at` on, up to its end.
fn collect_data(bytes: &Vec<u8>, at: usize) -> (data: Option<Vec<u8>>)
    requires
        at <= bytes@.len(),
    ensures
        match data {
            Some(d) => data_until_end(bytes@.skip(at as int)) == Some(d@),
            None => data_until_end(bytes@.skip(at as int)) is None,
        },
{
    let mut data: Vec<u8> = Vec::new();
    let mut i: usize = at;
    let ghost all = data_until_end(bytes@.skip(at as int));
    proof {
        if let Some(d) = all {
            assert(data@ + d =~= d);
        }
    }
    while bytes.len() - i >= 2
        invariant
            at <= i <= bytes.len(),
            match data_until_end(bytes@.skip(i as int)) {
                Some(d) => all == Some(data@ + d),
                None => all is None,
            },
            all == data_until_end(bytes@.skip(at as int)),
        decreases bytes.len() - i,
    {
        let ghost before = data@;
        let ghost here = bytes@.skip(i as int);
        let ghost later = data_until_end(here.skip(1));
        let ghost beyond = data_until_end(here.skip(2));
        assert(here.skip(1) =~= bytes@.skip(i + 1));
        assert(here.skip(2) =~= bytes@.skip(i + 2));
        if bytes[i] != IAC {
            data.push(bytes[i]);
            proof {
                if let Some(d) = later {
                    assert(before + (seq![here[0]] + d) =~= data@ + d);
                }
            }
            i = i + 1;
        } else if bytes[i + 1] == SE {
            assert(before + Seq::<u8>::empty() =~= data@);
            return Some(data);
        } else if bytes[i + 1] == IAC {
            data.push(IAC);
            proof {
                if let Some(d) = beyond {
                    assert(before + (seq![IAC] + d) =~= data@ + d);
                }
            }
            i = i + 2;
        } else {
            return None;
        }
    }
    if i < bytes.len() {
        let ghost before = data@;
        data.push(bytes[i]);
        assert(before + bytes@.skip(i as int) =~= data@);
    } else {
        assert(data@ + bytes@.skip(i as int) =~= data@);
    }
    Some(data)
}

/// Whether the decoder gets through a subnegotiation about line mode whose data stand at `at`.
fn line_mode_possible(bytes: &Vec<u8>, at: usize) -> (b: bool)
    requires
        at <= bytes@.len(),
    ensures
        b == (match data_until_end(bytes@.skip(at as int)) {
            Some(data) => is_line_mode(data, bytes@.len() as int),
            None => true,
        }),
{
    match collect_data(bytes, at) {
        Some(data) => {
            if data.len() == 0 {
                return true;
            }
            let first: u8 = data[0];
            let alone: bool = data.len() == 1 && (first == 1 || first == 2 || (251 <= first && first
                <= 254));
            !alone && (first != DO || bytes.len() >= 23)
        },
        None => true,
    }
}

/// Whether a decoder of single characters can take a step on bytes.
pub fn step_possible(bytes: &Vec<u8>) -> (b: bool)
    ensures
        b == can_step(bytes@),
{
    let mut i: usize = 0;
    assert(bytes@.skip(0) =~= bytes@);
    while bytes.len() - i >= 2
        invariant
            i <= bytes.len(),
            can_step(bytes@) == can_step_within(bytes@.skip(i as int), bytes@.len() as int),
        decreases bytes.len() - i,
    {
        assert(bytes@.skip(i as int).skip(1) =~= bytes@.skip(i + 1));
        assert(bytes@.skip(i as int).skip(2) =~= bytes@.skip(i + 2));
        let first: u8 = bytes[i];
        let second: u8 = bytes[i + 1];
        if first == LF {
            i = i + 1;
        } else if first != IAC {
            return true;
        } else if second == IAC || second == NOP {
            i = i + 2;
        } else if second == SB {
            if bytes.len() - i == 2 {
                return true;
            }
            assert(bytes@.skip(i as int).skip(3) =~= bytes@.skip(i + 3));
            let option: u8 = bytes[i + 2];
            return ends_from(bytes, i + 3) && (option != LINEMODE || line_mode_possible(
                bytes,
                i + 3,
            ));
        } else if 251 <= second {
            return true;
        } else {
            i = i + 1;
        }
    }
    true
}

/// What bytes that came make known: bytes for the terminal, and whether the decoder cannot take
/// another step.
#[derive(Debug, PartialEq, Eq)]
pub struct TelnetOutput {
    pub bytes: Vec<u8>,
    pub stuck: bool,
}

/// The receiving side of a Telnet connection, which hands over characters one by one.
pub struct TelnetDecoder {
    pub codec: TelnetCodec,
    pub buffer: BytesMut,
}

impl TelnetDecoder {
    /// Whether the decoder does not suppress go-aheads, and decodes character by character.
    pub open spec fn wf(self) -> bool {
        !codec_state(self.codec).sga && !codec_state(self.codec).by_message
    }

    /// A decoder that has received nothing.
    pub fn new() -> (decoder: Self)
        ensures
            decoder.wf(),
            codec_state(decoder.codec) == (Codec {
                sga: false,
                max_len: MESSAGE_LIMIT,
                partial: Seq::empty(),
                by_message: false,
            }),
            buffered(decoder.buffer) == Seq::<u8>::empty(),
    {
        TelnetDecoder { codec: new_codec(MESSAGE_LIMIT, false), buffer: new_buffer() }
    }

    /// Takes bytes that came, and gives those for the terminal. Where the decoder cannot take a
    /// step, the bytes wait in the buffer.
    pub fn receive(&mut self, data: &[u8]) -> (output: TelnetOutput)
        requires
            old(self).wf(),
        ensures
            final(self).wf(),
            drained(codec_state(old(self).codec), buffered(old(self).buffer) + data@) == (Drained {
                bytes: output.bytes@,
                codec: codec_state(final(self).codec),
                pending: buffered(final(self).buffer),
                stuck: output.stuck,
            }),
    {
        extend_buffer(&mut self.buffer, data);
        let ghost all = drained(codec_state(self.codec), buffered(self.buffer));
        let mut bytes: Vec<u8> = Vec::new();
        let mut stuck: bool = false;
        let mut open: bool = true;
        while open
            invariant
                self.wf(),
                open ==> !stuck && all == (Drained {
                    bytes: bytes@ + drained(codec_state(self.codec), buffered(self.buffer)).bytes,
                    ..drained(codec_state(self.codec), buffered(self.buffer))
                }),
                !open ==> all == (Drained {
                    bytes: bytes@,
                    codec: codec_state(self.codec),
                    pending: buffered(self.buffer),
                    stuck,
                }),
            decreases
                (if open {
                    1int
                } else {
                    0
                }),
                buffered(self.buffer).len(),
        {
            let ghost before = bytes@;
            if !step_possible(&buffer_bytes(&self.buffer)) {
                stuck = true;
                open = false;
                assert(before + Seq::<u8>::empty() =~= bytes@);
            } else {
                match decode_next(&mut self.codec, &mut self.buffer) {
                    Some(piece) => {
                        let ghost rest = drained(codec_state(self.codec), buffered(self.buffer));
                        push_piece(&mut bytes, &piece);
                        assert(before + (piece_bytes(piece@) + rest.bytes) =~= bytes@ + rest.bytes);
                    },
                    None => {
                        open = false;
                        assert(before + Seq::<u8>::empty() =~= bytes@);
                    },
                }
            }
        }
        TelnetOutput { bytes, stuck }
    }
}

/// Calls `nectar::TelnetCodec::encode` for a window size. The bytes are the subnegotiation of
/// option 31 with the width and the height, high bytes first; bytes of value 255 are not doubled.
/// The limit for received messages, with which the codec is made, does not matter.
#[verifier::external_body]
pub(crate) fn encode_window_size(max_len: usize, cols: u16, rows: u16) -> (bytes: Vec<u8>)
    ensures
        bytes@ == window_size(cols, rows),
{
    let mut buffer = BytesMut::new();
    let event = TelnetEvent::Subnegotiate(SubnegotiationType::WindowSize(cols, rows));
    let _ = TelnetCodec::new(max_len).encode(event, &mut buffer);
    buffer.to_vec()
}

/// A receiver gets the data that were sent, command bytes among them.
pub proof fn escaped_data_reads_back(data: Seq<u8>)
    ensures
        unescaped(escaped(data)) == data,
    decreases data.len(),
{
    if data.len() == 0 {
        assert(unescaped(escaped(data)) =~= data);
    } else {
        let first = data[0];
        let rest = data.drop_first();
        lemma_escaped_front(data);
        escaped_data_reads_back(rest);
        if first == IAC {
            assert(escaped(data).skip(2) =~= escaped(rest));
        } else {
            assert(escaped(data).skip(1) =~= escaped(rest));
        }
        assert(unescaped(escaped(data)) =~= seq![first] + unescaped(escaped(rest)));
        assert(seq![first] + rest =~= data);
    }
}

/// The first byte of data comes first in the escaped data.
proof fn lemma_escaped_front(data: Seq<u8>)
    requires
        data.len() > 0,
    ensures
        escaped(data) == (if data[0] == IAC {
            seq![IAC, IAC] + escaped(data.drop_first())
        } else {
            seq![data[0]] + escaped(data.drop_first())
        }),
    decreases data.len(),
{
    reveal_with_fuel(escaped, 2);
    if data.len() == 1 {
        assert(data.drop_last() =~= Seq::empty());
        assert(data.drop_first() =~= Seq::empty());
        assert(escaped(data) =~= (if data[0] == IAC {
            seq![IAC, IAC] + escaped(data.drop_first())
        } else {
            seq![data[0]] + escaped(data.drop_first())
        }));
    } else {
        lemma_escaped_front(data.drop_last());
        assert(data.drop_last().drop_first() =~= data.drop_first().drop_last());
        assert(data.drop_first().last() == data.last());
        assert(escaped(data) =~= (if data[0] == IAC {
            seq![IAC, IAC] + escaped(data.drop_first())
        } else {
            seq![data[0]] + escaped(data.drop_first())
        }));
    }
}

} // verus!
