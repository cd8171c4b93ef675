//! The payloads of the graphics channel: their segments, and the decompressor for them.
use crate::connection::rdp::decode::bytes_view;
use ironrdp::graphics::zgfx::Decompressor;
use vstd::arithmetic::power2::{
    lemma2_to64, lemma2_to64_rest, lemma_pow2_strictly_increases, lemma_pow2_unfold, pow2,
};
use vstd::prelude::*;
use vstd::slice::slice_subrange;

verus! {

/// How many bytes the decompressor remembers.
pub const HISTORY_SIZE: u64 = 2_500_000;

/// IronRDP's decompressor for the channel, with its memory of what it gave out.
#[verifier::external_type_specification]
#[verifier::external_body]
pub struct ExDecompressor(Decompressor);

/// The number that four bytes stand for, the lowest first.
pub open spec fn number(bytes: Seq<u8>) -> int {
    bytes[0] + 256 * bytes[1] + 65536 * bytes[2] + 16777216 * bytes[3]
}

/// How a payload falls into segments. Each tells its kind in its first byte.
#[verifier::ext_equal]
pub enum Division {
    Segments(Seq<Seq<u8>>),
    /// The payload has another form.
    Unsound,
    /// A segment has fewer bytes than its size says.
    CutShort,
}

/// How bytes fall into `count` segments, each behind its size.
pub open spec fn split_segments(bytes: Seq<u8>, count: nat) -> Division
    decreases count,
{
    if count == 0 {
        Division::Segments(Seq::empty())
    } else if bytes.len() < 4 {
        Division::Unsound
    } else {
        let size = number(bytes);
        let rest = bytes.skip(4);
        if size > rest.len() {
            Division::CutShort
        } else if size == 0 || rest[0] % 16 != 4 {
            Division::Unsound
        } else {
            match split_segments(rest.skip(size), (count - 1) as nat) {
                Division::Segments(more) => Division::Segments(seq![rest.take(size)] + more),
                other => other,
            }
        }
    }
}

/// Whether a payload has a number of segments, behind that number and the number of their bytes.
pub open spec fn is_multipart(payload: Seq<u8>) -> bool {
    payload.len() >= 7 && payload[0] == 0xe1
}

/// How a payload falls into segments.
pub open spec fn divided(payload: Seq<u8>) -> Division {
    if payload.len() >= 2 && payload[0] == 0xe0 && payload[1] % 16 == 4 {
        Division::Segments(seq![payload.skip(1)])
    } else if is_multipart(payload) {
        split_segments(payload.skip(7), (payload[1] + 256 * payload[2]) as nat)
    } else {
        Division::Unsound
    }
}

/// Whether there is compressed data in a segment.
pub open spec fn is_compressed(segment: Seq<u8>) -> bool {
    segment.len() > 1 && segment[0] / 32 % 2 == 1
}

/// Whether a payload falls into segments of which one is compressed.
pub open spec fn is_packed(payload: Seq<u8>) -> bool {
    divided(payload) matches Division::Segments(segments) && exists|i: int|
        0 <= i < segments.len() && is_compressed(#[trigger] segments[i])
}

/// What segments hold together, where none is compressed: all but the first byte of each.
pub open spec fn joined(segments: Seq<Seq<u8>>) -> Seq<u8>
    decreases segments.len(),
{
    if segments.len() == 0 {
        Seq::empty()
    } else {
        segments[0].skip(1) + joined(segments.skip(1))
    }
}

/// The bytes that the decompressor finds in a payload that is not packed.
pub open spec fn given_out(payload: Seq<u8>) -> Option<Seq<u8>> {
    match divided(payload) {
        Division::Segments(segments) => Some(joined(segments)),
        _ => None,
    }
}

/// The bytes in a payload that is not packed. One whose segments do not have as many bytes as it
/// says holds none.
pub open spec fn unpacked(payload: Seq<u8>) -> Option<Seq<u8>> {
    match given_out(payload) {
        Some(bytes) => if is_multipart(payload) && bytes.len() != number(payload.skip(3)) {
            None
        } else {
            Some(bytes)
        },
        None => None,
    }
}

/// What is remembered once more bytes were given out: the last as many as before.
pub open spec fn remembering(remembered: Seq<u8>, bytes: Seq<u8>) -> Seq<u8> {
    (remembered + bytes).skip(bytes.len() as int)
}

/// What is remembered once a payload that is not packed was taken. Its bytes are, even where their
/// number is not what the payload says.
pub open spec fn remembering_payload(remembered: Seq<u8>, payload: Seq<u8>) -> Seq<u8> {
    match given_out(payload) {
        Some(bytes) => remembering(remembered, bytes),
        None => remembered,
    }
}

/// What the bit at place `k` of a byte counts, the highest first.
pub open spec fn weight(k: int) -> int {
    if k == 0 {
        128
    } else if k == 1 {
        64
    } else if k == 2 {
        32
    } else if k == 3 {
        16
    } else if k == 4 {
        8
    } else if k == 5 {
        4
    } else if k == 6 {
        2
    } else {
        1
    }
}

/// Whether bit `i` of some bytes is set.
pub open spec fn bit(data: Seq<u8>, i: int) -> bool {
    data[i / 8] as int / weight(i % 8) % 2 == 1
}

/// The number that `n` bits stand for, the highest first.
pub open spec fn field(data: Seq<u8>, at: int, n: nat) -> nat
    decreases n,
{
    if n == 0 {
        0
    } else {
        2 * field(data, at, (n - 1) as nat) + (if bit(data, at + n - 1) {
            1nat
        } else {
            0
        })
    }
}

/// How many set bits stand one after the other from `at` on.
pub open spec fn ones(data: Seq<u8>, at: int, end: int) -> nat
    decreases end - at,
{
    if at >= end || !bit(data, at) {
        0
    } else {
        1 + ones(data, at + 1, end)
    }
}

/// What compressed data start with.
#[derive(Debug, Clone, Copy, PartialEq, Eq, Structural)]
pub enum Token {
    /// The bits end within it.
    Short,
    /// No token starts so.
    Unknown,
    /// A byte follows.
    Null,
    /// It stands for a byte.
    Literal { size: usize },
    /// A distance follows: `base`, and what the next `width` bits add.
    Match { size: usize, width: usize, base: u64 },
}

/// The token at `at`, of data whose bits end at `end`. Tokens that stand for a byte have five to
/// eight bits; they are tried before those for a distance, so that those need eight bits to be
/// there, and what is no token nine.
pub open spec fn token(data: Seq<u8>, at: int, end: int) -> Token {
    let left = end - at;
    let middle = field(data, at + 2, 3);
    if !bit(data, at) {
        Token::Null
    } else if left < 5 {
        Token::Short
    } else if bit(data, at + 1) {
        let long = left > 5 && bit(data, at + 5);
        let size: usize = if middle <= 1 {
            5
        } else if middle == 2 || (middle == 3 && !long) {
            6
        } else if middle == 7 && long {
            8
        } else {
            7
        };
        if size > left {
            Token::Short
        } else {
            Token::Literal { size }
        }
    } else if left < 8 {
        Token::Short
    } else if middle == 0 {
        if left < 9 {
            Token::Short
        } else {
            Token::Unknown
        }
    } else if middle == 1 {
        Token::Match { size: 5, width: 5, base: 0 }
    } else if middle == 2 {
        Token::Match { size: 5, width: 7, base: 32 }
    } else if middle == 3 {
        Token::Match { size: 5, width: 9, base: 160 }
    } else if middle == 4 {
        Token::Match { size: 5, width: 10, base: 672 }
    } else if middle == 5 {
        Token::Match { size: 5, width: 12, base: 1_696 }
    } else if middle == 6 {
        if bit(data, at + 5) {
            Token::Match { size: 6, width: 15, base: 22_176 }
        } else {
            Token::Match { size: 6, width: 14, base: 5_792 }
        }
    } else if !bit(data, at + 5) {
        if bit(data, at + 6) {
            Token::Match { size: 7, width: 20, base: 317_088 }
        } else {
            Token::Match { size: 7, width: 18, base: 54_944 }
        }
    } else if !bit(data, at + 6) {
        if bit(data, at + 7) {
            Token::Match { size: 8, width: 21, base: 2_414_240 }
        } else {
            Token::Match { size: 8, width: 20, base: 1_365_664 }
        }
    } else if left < 9 {
        Token::Short
    } else if !bit(data, at + 7) {
        if bit(data, at + 8) {
            Token::Match { size: 9, width: 23, base: 8_705_696 }
        } else {
            Token::Match { size: 9, width: 22, base: 4_511_392 }
        }
    } else if bit(data, at + 8) {
        Token::Unknown
    } else {
        Token::Match { size: 9, width: 24, base: 17_094_304 }
    }
}

/// What becomes of taking one token.
#[verifier::ext_equal]
pub enum Move {
    /// The data cannot be taken: they end too early, reach back too far, or stand for more bytes
    /// than there can be.
    Broken,
    /// The data are in error.
    Unknown,
    /// The next token starts at `next`, and `more` bytes are given out.
    On { next: int, more: nat },
}

/// Taking what follows a distance of zero: a number of bytes, which start at a whole byte.
pub open spec fn raw_move(data: Seq<u8>, at: int, end: int) -> Move {
    let count = field(data, at, 15);
    let next = (at + 15 + 7) / 8 * 8 + 8 * count;
    if at + 15 > end || next > end {
        Move::Broken
    } else {
        Move::On { next, more: count }
    }
}

/// Taking what follows another distance: how many bytes are repeated. Set bits tell how many bits
/// the number has.
pub open spec fn length_move(data: Seq<u8>, at: int, end: int) -> Move {
    let n = ones(data, at, end);
    if at + n + 1 > end {
        Move::Broken
    } else if n == 0 {
        Move::On { next: at + 1, more: 3 }
    } else if at + n + 1 + n + 1 > end {
        Move::Broken
    } else {
        Move::On {
            next: at + n + 1 + n + 1,
            more: pow2(n + 1) + field(data, at + n as int + 1, n + 1),
        }
    }
}

/// Taking the token at `at`.
pub open spec fn moved(data: Seq<u8>, at: int, end: int) -> Move {
    match token(data, at, end) {
        Token::Short => Move::Broken,
        Token::Unknown => Move::Unknown,
        Token::Null => if at + 9 > end {
            Move::Broken
        } else {
            Move::On { next: at + 9, more: 1 }
        },
        Token::Literal { size } => Move::On { next: at + size, more: 1 },
        Token::Match { size, width, base } => {
            let distance = base + field(data, at + size, width as nat);
            let next = at + size + width;
            if next > end {
                Move::Broken
            } else if distance == 0 {
                raw_move(data, next, end)
            } else if distance > HISTORY_SIZE {
                Move::Broken
            } else {
                length_move(data, next, end)
            }
        },
    }
}

/// What becomes of taking compressed data.
#[verifier::ext_equal]
pub enum Walk {
    Broken,
    Unknown,
    /// All is taken, and so many bytes were given out.
    Done(nat),
}

/// Taking the tokens from `at` on, where `made` bytes were given out before.
pub open spec fn walked(data: Seq<u8>, at: int, end: int, made: nat) -> Walk
    decreases end - at,
{
    if at >= end {
        Walk::Done(made)
    } else {
        match moved(data, at, end) {
            Move::Broken => Walk::Broken,
            Move::Unknown => Walk::Unknown,
            Move::On { next, more } => if made + more > isize::MAX {
                Walk::Broken
            } else {
                walked(data, next, end, made + more)
            },
        }
    }
}

/// Taking compressed data, where `made` bytes were given out before. The last byte tells how many
/// bits of the one before it do not count.
pub open spec fn data_walked(data: Seq<u8>, made: nat) -> Walk {
    if data.len() > usize::MAX / 64 || data.last() > 8 * (data.len() - 1) {
        Walk::Broken
    } else {
        walked(data, 0, 8 * (data.len() - 1) - data.last(), made)
    }
}

/// Whether the decompressor gets through segments, where `made` bytes were given out before. At
/// data in error it stops.
pub open spec fn segments_whole(segments: Seq<Seq<u8>>, made: nat) -> bool
    decreases segments.len(),
{
    if segments.len() == 0 {
        true
    } else if is_compressed(segments[0]) {
        match data_walked(segments[0].skip(1), made) {
            Walk::Broken => false,
            Walk::Unknown => true,
            Walk::Done(now) => segments_whole(segments.skip(1), now),
        }
    } else {
        let now = made + segments[0].len() - 1;
        now <= isize::MAX && segments_whole(segments.skip(1), now as nat)
    }
}

/// Whether the decompressor gets through a payload: no segment is cut short, and no compressed data
/// end within a token, reach back further than is remembered, or stand for more bytes than there
/// can be.
pub open spec fn whole(payload: Seq<u8>) -> bool {
    match divided(payload) {
        Division::Segments(segments) => segments_whole(segments, 0),
        Division::Unsound => true,
        Division::CutShort => false,
    }
}

/// What the decompressor makes of a payload: the bytes, where it holds some, and what is remembered
/// then.
#[verifier::ext_equal]
pub struct Taken {
    pub bytes: Option<Seq<u8>>,
    pub remembered: Seq<u8>,
}

/// The last bytes that a decompressor gave out, the newest at the end.
pub uninterp spec fn history(decompressor: Decompressor) -> Seq<u8>;

/// What a decompressor that remembers the given bytes makes of a payload.
pub uninterp spec fn zgfx_taken(remembered: Seq<u8>, payload: Seq<u8>) -> Taken;

/// Calls `ironrdp::graphics::zgfx::Decompressor::new`. The history of the new decompressor is full
/// of zeros.
#[verifier::external_body]
pub(crate) fn new_decompressor() -> (decompressor: Decompressor)
    ensures
        history(decompressor) == Seq::new(2_500_000, |i: int| 0u8),
{
    Decompressor::new()
}

/// Calls `ironrdp::graphics::zgfx::Decompressor::decompress`. What it gives, and its history
/// afterwards, is settled by its history and the payload; it gives nothing where the payload is in
/// error. Of a payload that is not packed it gives the bytes of the segments, and those go into the
/// history. Left out are payloads that are not whole. It panics on them, but for those that reach
/// back further than the history: there a subtraction overflows, or not, by where in its buffer the
/// history starts, and what is read then is left unsaid.
#[verifier::external_body]
pub(crate) fn decompress(decompressor: &mut Decompressor, payload: &[u8]) -> (bytes: Option<
    Vec<u8>,
>)
    requires
        whole(payload@),
    ensures
        zgfx_taken(history(*old(decompressor)), payload@) == (Taken {
            bytes: bytes_view(bytes),
            remembered: history(*final(decompressor)),
        }),
        !is_packed(payload@) ==> bytes_view(bytes) == unpacked(payload@),
        !is_packed(payload@) ==> history(*final(decompressor)) == remembering_payload(
            history(*old(decompressor)),
            payload@,
        ),
{
    let mut bytes = Vec::new();
    decompressor.decompress(payload, &mut bytes).ok()?;
    Some(bytes)
}

/// The number that the four bytes at `at` stand for, the lowest first.
fn read_number(payload: &[u8], at: usize) -> (n: u32)
    requires
        at + 4 <= payload@.len(),
    ensures
        n == number(payload@.skip(at as int)),
{
    payload[at] as u32 + 256 * payload[at + 1] as u32 + 65536 * payload[at + 2] as u32 + 16777216
        * payload[at + 3] as u32
}

/// Whether bit `i` of some bytes is set.
fn is_set(data: &[u8], i: usize) -> (b: bool)
    requires
        i < 8 * data@.len(),
    ensures
        b == bit(data@, i as int),
{
    let byte: u8 = data[i / 8];
    let k: usize = i % 8;
    let w: u8 = if k == 0 {
        128
    } else if k == 1 {
        64
    } else if k == 2 {
        32
    } else if k == 3 {
        16
    } else if k == 4 {
        8
    } else if k == 5 {
        4
    } else if k == 6 {
        2
    } else {
        1
    };
    byte / w % 2 == 1
}

/// The number that `n` bits stand for, the highest first.
fn read_field(data: &[u8], at: usize, n: usize) -> (value: u64)
    requires
        n <= 63,
        at + n <= 8 * data@.len(),
        at + n <= usize::MAX,
    ensures
        value == field(data@, at as int, n as nat),
        value < pow2(n as nat),
{
    let mut value: u64 = 0;
    let mut k: usize = 0;
    proof {
        lemma2_to64_rest();
        lemma2_to64();
    }
    while k < n
        invariant
            k <= n <= 63,
            at + n <= 8 * data@.len(),
            at + n <= usize::MAX,
            value == field(data@, at as int, k as nat),
            value < pow2(k as nat),
        decreases n - k,
    {
        proof {
            lemma_pow2_unfold((k + 1) as nat);
            lemma2_to64_rest();
            if k + 1 < 63 {
                lemma_pow2_strictly_increases((k + 1) as nat, 63);
            }
        }
        value = 2 * value + (if is_set(data, at + k) {
            1
        } else {
            0
        });
        k = k + 1;
    }
    value
}

/// How many set bits stand one after the other from `at` on.
fn count_ones(data: &[u8], at: usize, end: usize) -> (n: usize)
    requires
        at <= end <= 8 * data@.len(),
    ensures
        n == ones(data@, at as int, end as int),
        at + n <= end,
{
    let mut i: usize = at;
    while i < end && is_set(data, i)
        invariant
            at <= i <= end <= 8 * data@.len(),
            ones(data@, at as int, end as int) == i - at + ones(data@, i as int, end as int),
        decreases end - i,
    {
        i = i + 1;
    }
    i - at
}

/// Two to the power of `n`.
fn power(n: usize) -> (p: u64)
    requires
        n <= 62,
    ensures
        p == pow2(n as nat),
{
    let mut p: u64 = 1;
    let mut k: usize = 0;
    proof {
        lemma2_to64();
    }
    while k < n
        invariant
            k <= n <= 62,
            p == pow2(k as nat),
        decreases n - k,
    {
        proof {
            lemma_pow2_unfold((k + 1) as nat);
            lemma2_to64_rest();
            if k + 1 < 62 {
                lemma_pow2_strictly_increases((k + 1) as nat, 62);
            }
        }
        p = 2 * p;
        k = k + 1;
    }
    p
}

/// The token at `at`.
fn read_token(data: &[u8], at: usize, end: usize) -> (t: Token)
    requires
        at < end <= 8 * data@.len(),
        end + 64 <= usize::MAX,
    ensures
        t == token(data@, at as int, end as int),
{
    let left: usize = end - at;
    if !is_set(data, at) {
        return Token::Null;
    }
    if left < 5 {
        return Token::Short;
    }
    let middle: u64 = read_field(data, at + 2, 3);
    proof {
        lemma2_to64();
    }
    if is_set(data, at + 1) {
        let long: bool = left > 5 && is_set(data, at + 5);
        let size: usize = if middle <= 1 {
            5
        } else if middle == 2 || (middle == 3 && !long) {
            6
        } else if middle == 7 && long {
            8
        } else {
            7
        };
        return if size > left {
            Token::Short
        } else {
            Token::Literal { size }
        };
    }
    if left < 8 {
        return Token::Short;
    }
    if middle == 0 {
        if left < 9 {
            Token::Short
        } else {
            Token::Unknown
        }
    } else if middle == 1 {
        Token::Match { size: 5, width: 5, base: 0 }
    } else if middle == 2 {
        Token::Match { size: 5, width: 7, base: 32 }
    } else if middle == 3 {
        Token::Match { size: 5, width: 9, base: 160 }
    } else if middle == 4 {
        Token::Match { size: 5, width: 10, base: 672 }
    } else if middle == 5 {
        Token::Match { size: 5, width: 12, base: 1_696 }
    } else if middle == 6 {
        if is_set(data, at + 5) {
            Token::Match { size: 6, width: 15, base: 22_176 }
        } else {
            Token::Match { size: 6, width: 14, base: 5_792 }
        }
    } else if !is_set(data, at + 5) {
        if is_set(data, at + 6) {
            Token::Match { size: 7, width: 20, base: 317_088 }
        } else {
            Token::Match { size: 7, width: 18, base: 54_944 }
        }
    } else if !is_set(data, at + 6) {
        if is_set(data, at + 7) {
            Token::Match { size: 8, width: 21, base: 2_414_240 }
        } else {
            Token::Match { size: 8, width: 20, base: 1_365_664 }
        }
    } else if left < 9 {
        Token::Short
    } else if !is_set(data, at + 7) {
        if is_set(data, at + 8) {
            Token::Match { size: 9, width: 23, base: 8_705_696 }
        } else {
            Token::Match { size: 9, width: 22, base: 4_511_392 }
        }
    } else if is_set(data, at + 8) {
        Token::Unknown
    } else {
        Token::Match { size: 9, width: 24, base: 17_094_304 }
    }
}

/// What becomes of taking one token that can be taken.
enum TokenMove {
    Broken,
    Unknown,
    On { next: usize, more: u64 },
}

impl TokenMove {
    /// Whether this is what `m` says, as far as the bytes can be given out at all.
    spec fn fits(self, m: Move) -> bool {
        match self {
            TokenMove::Broken => m is Broken || (m is On && m->more > isize::MAX),
            TokenMove::Unknown => m is Unknown,
            TokenMove::On { next, more } => m == (Move::On { next: next as int, more: more as nat }),
        }
    }
}

/// Takes what follows a distance of zero.
fn take_raw(data: &[u8], at: usize, end: usize) -> (m: TokenMove)
    requires
        at <= end <= 8 * data@.len(),
        end <= usize::MAX / 8,
    ensures
        m.fits(raw_move(data@, at as int, end as int)),
        m matches TokenMove::On { more, .. } ==> more < 0x8000,
{
    if end - at < 15 {
        return TokenMove::Broken;
    }
    let count: u64 = read_field(data, at, 15);
    proof {
        lemma2_to64();
    }
    let start: usize = (at + 22) / 8 * 8;
    if start > end || (8 * count) > (end - start) as u64 {
        return TokenMove::Broken;
    }
    TokenMove::On { next: start + 8 * count as usize, more: count }
}

/// Takes what follows another distance.
fn take_length(data: &[u8], at: usize, end: usize) -> (m: TokenMove)
    requires
        at <= end <= 8 * data@.len(),
        end <= usize::MAX / 8,
    ensures
        m.fits(length_move(data@, at as int, end as int)),
        m matches TokenMove::On { more, .. } ==> more < 0x8000_0000_0000_0000,
{
    let n: usize = count_ones(data, at, end);
    if at + n + 1 > end {
        return TokenMove::Broken;
    }
    if n == 0 {
        return TokenMove::On { next: at + 1, more: 3 };
    }
    if at + n + 1 + n + 1 > end {
        return TokenMove::Broken;
    }
    proof {
        lemma2_to64_rest();
    }
    if n > 61 {
        proof {
            if n + 1 > 63 {
                lemma_pow2_strictly_increases(63, (n + 1) as nat);
            }
        }
        return TokenMove::Broken;
    }
    let length: u64 = read_field(data, at + n + 1, n + 1);
    proof {
        lemma_pow2_unfold((n + 2) as nat);
        if n + 2 < 63 {
            lemma_pow2_strictly_increases((n + 2) as nat, 63);
        }
    }
    TokenMove::On { next: at + n + 1 + n + 1, more: power(n + 1) + length }
}

/// Takes the token at `at`.
fn take_token(data: &[u8], at: usize, end: usize) -> (m: TokenMove)
    requires
        at < end <= 8 * data@.len(),
        end <= usize::MAX / 8,
    ensures
        m.fits(moved(data@, at as int, end as int)),
        m matches TokenMove::On { more, .. } ==> more < 0x8000_0000_0000_0000,
{
    match read_token(data, at, end) {
        Token::Short => TokenMove::Broken,
        Token::Unknown => TokenMove::Unknown,
        Token::Null => if end - at < 9 {
            TokenMove::Broken
        } else {
            TokenMove::On { next: at + 9, more: 1 }
        },
        Token::Literal { size } => TokenMove::On { next: at + size, more: 1 },
        Token::Match { size, width, base } => {
            if end - at < size + width {
                return TokenMove::Broken;
            }
            let value: u64 = read_field(data, at + size, width);
            proof {
                lemma2_to64();
                if width < 32 {
                    lemma_pow2_strictly_increases(width as nat, 32);
                }
            }
            let distance: u64 = base + value;
            let next: usize = at + size + width;
            if distance == 0 {
                take_raw(data, next, end)
            } else if distance > HISTORY_SIZE {
                TokenMove::Broken
            } else {
                take_length(data, next, end)
            }
        },
    }
}

/// What becomes of taking compressed data.
enum DataWalk {
    Broken,
    Unknown,
    Done(u64),
}

impl DataWalk {
    spec fn walk(self) -> Walk {
        match self {
            DataWalk::Broken => Walk::Broken,
            DataWalk::Unknown => Walk::Unknown,
            DataWalk::Done(made) => Walk::Done(made as nat),
        }
    }
}

/// Takes compressed data, where `made` bytes were given out before.
fn walk_data(data: &[u8], made: u64) -> (w: DataWalk)
    requires
        data@.len() > 0,
        made <= isize::MAX,
    ensures
        w.walk() == data_walked(data@, made as nat),
        w matches DataWalk::Done(now) ==> now <= isize::MAX,
{
    let n: usize = data.len();
    if n > usize::MAX / 64 {
        return DataWalk::Broken;
    }
    let unused: usize = data[n - 1] as usize;
    if unused > 8 * (n - 1) {
        return DataWalk::Broken;
    }
    let end: usize = 8 * (n - 1) - unused;
    let limit: u64 = isize::MAX as u64;
    let mut at: usize = 0;
    let mut now: u64 = made;
    while at < end
        invariant
            at <= end <= 8 * data@.len(),
            end <= usize::MAX / 8,
            now <= limit,
            limit == isize::MAX,
            data_walked(data@, made as nat) == walked(data@, at as int, end as int, now as nat),
        decreases end - at,
    {
        match take_token(data, at, end) {
            TokenMove::Broken => {
                return DataWalk::Broken;
            },
            TokenMove::Unknown => {
                return DataWalk::Unknown;
            },
            TokenMove::On { next, more } => {
                if now + more > limit {
                    return DataWalk::Broken;
                }
                proof {
                    lemma_move_goes_on(data@, at as int, end as int);
                }
                now = now + more;
                at = next;
            },
        }
    }
    DataWalk::Done(now)
}

/// A token takes bits, and no more than there are.
proof fn lemma_move_goes_on(data: Seq<u8>, at: int, end: int)
    requires
        at < end,
    ensures
        moved(data, at, end) matches Move::On { next, .. } ==> at < next <= end,
{
}

/// The segments of a payload, as places in it.
enum SegmentPlaces {
    Segments(Vec<(usize, usize)>),
    Unsound,
    CutShort,
}

/// The segments at the given places.
spec fn segments_at(payload: Seq<u8>, places: Seq<(usize, usize)>) -> Seq<Seq<u8>> {
    Seq::new(
        places.len(),
        |i: int| payload.subrange(places[i].0 as int, places[i].1 as int),
    )
}

/// Whether places are places of segments in a payload.
spec fn are_places(payload: Seq<u8>, places: Seq<(usize, usize)>) -> bool {
    forall|i: int|
        0 <= i < places.len() ==> (#[trigger] places[i]).0 < places[i].1 <= payload.len()
}

/// Segments in front of how the rest falls into segments.
spec fn after_segments(first: Seq<Seq<u8>>, rest: Division) -> Division {
    match rest {
        Division::Segments(more) => Division::Segments(first + more),
        other => other,
    }
}

impl SegmentPlaces {
    spec fn division(self, payload: Seq<u8>) -> Division {
        match self {
            SegmentPlaces::Segments(places) => Division::Segments(segments_at(payload, places@)),
            SegmentPlaces::Unsound => Division::Unsound,
            SegmentPlaces::CutShort => Division::CutShort,
        }
    }
}

/// Finds the segments of a payload.
fn find_segments(payload: &[u8]) -> (found: SegmentPlaces)
    ensures
        found.division(payload@) == divided(payload@),
        found matches SegmentPlaces::Segments(places) ==> are_places(payload@, places@),
{
    let n: usize = payload.len();
    let mut places: Vec<(usize, usize)> = Vec::new();
    if n >= 2 && payload[0] == 0xe0 && payload[1] % 16 == 4 {
        places.push((1, n));
        assert(segments_at(payload@, places@) =~= seq![payload@.skip(1)]) by {
            assert(payload@.subrange(1, n as int) =~= payload@.skip(1));
        }
        return SegmentPlaces::Segments(places);
    }
    if n < 7 || payload[0] != 0xe1 {
        return SegmentPlaces::Unsound;
    }
    let mut left: usize = payload[1] as usize + 256 * payload[2] as usize;
    let mut at: usize = 7;
    assert(segments_at(payload@, places@) =~= Seq::empty());
    assert(divided(payload@) =~= after_segments(
        segments_at(payload@, places@),
        split_segments(payload@.skip(at as int), left as nat),
    )) by {
        if let Division::Segments(more) = split_segments(payload@.skip(7), left as nat) {
            assert(Seq::<Seq<u8>>::empty() + more =~= more);
        }
    }
    while left > 0
        invariant
            n == payload@.len(),
            7 <= at <= n,
            are_places(payload@, places@),
            divided(payload@) == after_segments(
                segments_at(payload@, places@),
                split_segments(payload@.skip(at as int), left as nat),
            ),
        decreases left,
    {
        if n - at < 4 {
            return SegmentPlaces::Unsound;
        }
        let size: u32 = read_number(payload, at);
        assert(payload@.skip(at as int).skip(4) =~= payload@.skip(at + 4));
        if size as usize > n - at - 4 {
            return SegmentPlaces::CutShort;
        }
        if size == 0 || payload[at + 4] % 16 != 4 {
            return SegmentPlaces::Unsound;
        }
        let start: usize = at + 4;
        let stop: usize = start + size as usize;
        let ghost before = segments_at(payload@, places@);
        let ghost rest = split_segments(payload@.skip(stop as int), (left - 1) as nat);
        assert(payload@.skip(start as int).skip(size as int) =~= payload@.skip(stop as int));
        assert(payload@.skip(start as int).take(size as int) =~= payload@.subrange(
            start as int,
            stop as int,
        ));
        places.push((start, stop));
        let ghost segment = payload@.subrange(start as int, stop as int);
        assert(segments_at(payload@, places@) =~= before.push(segment));
        assert(divided(payload@) =~= after_segments(segments_at(payload@, places@), rest)) by {
            if let Division::Segments(more) = rest {
                assert(before + (seq![segment] + more) =~= before.push(segment) + more);
            }
        }
        at = stop;
        left = left - 1;
    }
    assert(segments_at(payload@, places@) + Seq::<Seq<u8>>::empty() =~= segments_at(
        payload@,
        places@,
    ));
    SegmentPlaces::Segments(places)
}

/// Whether the decompressor gets through a payload.
pub fn is_whole(payload: &[u8]) -> (b: bool)
    ensures
        b == whole(payload@),
{
    let places = match find_segments(payload) {
        SegmentPlaces::Segments(places) => places,
        SegmentPlaces::Unsound => {
            return true;
        },
        SegmentPlaces::CutShort => {
            return false;
        },
    };
    let ghost segments = segments_at(payload@, places@);
    let limit: u64 = isize::MAX as u64;
    let mut made: u64 = 0;
    let mut i: usize = 0;
    assert(segments.skip(0) =~= segments);
    while i < places.len()
        invariant
            i <= places.len(),
            are_places(payload@, places@),
            segments == segments_at(payload@, places@),
            made <= limit,
            limit == isize::MAX,
            whole(payload@) == segments_whole(segments.skip(i as int), made as nat),
        decreases places.len() - i,
    {
        let (start, stop) = places[i];
        let ghost segment = payload@.subrange(start as int, stop as int);
        assert(segments.skip(i as int)[0] == segment);
        assert(segments.skip(i as int).skip(1) =~= segments.skip(i + 1));
        if stop - start > 1 && payload[start] / 32 % 2 == 1 {
            let data = slice_subrange(payload, start + 1, stop);
            assert(segment.skip(1) =~= data@);
            match walk_data(data, made) {
                DataWalk::Broken => {
                    return false;
                },
                DataWalk::Unknown => {
                    return true;
                },
                DataWalk::Done(now) => {
                    made = now;
                },
            }
        } else {
            let more: u64 = (stop - start - 1) as u64;
            if more > limit - made {
                return false;
            }
            made = made + more;
        }
        i = i + 1;
    }
    true
}

} // verus!
