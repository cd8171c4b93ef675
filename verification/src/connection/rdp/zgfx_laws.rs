//! What the payloads of the graphics channel hold.
use crate::connection::rdp::zgfx::{
    bit, divided, field, given_out, is_packed, joined, length_move, moved, remembering,
    split_segments, token, unpacked, whole, Division, Move, Token,
};
use vstd::arithmetic::power2::{lemma2_to64, lemma2_to64_rest, lemma_pow2_adds, pow2};
use vstd::prelude::*;

verus! {

/// A number in four bytes, the lowest first.
pub open spec fn four_bytes(n: int) -> Seq<u8> {
    seq![
        (n % 256) as u8,
        (n / 256 % 256) as u8,
        (n / 65536 % 256) as u8,
        (n / 16777216 % 256) as u8,
    ]
}

/// Texts of bytes, one after the other.
pub open spec fn concatenated(parts: Seq<Seq<u8>>) -> Seq<u8>
    decreases parts.len(),
{
    if parts.len() == 0 {
        Seq::empty()
    } else {
        parts[0] + concatenated(parts.skip(1))
    }
}

/// Plain segments, each behind its size: a byte that tells its kind, and the bytes it holds.
pub open spec fn plain_segments(parts: Seq<Seq<u8>>) -> Seq<u8>
    decreases parts.len(),
{
    if parts.len() == 0 {
        Seq::empty()
    } else {
        four_bytes((parts[0].len() + 1) as int) + (seq![4u8] + parts[0]) + plain_segments(parts.skip(1))
    }
}

/// Whether all parts are short enough for their sizes.
pub open spec fn fit(parts: Seq<Seq<u8>>) -> bool {
    forall|i: int| 0 <= i < parts.len() ==> (#[trigger] parts[i]).len() < 0xffff_ffff
}

/// The bytes of a payload with several segments: how many there are, and how many bytes they hold.
pub open spec fn multipart(parts: Seq<Seq<u8>>, total: int) -> Seq<u8> {
    seq![0xe1u8, (parts.len() % 256) as u8, (parts.len() / 256) as u8] + four_bytes(total)
        + plain_segments(parts)
}

proof fn lemma_four_bytes(n: int)
    requires
        0 <= n < 0x1_0000_0000,
    ensures
        crate::connection::rdp::zgfx::number(four_bytes(n)) == n,
{
}

#[verifier::rlimit(40)]
proof fn lemma_split(parts: Seq<Seq<u8>>)
    requires
        fit(parts),
    ensures
        split_segments(plain_segments(parts), parts.len()) matches Division::Segments(segments)
            && segments.len() == parts.len() && joined(segments) == concatenated(parts) && forall|
            i: int,
        |
            0 <= i < segments.len() ==> #[trigger] segments[i] == seq![4u8] + parts[i],
    decreases parts.len(),
{
    if parts.len() > 0 {
        let all = plain_segments(parts);
        let tail = parts.skip(1);
        let n = parts[0].len() + 1;
        assert forall|i: int| 0 <= i < tail.len() implies (#[trigger] tail[i]).len()
            < 0xffff_ffff by {
            assert(tail[i] == parts[i + 1]);
        }
        lemma_split(tail);
        lemma_four_bytes(n as int);
        let head = seq![4u8] + parts[0];
        assert(all.len() >= 4);
        assert(all[0] == four_bytes(n as int)[0] && all[1] == four_bytes(n as int)[1] && all[2]
            == four_bytes(n as int)[2] && all[3] == four_bytes(n as int)[3]);
        let rest = all.skip(4);
        assert(rest =~= head + plain_segments(tail));
        assert(rest.take(n as int) =~= head);
        assert(rest.skip(n as int) =~= plain_segments(tail));
        assert(rest[0] == 4);
        let more = split_segments(plain_segments(tail), tail.len())->Segments_0;
        let segments = seq![head] + more;
        assert(split_segments(all, parts.len()) == Division::Segments(segments));
        assert(segments.skip(1) =~= more);
        assert(segments[0].skip(1) =~= parts[0]);
        assert forall|i: int| 0 <= i < segments.len() implies #[trigger] segments[i] == seq![4u8]
            + parts[i] by {
            if i > 0 {
                assert(segments[i] == more[i - 1]);
                assert(tail[i - 1] == parts[i]);
            }
        }
    } else {
        assert(split_segments(plain_segments(parts), 0) == Division::Segments(Seq::empty()));
        assert(joined(Seq::empty()) =~= concatenated(parts));
    }
}

/// A payload with plain segments holds their bytes one after the other, where it says how many they
/// are, and else none. Its bytes are given out in either case.
pub proof fn plain_segments_read_back(parts: Seq<Seq<u8>>, total: int)
    requires
        fit(parts),
        parts.len() < 65536,
        0 <= total < 0x1_0000_0000,
    ensures
        ({
            let payload = multipart(parts, total);
            &&& given_out(payload) == Some(concatenated(parts))
            &&& concatenated(parts).len() == total ==> unpacked(payload) == Some(concatenated(parts))
            &&& concatenated(parts).len() != total ==> unpacked(payload) is None
            &&& !is_packed(payload)
        }),
{
    let payload = multipart(parts, total);
    lemma_split(parts);
    lemma_multipart(parts, total);
    let segments = divided(payload)->Segments_0;
    assert(divided(payload) == split_segments(plain_segments(parts), parts.len()));
    assert forall|i: int| 0 <= i < segments.len() implies !crate::connection::rdp::zgfx::is_compressed(
        #[trigger] segments[i],
    ) by {
        assert(segments[i] == seq![4u8] + parts[i]);
        assert(segments[i][0] == 4);
    }
}

proof fn lemma_multipart(parts: Seq<Seq<u8>>, total: int)
    requires
        parts.len() < 65536,
        0 <= total < 0x1_0000_0000,
    ensures
        ({
            let payload = multipart(parts, total);
            &&& payload.len() >= 7
            &&& payload[0] == 0xe1
            &&& payload[1] + 256 * payload[2] == parts.len()
            &&& payload.skip(7) == plain_segments(parts)
            &&& crate::connection::rdp::zgfx::number(payload.skip(3)) == total
        }),
{
    let n = parts.len() as int;
    let start = seq![0xe1u8, (parts.len() % 256) as u8, (parts.len() / 256) as u8];
    let four = four_bytes(total);
    let tail = plain_segments(parts);
    let payload = multipart(parts, total);
    assert(payload == start + four + tail);
    assert(start.len() == 3 && four.len() == 4);
    assert(payload.skip(7) =~= tail);
    assert(payload[0] == start[0] && payload[1] == start[1] && payload[2] == start[2]);
    assert(n % 256 + 256 * (n / 256) == n);
    let at = payload.skip(3);
    assert(at =~= four + tail);
    assert(at[0] == four[0] && at[1] == four[1] && at[2] == four[2] && at[3] == four[3]);
    lemma_four_bytes(total);
}

/// A payload with a single plain segment holds its bytes, whatever they are.
pub proof fn single_segments_read_back(body: Seq<u8>)
    ensures
        unpacked(seq![0xe0u8, 4u8] + body) == Some(body),
        !is_packed(seq![0xe0u8, 4u8] + body),
        body.len() <= isize::MAX ==> whole(seq![0xe0u8, 4u8] + body),
        unpacked(Seq::empty()) is None,
{
    let payload = seq![0xe0u8, 4u8] + body;
    let segment = seq![4u8] + body;
    assert(payload.skip(1) =~= segment);
    assert(divided(payload) == Division::Segments(seq![segment]));
    assert(seq![segment].skip(1) =~= Seq::empty());
    assert(joined(Seq::<Seq<u8>>::empty()) =~= Seq::empty());
    assert(segment.skip(1) =~= body);
    assert(joined(seq![segment]) =~= body);
    assert(segment[0] == 4);
    assert(seq![segment][0] == segment);
    assert(crate::connection::rdp::zgfx::segments_whole(Seq::empty(), body.len()));
}

/// A segment that has fewer bytes than its size says is not whole.
pub proof fn cut_segments_are_not_whole(size: int, bytes: Seq<u8>, total: int)
    requires
        0 <= size < 0x1_0000_0000,
        bytes.len() < size,
    ensures
        !whole(seq![0xe1u8, 1u8, 0u8] + four_bytes(total) + four_bytes(size) + bytes),
{
    let payload = seq![0xe1u8, 1u8, 0u8] + four_bytes(total) + four_bytes(size) + bytes;
    lemma_four_bytes(size);
    let rest = payload.skip(7);
    assert(rest =~= four_bytes(size) + bytes);
    assert(rest[0] == four_bytes(size)[0] && rest[1] == four_bytes(size)[1] && rest[2]
        == four_bytes(size)[2] && rest[3] == four_bytes(size)[3]);
    assert(rest.skip(4) =~= bytes);
    reveal_with_fuel(split_segments, 2);
}

/// What is remembered are the last bytes that were given out, the newest at the end.
pub proof fn the_last_bytes_are_remembered(remembered: Seq<u8>, bytes: Seq<u8>, i: int)
    requires
        0 <= i < remembered.len(),
    ensures
        ({
            let n = remembered.len() as int;
            let m = bytes.len() as int;
            let after = remembering(remembered, bytes);
            &&& after.len() == n
            &&& i + m < n ==> after[i] == remembered[i + m]
            &&& i + m >= n ==> after[i] == bytes[i + m - n]
        }),
{
}

/// The bits of data are read with the highest first: eight of them from a whole byte on are that byte,
/// and more bits behind a number shift it up.
pub proof fn bits_are_read_from_the_highest(data: Seq<u8>, i: int, at: int, n: nat, m: nat)
    requires
        0 <= i < data.len(),
    ensures
        field(data, 8 * i, 8) == data[i],
        field(data, at, n + m) == field(data, at, n) * pow2(m) + field(data, at + n, m),
{
    lemma_byte(data, i);
    lemma_field_split(data, at, n, m);
}

proof fn lemma_byte(data: Seq<u8>, i: int)
    requires
        0 <= i < data.len(),
    ensures
        field(data, 8 * i, 8) == data[i],
{
    reveal_with_fuel(field, 9);
    let b = data[i] as int;
    let at = 8 * i;
    assert(at / 8 == i && at % 8 == 0);
    assert((at + 1) / 8 == i && (at + 1) % 8 == 1);
    assert((at + 2) / 8 == i && (at + 2) % 8 == 2);
    assert((at + 3) / 8 == i && (at + 3) % 8 == 3);
    assert((at + 4) / 8 == i && (at + 4) % 8 == 4);
    assert((at + 5) / 8 == i && (at + 5) % 8 == 5);
    assert((at + 6) / 8 == i && (at + 6) % 8 == 6);
    assert((at + 7) / 8 == i && (at + 7) % 8 == 7);
    assert(field(data, at, 1) == b / 128 % 2);
    assert(field(data, at, 2) == b / 64);
    assert(field(data, at, 3) == b / 32);
    assert(field(data, at, 4) == b / 16);
    assert(field(data, at, 5) == b / 8);
    assert(field(data, at, 6) == b / 4);
    assert(field(data, at, 7) == b / 2);
    assert(field(data, at, 8) == b);
}

proof fn lemma_field_split(data: Seq<u8>, at: int, n: nat, m: nat)
    ensures
        field(data, at, n + m) == field(data, at, n) * pow2(m) + field(data, at + n, m),
    decreases m,
{
    if m == 0 {
        lemma2_to64();
        assert(field(data, at, n) * 1 == field(data, at, n)) by (nonlinear_arith);
    } else {
        let k = (m - 1) as nat;
        lemma_field_split(data, at, n, k);
        lemma_pow2_adds(1, k);
        lemma2_to64();
        let f = field(data, at, n);
        let p = pow2(k);
        assert(2 * (f * p) == f * (2 * p)) by (nonlinear_arith);
    }
}

/// The distances that the tokens stand for follow one another without a gap: a token with the next
/// larger distances starts where those of the one before it end.
pub proof fn distances_follow_one_another(
    a: Seq<u8>,
    at_a: int,
    end_a: int,
    b: Seq<u8>,
    at_b: int,
    end_b: int,
)
    requires
        token(a, at_a, end_a) is Match,
        token(b, at_b, end_b) is Match,
    ensures
        ({
            let x = token(a, at_a, end_a);
            let y = token(b, at_b, end_b);
            &&& x->base < y->base ==> x->base + pow2(x->width as nat) <= y->base
            &&& x->base == y->base ==> x == y
            &&& x->base == 0 || x->base == 32 || x->base == 160 || x->base == 672 || x->base == 1696
                || x->base == 5792 || x->base == 22176 || x->base == 54944 || x->base == 317088
                || x->base == 1365664 || x->base == 2414240 || x->base == 4511392 || x->base
                == 8705696 || x->base == 17094304
        }),
{
    lemma2_to64();
    lemma2_to64_rest();
}

/// A bit that is not set stands before a byte as it is, and gives out one byte. A repeat of three bytes
/// is a single bit that is not set; longer ones double with each bit that is.
pub proof fn bytes_and_repeats(data: Seq<u8>, at: int, end: int)
    requires
        0 <= at,
    ensures
        at < end && !bit(data, at) && at + 9 <= end ==> moved(data, at, end) == (Move::On {
            next: at + 9,
            more: 1,
        }),
        at < end && !bit(data, at) && at + 9 > end ==> moved(data, at, end) == Move::Broken,
        at < end && !bit(data, at) ==> length_move(data, at, end) == (Move::On {
            next: at + 1,
            more: 3,
        }),
        at + 4 <= end && bit(data, at) && !bit(data, at + 1) ==> length_move(data, at, end)
            == (Move::On { next: at + 4, more: 4 + field(data, at + 2, 2) }),
        at + 6 <= end && bit(data, at) && bit(data, at + 1) && !bit(data, at + 2) ==> length_move(
            data,
            at,
            end,
        ) == (Move::On { next: at + 6, more: 8 + field(data, at + 3, 3) }),
{
    lemma2_to64();
    reveal_with_fuel(crate::connection::rdp::zgfx::ones, 4);
}

} // verus!
