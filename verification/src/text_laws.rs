//! What texts come to: numbers, white space, capitals and hexadecimal digits.
use crate::text::{
    ascii_lower, decimal, digits_value, hex, lowered, mentions, parsed_unsigned, stands_at, trimmed,
    trimmed_end, trimmed_start,
};
use vstd::prelude::*;

verus! {

/// The characters that count as white space, by their numbers.
pub open spec fn is_blank(c: char) -> bool {
    let n = c as int;
    ||| n == 9 || n == 10 || n == 11 || n == 12 || n == 13 || n == 32
    ||| n == 0x85 || n == 0xa0 || n == 0x1680
    ||| 0x2000 <= n <= 0x200a
    ||| n == 0x2028 || n == 0x2029 || n == 0x202f || n == 0x205f || n == 0x3000
}

/// Whether all characters of a text are white space.
pub open spec fn all_blank(s: Seq<char>) -> bool {
    forall|i: int| 0 <= i < s.len() ==> is_blank(#[trigger] s[i])
}

proof fn lemma_start(blanks: Seq<char>, rest: Seq<char>)
    requires
        all_blank(blanks),
        rest.len() > 0 ==> !is_blank(rest[0]),
    ensures
        trimmed_start(blanks + rest) == rest,
    decreases blanks.len(),
{
    if blanks.len() > 0 {
        assert((blanks + rest)[0] == blanks[0]);
        assert((blanks + rest).drop_first() =~= blanks.drop_first() + rest);
        assert forall|i: int| 0 <= i < blanks.drop_first().len() implies is_blank(
            #[trigger] blanks.drop_first()[i],
        ) by {
            assert(blanks[i + 1] == blanks.drop_first()[i]);
        }
        lemma_start(blanks.drop_first(), rest);
    } else {
        assert(blanks + rest =~= rest);
    }
}

proof fn lemma_end(rest: Seq<char>, blanks: Seq<char>)
    requires
        all_blank(blanks),
        rest.len() > 0 ==> !is_blank(rest.last()),
    ensures
        trimmed_end(rest + blanks) == rest,
    decreases blanks.len(),
{
    if blanks.len() > 0 {
        assert((rest + blanks).last() == blanks.last());
        assert(blanks.last() == blanks[blanks.len() - 1]);
        assert((rest + blanks).drop_last() =~= rest + blanks.drop_last());
        assert forall|i: int| 0 <= i < blanks.drop_last().len() implies is_blank(
            #[trigger] blanks.drop_last()[i],
        ) by {
            assert(blanks[i] == blanks.drop_last()[i]);
        }
        lemma_end(rest, blanks.drop_last());
    } else {
        assert(rest + blanks =~= rest);
    }
}

/// White space around a text is taken away, and nothing else is.
pub proof fn trimming_takes_white_space(before: Seq<char>, text: Seq<char>, after: Seq<char>)
    requires
        all_blank(before),
        all_blank(after),
        text.len() > 0,
        !is_blank(text[0]),
        !is_blank(text.last()),
    ensures
        trimmed(before + text + after) == text,
        trimmed(before).len() == 0,
{
    assert(before + text + after =~= before + (text + after));
    assert((text + after)[0] == text[0]);
    lemma_start(before, text + after);
    lemma_end(text, after);
    lemma_start(before, Seq::empty());
    assert(before + Seq::<char>::empty() =~= before);
}

/// A text of digits is read as the number that it spells: a digit more makes it ten times as large
/// and adds the digit. A plus sign before it changes nothing.
pub proof fn numbers_are_read_digit_by_digit(s: Seq<char>, d: int, max: nat)
    requires
        s.len() > 0,
        forall|i: int| 0 <= i < s.len() ==> '0' as int <= (#[trigger] s[i]) as int <= '9' as int,
        0 <= d <= 9,
    ensures
        ({
            let more = s.push((48 + d) as char);
            let n = digits_value(s);
            &&& parsed_unsigned(seq![(48 + d) as char], 9) == Some(d as nat)
            &&& n <= max ==> parsed_unsigned(s, max) == Some(n)
            &&& n > max ==> parsed_unsigned(s, max) is None
            &&& 10 * n + d <= max ==> parsed_unsigned(more, max) == Some((10 * n + d) as nat)
            &&& 10 * n + d > max ==> parsed_unsigned(more, max) is None
            &&& parsed_unsigned(seq!['+'] + s, max) == parsed_unsigned(s, max)
        }),
{
    let c = (48 + d) as char;
    let more = s.push(c);
    assert(c as int == 48 + d);
    assert(more.drop_last() =~= s);
    assert(more.last() == c);
    assert forall|i: int| 0 <= i < more.len() implies '0' as int <= (#[trigger] more[i]) as int
        <= '9' as int by {
        if i < s.len() {
            assert(more[i] == s[i]);
        }
    }
    assert(s[0] != '+');
    assert(more[0] == s[0]);
    let one = seq![c];
    reveal_with_fuel(digits_value, 2);
    assert(one.drop_last() =~= Seq::empty());
    assert(one[0] == c && one.last() == c);
    assert(digits_value(one) == d);
    assert(crate::text::all_digits(one));
    assert((seq!['+'] + s).drop_first() =~= s);
}

/// A text that holds anything but digits behind an optional plus sign is no number, nor is an empty
/// one.
pub proof fn other_texts_are_no_numbers(s: Seq<char>, max: nat, i: int)
    requires
        0 <= i < s.len(),
        (s[i] as int) < '0' as int || s[i] as int > '9' as int,
        i == 0 ==> s[0] != '+',
    ensures
        parsed_unsigned(s, max) is None,
        parsed_unsigned(Seq::empty(), max) is None,
        parsed_unsigned(seq!['+'], max) is None,
{
    if s[0] == '+' {
        assert(s.drop_first()[i - 1] == s[i]);
    }
    assert(seq!['+'].drop_first() =~= Seq::empty());
}

/// A number is written with its digits, the last one last: what stands before it is the number
/// without it.
pub proof fn numbers_are_written_digit_by_digit(n: nat, d: int)
    requires
        0 <= d <= 9,
    ensures
        decimal(d as nat) == seq![(48 + d) as char],
        n > 0 ==> decimal((10 * n + d) as nat) == decimal(n).push((48 + d) as char),
{
    assert(decimal(d as nat) =~= seq![(48 + d) as char]);
    let more = (10 * n + d) as nat;
    assert(more / 10 == n && more % 10 == d);
}

/// Capitals become the small letters 32 numbers above them; other characters stay.
pub proof fn capitals_become_small(s: Seq<char>, i: int)
    requires
        0 <= i < s.len(),
    ensures
        lowered(s).len() == s.len(),
        65 <= s[i] as int <= 90 ==> lowered(s)[i] as int == s[i] as int + 32,
        (s[i] as int) < 65 || s[i] as int > 90 ==> lowered(s)[i] == s[i],
{
}

/// A word is found wherever it stands in a text, in capitals or not, and a text that is shorter does
/// not hold it.
pub proof fn words_are_found(before: Seq<char>, word: Seq<char>, after: Seq<char>, needle: Seq<char>)
    ensures
        lowered(word) == needle ==> mentions(before + word + after, needle),
        word.len() < needle.len() ==> !mentions(word, needle),
        mentions(word, needle) ==> exists|at: int|
            0 <= at && at + needle.len() <= word.len() && lowered(
                #[trigger] word.subrange(at, (at + needle.len()) as int),
            ) == needle,
{
    let s = before + word + after;
    let at = before.len() as int;
    if lowered(word) == needle {
        assert forall|k: int| 0 <= k < needle.len() implies ascii_lower(s[at + k])
            == #[trigger] needle[k] by {
            assert(s[at + k] == word[k]);
            assert(lowered(word)[k] == needle[k]);
        }
        assert(stands_at(s, needle, at));
    }
    if mentions(word, needle) {
        let p = choose|p: int| 0 <= p && #[trigger] stands_at(word, needle, p);
        let found = word.subrange(p, (p + needle.len()) as int);
        assert forall|k: int| 0 <= k < needle.len() implies lowered(found)[k] == needle[k] by {
            assert(ascii_lower(word[p + k]) == needle[k]);
            assert(found[k] == word[p + k]);
        }
        assert(lowered(found) =~= needle);
    }
}

/// The number of a hexadecimal digit.
pub open spec fn hex_value(c: char) -> int {
    if '0' as int <= c as int <= '9' as int {
        c as int - 48
    } else if 'A' as int <= c as int <= 'F' as int {
        c as int - 55
    } else {
        -1
    }
}

/// Bytes are shown as two hexadecimal digits each, the high one first, with a space between each
/// two.
pub proof fn bytes_are_shown_in_order(bytes: Seq<u8>, i: int)
    requires
        0 <= i < bytes.len(),
    ensures
        hex(bytes).len() == 3 * bytes.len() - 1,
        hex_value(hex(bytes)[3 * i]) == bytes[i] / 16,
        hex_value(hex(bytes)[3 * i + 1]) == bytes[i] % 16,
        i + 1 < bytes.len() ==> hex(bytes)[3 * i + 2] == ' ',
    decreases bytes.len(),
{
    if i + 1 < bytes.len() {
        bytes_are_shown_in_order(bytes.drop_last(), i);
        assert(bytes.drop_last()[i] == bytes[i]);
    } else if bytes.len() > 1 {
        bytes_are_shown_in_order(bytes.drop_last(), 0);
    }
}

} // verus!
