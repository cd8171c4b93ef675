//! Text: numbers, letter case, white space and bytes.
use vstd::prelude::*;
use vstd::utf8::{decode_utf8, encode_utf8, valid_utf8};

verus! {

/// The decimal digits of `n`, most significant first, without leading zeros.
pub open spec fn decimal(n: nat) -> Seq<char>
    decreases n,
{
    if n < 10 {
        seq![digit(n as int)]
    } else {
        decimal(n / 10).push(digit((n % 10) as int))
    }
}

/// The character of one decimal digit.
pub open spec fn digit(d: int) -> char {
    ('0' as int + d) as char
}

/// Whether `c` is one of the ten ASCII digits.
pub open spec fn is_digit(c: char) -> bool {
    '0' as int <= c as int <= '9' as int
}

/// The value of a run of ASCII digits.
pub open spec fn digits_value(s: Seq<char>) -> nat
    decreases s.len(),
{
    if s.len() == 0 {
        0
    } else {
        (10 * digits_value(s.drop_last()) + (s.last() as int - '0' as int)) as nat
    }
}

/// What follows an optional leading `+`.
pub open spec fn after_plus(s: Seq<char>) -> Seq<char> {
    if s.len() > 0 && s[0] == '+' {
        s.drop_first()
    } else {
        s
    }
}

/// Whether `s` is made of at least one digit and nothing else.
pub open spec fn all_digits(s: Seq<char>) -> bool {
    s.len() > 0 && forall|i: int| 0 <= i < s.len() ==> is_digit(#[trigger] s[i])
}

/// The number that `s` spells, if it is an optional `+` before digits alone and the number is
/// at most `max`.
pub open spec fn parsed_unsigned(s: Seq<char>, max: nat) -> Option<nat> {
    if all_digits(after_plus(s)) && digits_value(after_plus(s)) <= max {
        Some(digits_value(after_plus(s)))
    } else {
        None
    }
}

/// `String::push`: the character is added at the end of the string.
pub assume_specification[ String::push ](s: &mut String, c: char)
    ensures
        final(s)@ == old(s)@.push(c),
;

/// Appends the decimal digits of `n` to `out`.
pub fn push_decimal(out: &mut String, n: u64)
    ensures
        final(out)@ == old(out)@ + decimal(n as nat),
    decreases n,
{
    if n >= 10 {
        push_decimal(out, n / 10);
    }
    let d: u8 = (n % 10) as u8;
    let c: char = (48 + d) as char;
    assert(c == digit((n % 10) as int));
    out.push(c);
    assert(out@ =~= old(out)@ + decimal(n as nat));
}

/// Reads an unsigned number of at most `max`.
pub fn parse_unsigned(s: &str, max: u64) -> (r: Option<u64>)
    ensures
        match parsed_unsigned(s@, max as nat) {
            Some(v) => r == Some(v as u64),
            None => r is None,
        },
{
    let len: usize = s.unicode_len();
    let mut start: usize = 0;
    if len > 0 && s.get_char(0) == '+' {
        start = 1;
    }
    let ghost body = s@.subrange(start as int, len as int);
    assert(start == 0 ==> body =~= s@);
    assert(start == 1 ==> body =~= s@.drop_first());
    if start == len {
        return None;
    }
    let mut value: u64 = 0;
    let mut over: bool = false;
    let mut i: usize = start;
    while i < len
        invariant
            start <= i <= len,
            len == s@.len(),
            body == s@.subrange(start as int, len as int),
            body == after_plus(s@),
            forall|k: int| 0 <= k < i - start ==> is_digit(#[trigger] body[k]),
            !over ==> value as nat == digits_value(body.take(i - start)),
            value <= max,
            over ==> digits_value(body.take(i - start)) > max,
        decreases len - i,
    {
        let c: char = s.get_char(i);
        assert(body[i - start] == c);
        assert(body.take(i - start + 1).drop_last() =~= body.take(i - start));
        if c < '0' || c > '9' {
            assert(!is_digit(body[i - start]));
            return None;
        }
        let d: u64 = (c as u32 - 48) as u64;
        if !over {
            if value > (max - max % 10) / 10 {
                over = true;
            } else {
                let shifted: u64 = value * 10;
                if shifted > max || d > max - shifted {
                    over = true;
                } else {
                    value = shifted + d;
                }
            }
        }
        i = i + 1;
    }
    assert(body.take(len - start) =~= body);
    if over {
        None
    } else {
        Some(value)
    }
}

/// The 16-bit number that a text spells, or `default`.
pub open spec fn u16_or(s: Seq<char>, default: u16) -> u16 {
    match parsed_unsigned(s, 65535) {
        Some(v) => v as u16,
        None => default,
    }
}

/// The 32-bit number that a text spells, or `default`.
pub open spec fn u32_or(s: Seq<char>, default: u32) -> u32 {
    match parsed_unsigned(s, 4294967295) {
        Some(v) => v as u32,
        None => default,
    }
}

/// The 64-bit number that a text spells, or `default`.
pub open spec fn u64_or(s: Seq<char>, default: u64) -> u64 {
    match parsed_unsigned(s, u64::MAX as nat) {
        Some(v) => v as u64,
        None => default,
    }
}

/// Reads a port number or another 16-bit value; `default` where the text is not one.
pub fn parse_u16_or(s: &str, default: u16) -> (r: u16)
    ensures
        r == u16_or(s@, default),
{
    match parse_unsigned(s, 65535) {
        Some(v) => v as u16,
        None => default,
    }
}

/// Reads a 32-bit value; `default` where the text is not one.
pub fn parse_u32_or(s: &str, default: u32) -> (r: u32)
    ensures
        r == u32_or(s@, default),
{
    match parse_unsigned(s, 4294967295) {
        Some(v) => v as u32,
        None => default,
    }
}

/// Reads a 64-bit value; `default` where the text is not one.
pub fn parse_u64_or(s: &str, default: u64) -> (r: u64)
    ensures
        r == u64_or(s@, default),
{
    match parse_unsigned(s, u64::MAX) {
        Some(v) => v,
        None => default,
    }
}

/// Reading back what was written gives the number.
pub proof fn decimal_reads_back(n: nat)
    ensures
        parsed_unsigned(decimal(n), n) == Some(n),
{
    lemma_decimal(n);
    assert(decimal(n)[0] != '+') by {
        assert(is_digit(decimal(n)[0]));
    }
    assert(all_digits(decimal(n)));
}

proof fn lemma_decimal(n: nat)
    ensures
        decimal(n).len() > 0,
        forall|i: int| 0 <= i < decimal(n).len() ==> is_digit(#[trigger] decimal(n)[i]),
        digits_value(decimal(n)) == n,
    decreases n,
{
    if n < 10 {
        reveal_with_fuel(digits_value, 2);
        assert(decimal(n).drop_last() =~= Seq::<char>::empty());
    } else {
        lemma_decimal(n / 10);
        assert(decimal(n).drop_last() =~= decimal(n / 10));
    }
}

/// The bytes of a text in UTF-8.
pub fn text_bytes(s: &str) -> (bytes: Vec<u8>)
    ensures
        bytes@ == encode_utf8(s@),
{
    s.as_bytes_vec()
}

/// What `String::from_utf8_lossy` makes of bytes.
pub uninterp spec fn lossy_utf8(bytes: Seq<u8>) -> Seq<char>;

/// Calls `String::from_utf8_lossy`. The result is settled by the bytes; bytes that are UTF-8 give
/// the text that they encode. Of others it is left unsaid which parts are replaced.
#[verifier::external_body]
pub(crate) fn lossy_text(bytes: &Vec<u8>) -> (text: String)
    ensures
        text@ == lossy_utf8(bytes@),
        valid_utf8(bytes@) ==> text@ == decode_utf8(bytes@),
{
    String::from_utf8_lossy(bytes).into_owned()
}

/// A character with ASCII capitals made small.
pub open spec fn ascii_lower(c: char) -> char {
    if 'A' as int <= c as int <= 'Z' as int {
        (c as int + 32) as char
    } else {
        c
    }
}

/// Whether `needle` stands in `s` from character `at` on, capitals taken for small letters.
pub open spec fn stands_at(s: Seq<char>, needle: Seq<char>, at: int) -> bool {
    &&& at + needle.len() <= s.len()
    &&& forall|k: int| 0 <= k < needle.len() ==> ascii_lower(s[at + k]) == #[trigger] needle[k]
}

/// Whether `needle` stands somewhere in `s`, capitals taken for small letters.
pub open spec fn mentions(s: Seq<char>, needle: Seq<char>) -> bool {
    exists|at: int| 0 <= at && #[trigger] stands_at(s, needle, at)
}

/// Whether `needle` stands somewhere in `s`, capitals taken for small letters.
pub fn contains_ignoring_case(s: &str, needle: &str) -> (b: bool)
    ensures
        b == mentions(s@, needle@),
{
    let n: usize = s.unicode_len();
    let m: usize = needle.unicode_len();
    if m > n {
        return false;
    }
    let mut at: usize = 0;
    while at <= n - m
        invariant
            n == s@.len(),
            m == needle@.len(),
            m <= n,
            at <= n - m + 1,
            forall|j: int| 0 <= j < at ==> !(#[trigger] stands_at(s@, needle@, j)),
        decreases n - m + 1 - at,
    {
        let mut k: usize = 0;
        let mut same: bool = true;
        while k < m && same
            invariant
                n == s@.len(),
                m == needle@.len(),
                at + m <= n,
                k <= m,
                same ==> forall|j: int|
                    0 <= j < k ==> ascii_lower(s@[at + j]) == #[trigger] needle@[j],
                !same ==> !stands_at(s@, needle@, at as int),
            decreases m - k, same as int,
        {
            let c: char = s.get_char(at + k);
            let low: char = if 'A' <= c && c <= 'Z' {
                (c as u8 + 32) as char
            } else {
                c
            };
            if low != needle.get_char(k) {
                assert(ascii_lower(s@[at + k]) != needle@[k as int]);
                same = false;
            } else {
                k = k + 1;
            }
        }
        if same {
            assert(stands_at(s@, needle@, at as int));
            return true;
        }
        if at == n - m {
            assert forall|j: int| 0 <= j implies !(#[trigger] stands_at(s@, needle@, j)) by {}
            return false;
        }
        at = at + 1;
    }
    false
}

/// Whether two texts are the same.
pub fn same_text(a: &str, b: &str) -> (same: bool)
    ensures
        same == (a@ == b@),
{
    let n: usize = a.unicode_len();
    if n != b.unicode_len() {
        return false;
    }
    let mut i: usize = 0;
    while i < n
        invariant
            i <= n,
            n == a@.len(),
            n == b@.len(),
            a@.take(i as int) == b@.take(i as int),
        decreases n - i,
    {
        if a.get_char(i) != b.get_char(i) {
            assert(a@[i as int] != b@[i as int]);
            return false;
        }
        assert(a@.take(i + 1) =~= a@.take(i as int).push(a@[i as int]));
        assert(b@.take(i + 1) =~= b@.take(i as int).push(b@[i as int]));
        i = i + 1;
    }
    assert(a@.take(n as int) =~= a@);
    assert(b@.take(n as int) =~= b@);
    true
}

/// A text with capitals taken for small letters.
pub open spec fn lowered(s: Seq<char>) -> Seq<char> {
    s.map_values(|c: char| ascii_lower(c))
}

/// Whether a text is the given word, capitals taken for small letters.
pub fn same_ignoring_case(s: &str, word: &str) -> (same: bool)
    ensures
        same == (lowered(s@) == word@),
{
    let n: usize = s.unicode_len();
    if n != word.unicode_len() {
        assert(lowered(s@).len() == s@.len());
        return false;
    }
    let mut i: usize = 0;
    while i < n
        invariant
            i <= n,
            n == s@.len(),
            n == word@.len(),
            forall|k: int| 0 <= k < i ==> lowered(s@)[k] == #[trigger] word@[k],
        decreases n - i,
    {
        let c: char = s.get_char(i);
        let low: char = if 'A' <= c && c <= 'Z' {
            (c as u8 + 32) as char
        } else {
            c
        };
        if low != word.get_char(i) {
            assert(lowered(s@)[i as int] != word@[i as int]);
            return false;
        }
        i = i + 1;
    }
    assert(lowered(s@) =~= word@);
    true
}

/// Whether a character is white space, as Unicode has it.
pub open spec fn is_white_space(c: char) -> bool {
    let n = c as int;
    ||| 0x9 <= n <= 0xd
    ||| n == 0x20
    ||| n == 0x85
    ||| n == 0xa0
    ||| n == 0x1680
    ||| 0x2000 <= n <= 0x200a
    ||| n == 0x2028
    ||| n == 0x2029
    ||| n == 0x202f
    ||| n == 0x205f
    ||| n == 0x3000
}

/// A text without white space at its start.
pub open spec fn trimmed_start(s: Seq<char>) -> Seq<char>
    decreases s.len(),
{
    if s.len() > 0 && is_white_space(s[0]) {
        trimmed_start(s.drop_first())
    } else {
        s
    }
}

/// A text without white space at its end.
pub open spec fn trimmed_end(s: Seq<char>) -> Seq<char>
    decreases s.len(),
{
    if s.len() > 0 && is_white_space(s.last()) {
        trimmed_end(s.drop_last())
    } else {
        s
    }
}

/// A text without white space around it.
pub open spec fn trimmed(s: Seq<char>) -> Seq<char> {
    trimmed_end(trimmed_start(s))
}

/// Whether a character is white space.
fn white_space(c: char) -> (b: bool)
    ensures
        b == is_white_space(c),
{
    let n: u32 = c as u32;
    (0x9 <= n && n <= 0xd) || n == 0x20 || n == 0x85 || n == 0xa0 || n == 0x1680 || (0x2000 <= n
        && n <= 0x200a) || n == 0x2028 || n == 0x2029 || n == 0x202f || n == 0x205f || n == 0x3000
}

/// A text without white space around it.
pub fn trim(s: &str) -> (t: String)
    ensures
        t@ == trimmed(s@),
{
    let n: usize = s.unicode_len();
    let mut from: usize = 0;
    assert(s@.skip(0) =~= s@);
    while from < n && white_space(s.get_char(from))
        invariant
            from <= n,
            n == s@.len(),
            trimmed_start(s@) == trimmed_start(s@.skip(from as int)),
        decreases n - from,
    {
        assert(s@.skip(from as int).drop_first() =~= s@.skip(from + 1));
        from = from + 1;
    }
    assert(trimmed_start(s@) == s@.skip(from as int));
    let mut to: usize = n;
    assert(s@.subrange(from as int, n as int) =~= s@.skip(from as int));
    while to > from && white_space(s.get_char(to - 1))
        invariant
            from <= to <= n,
            n == s@.len(),
            trimmed(s@) == trimmed_end(s@.subrange(from as int, to as int)),
        decreases to - from,
    {
        assert(s@.subrange(from as int, to as int).drop_last() =~= s@.subrange(
            from as int,
            to - 1,
        ));
        to = to - 1;
    }
    assert(trimmed(s@) == s@.subrange(from as int, to as int));
    let mut t = String::new();
    let mut i: usize = from;
    assert(t@ =~= s@.subrange(from as int, from as int));
    while i < to
        invariant
            from <= i <= to <= n,
            n == s@.len(),
            t@ == s@.subrange(from as int, i as int),
        decreases to - i,
    {
        t.push(s.get_char(i));
        i = i + 1;
        assert(t@ =~= s@.subrange(from as int, i as int));
    }
    t
}

/// What `str::to_lowercase` makes of a text.
pub uninterp spec fn lowercase(s: Seq<char>) -> Seq<char>;

/// Calls `str::to_lowercase`. The result is settled by the text.
#[verifier::external_body]
pub(crate) fn to_lower(s: &str) -> (t: String)
    ensures
        t@ == lowercase(s@),
{
    s.to_lowercase()
}

/// The character of a hexadecimal digit.
pub open spec fn hex_digit(d: int) -> char {
    if d < 10 {
        ('0' as int + d) as char
    } else {
        ('A' as int + d - 10) as char
    }
}

/// Bytes as pairs of hexadecimal digits with spaces between them.
pub open spec fn hex(bytes: Seq<u8>) -> Seq<char>
    decreases bytes.len(),
{
    if bytes.len() == 0 {
        Seq::empty()
    } else {
        let last = bytes.last() as int;
        let before = if bytes.len() == 1 {
            Seq::empty()
        } else {
            hex(bytes.drop_last()).push(' ')
        };
        before.push(hex_digit(last / 16)).push(hex_digit(last % 16))
    }
}

/// The character of a hexadecimal digit.
fn hex_char(d: u8) -> (c: char)
    requires
        d < 16,
    ensures
        c == hex_digit(d as int),
{
    if d < 10 {
        (48 + d) as char
    } else {
        (55 + d) as char
    }
}

/// The first `n` bytes as pairs of hexadecimal digits with spaces between them.
pub fn hex_head(data: &[u8], n: usize) -> (text: String)
    ensures
        text@ == hex(
            data@.take(
                if n < data@.len() {
                    n as int
                } else {
                    data@.len() as int
                },
            ),
        ),
{
    let count: usize = if n < data.len() {
        n
    } else {
        data.len()
    };
    let mut text = String::new();
    let mut i: usize = 0;
    assert(text@ =~= hex(data@.take(0)));
    while i < count
        invariant
            i <= count <= data@.len(),
            count <= data.len(),
            text@ == hex(data@.take(i as int)),
        decreases count - i,
    {
        assert(data@.take(i + 1).drop_last() =~= data@.take(i as int));
        let b: u8 = data[i];
        if i > 0 {
            text.push(' ');
        }
        text.push(hex_char(b / 16));
        text.push(hex_char(b % 16));
        i = i + 1;
    }
    text
}

} // verus!
