//! Text as sequences of characters: comparing, searching, trimming, and the
//! decimal notation of integers in both directions.

use vstd::prelude::*;

verus! {

/// `String::push` of the standard library: appends one character to the end
/// of the string and changes nothing else.
pub assume_specification[ std::string::String::push ](s: &mut std::string::String, c: char)
    ensures
        final(s)@ == old(s)@.push(c),
;

// ---------------------------------------------------------------------------
// Characters and letter case
// ---------------------------------------------------------------------------

/// `c` with the letters `A` to `Z` turned into `a` to `z`.
pub open spec fn lower_char(c: char) -> char {
    if 'A' <= c && c <= 'Z' {
        ((c as int) + 32) as char
    } else {
        c
    }
}

/// `s` with every ASCII letter in lower case; all other characters stay.
pub open spec fn ascii_lower(s: Seq<char>) -> Seq<char> {
    s.map_values(|c: char| lower_char(c))
}

/// The characters of each of the strings.
pub open spec fn texts(strings: Seq<String>) -> Seq<Seq<char>> {
    strings.map_values(|s: String| s@)
}

/// The characters of `s`, in order.
pub fn chars_of(s: &str) -> (chars: Vec<char>)
    ensures
        chars@ == s@,
{
    let mut chars: Vec<char> = Vec::new();
    for c in it: s.chars()
        invariant
            it.seq() == s@,
            chars@ == s@.take(it.index() as int),
    {
        chars.push(c);
        assert(s@.take(it.index() + 1) == s@.take(it.index() as int).push(c));
    }
    assert(s@.take(s@.len() as int) == s@);
    chars
}

/// The text made of `chars[from..to]`.
pub fn text_of(chars: &Vec<char>, from: usize, to: usize) -> (text: String)
    requires
        from <= to <= chars.len(),
    ensures
        text@ == chars@.subrange(from as int, to as int),
{
    let mut text = String::new();
    for i in from..to
        invariant
            from <= to <= chars.len(),
            text@ == chars@.subrange(from as int, i as int),
    {
        text.push(chars[i]);
        assert(chars@.subrange(from as int, i + 1) == chars@.subrange(from as int, i as int).push(
            chars@[i as int],
        ));
    }
    text
}

/// `s` with its ASCII letters in lower case.
pub fn to_lower(s: &str) -> (lowered: String)
    ensures
        lowered@ == ascii_lower(s@),
{
    let mut lowered = String::new();
    for c in it: s.chars()
        invariant
            it.seq() == s@,
            lowered@ == ascii_lower(s@.take(it.index() as int)),
    {
        let d: char = if 'A' <= c && c <= 'Z' {
            ((c as u8) + 32) as char
        } else {
            c
        };
        lowered.push(d);
        assert(s@.take(it.index() + 1) == s@.take(it.index() as int).push(c));
    }
    assert(s@.take(s@.len() as int) == s@);
    lowered
}

/// Whether the two texts hold the same characters.
pub fn same(a: &str, b: &str) -> (equal: bool)
    ensures
        equal == (a@ == b@),
{
    let xs = chars_of(a);
    let ys = chars_of(b);
    if xs.len() != ys.len() {
        return false;
    }
    for i in 0..xs.len()
        invariant
            xs@ == a@,
            ys@ == b@,
            xs.len() == ys.len(),
            forall|j: int| 0 <= j < i ==> xs@[j] == ys@[j],
    {
        if xs[i] != ys[i] {
            return false;
        }
    }
    assert(a@ =~= b@);
    true
}

// ---------------------------------------------------------------------------
// Searching
// ---------------------------------------------------------------------------

/// Whether `needle` stands in `hay` at position `at`.
pub open spec fn occurs_at(hay: Seq<char>, needle: Seq<char>, at: int) -> bool {
    &&& 0 <= at
    &&& at + needle.len() <= hay.len()
    &&& hay.subrange(at, at + needle.len()) == needle
}

/// Whether `needle` stands somewhere in `hay`.
pub open spec fn occurs_in(hay: Seq<char>, needle: Seq<char>) -> bool {
    exists|at: int| occurs_at(hay, needle, at)
}

/// Whether `needle` stands in `hay` at position `at`.
fn matches_at(hay: &Vec<char>, needle: &Vec<char>, at: usize) -> (found: bool)
    requires
        at + needle.len() <= hay.len(),
    ensures
        found == occurs_at(hay@, needle@, at as int),
{
    for i in 0..needle.len()
        invariant
            at + needle.len() <= hay.len(),
            forall|j: int| 0 <= j < i ==> hay@[at + j] == needle@[j],
    {
        if hay[at + i] != needle[i] {
            assert(hay@.subrange(at as int, at + needle@.len())[i as int] != needle@[i as int]);
            return false;
        }
    }
    assert(hay@.subrange(at as int, at + needle@.len()) =~= needle@);
    true
}

/// Whether `needle` stands in `hay` right at `at`, with whatever behind it.
pub(crate) fn stands_at(hay: &Vec<char>, needle: &str, at: usize) -> (found: bool)
    requires
        at <= hay.len(),
    ensures
        found == occurs_at(hay@.skip(at as int), needle@, 0),
{
    let n = chars_of(needle);
    if n.len() > hay.len() - at {
        return false;
    }
    assert(hay@.skip(at as int).subrange(0, n@.len() as int) =~= hay@.subrange(
        at as int,
        at + n@.len(),
    ));
    matches_at(hay, &n, at)
}

/// Whether `needle` stands somewhere in `hay`.
pub fn contains(hay: &str, needle: &str) -> (found: bool)
    ensures
        found == occurs_in(hay@, needle@),
{
    let h = chars_of(hay);
    let n = chars_of(needle);
    if n.len() > h.len() {
        return false;
    }
    let last: usize = h.len() - n.len();
    let mut at: usize = 0;
    while at <= last
        invariant
            h@ == hay@,
            n@ == needle@,
            last == h.len() - n.len(),
            at <= last + 1,
            forall|p: int| 0 <= p < at ==> !occurs_at(hay@, needle@, p),
        decreases last + 1 - at,
    {
        if matches_at(&h, &n, at) {
            return true;
        }
        if at == last {
            return false;
        }
        at = at + 1;
    }
    false
}

// ---------------------------------------------------------------------------
// Trimming
// ---------------------------------------------------------------------------

/// The characters with the Unicode property `White_Space`.
pub open spec fn white(c: char) -> bool {
    let n = c as u32;
    ||| 0x09 <= n <= 0x0D
    ||| n == 0x20
    ||| n == 0x85
    ||| n == 0xA0
    ||| n == 0x1680
    ||| 0x2000 <= n <= 0x200A
    ||| n == 0x2028
    ||| n == 0x2029
    ||| n == 0x202F
    ||| n == 0x205F
    ||| n == 0x3000
}

/// Whether `c` has the Unicode property `White_Space`.
pub fn is_white(c: char) -> (yes: bool)
    ensures
        yes == white(c),
{
    let n: u32 = c as u32;
    (0x09 <= n && n <= 0x0D) || n == 0x20 || n == 0x85 || n == 0xA0 || n == 0x1680 || (0x2000 <= n
        && n <= 0x200A) || n == 0x2028 || n == 0x2029 || n == 0x202F || n == 0x205F || n == 0x3000
}

/// `s` without the white space at its start.
pub open spec fn trim_start(s: Seq<char>) -> Seq<char>
    decreases s.len(),
{
    if s.len() > 0 && white(s[0]) {
        trim_start(s.drop_first())
    } else {
        s
    }
}

/// `s` without the white space at its end.
pub open spec fn trim_end(s: Seq<char>) -> Seq<char>
    decreases s.len(),
{
    if s.len() > 0 && white(s.last()) {
        trim_end(s.drop_last())
    } else {
        s
    }
}

/// `s` without the white space at its two ends.
pub open spec fn trimmed(s: Seq<char>) -> Seq<char> {
    trim_end(trim_start(s))
}

/// `s` without the white space at its two ends.
pub fn trim(s: &str) -> (text: String)
    ensures
        text@ == trimmed(s@),
{
    let chars = chars_of(s);
    let mut from: usize = 0;
    assert(chars@.skip(0) == s@);
    while from < chars.len() && is_white(chars[from])
        invariant
            chars@ == s@,
            from <= chars.len(),
            trim_start(s@) == trim_start(chars@.skip(from as int)),
        decreases chars.len() - from,
    {
        assert(chars@.skip(from as int).drop_first() == chars@.skip(from + 1));
        from = from + 1;
    }
    let ghost rest = chars@.skip(from as int);
    assert(trim_start(s@) == rest);
    let mut to: usize = chars.len();
    assert(chars@.subrange(from as int, to as int) == rest);
    while from < to && is_white(chars[to - 1])
        invariant
            from <= to <= chars.len(),
            trim_end(rest) == trim_end(chars@.subrange(from as int, to as int)),
        decreases to - from,
    {
        assert(chars@.subrange(from as int, to as int).drop_last() == chars@.subrange(
            from as int,
            to - 1,
        ));
        to = to - 1;
    }
    text_of(&chars, from, to)
}

// ---------------------------------------------------------------------------
// Integers in decimal notation
// ---------------------------------------------------------------------------

/// The character of the digit `d`.
pub open spec fn digit_char(d: int) -> char {
    (48 + d) as char
}

/// `n` in decimal notation, without leading zeros.
pub open spec fn decimal(n: nat) -> Seq<char>
    decreases n,
{
    if n < 10 {
        seq![digit_char(n as int)]
    } else {
        decimal(n / 10).push(digit_char((n % 10) as int))
    }
}

/// `n` in decimal notation, with a minus sign where it is negative.
pub open spec fn signed_decimal(n: int) -> Seq<char> {
    if n < 0 {
        seq!['-'] + decimal((-n) as nat)
    } else {
        decimal(n as nat)
    }
}

/// Appends `n` in decimal notation to `out`.
pub fn push_decimal(out: &mut String, n: u128)
    ensures
        final(out)@ == old(out)@ + decimal(n as nat),
    decreases n,
{
    if n >= 10 {
        push_decimal(out, n / 10);
    }
    let digit: u8 = 48 + (n % 10) as u8;
    out.push(digit as char);
    assert(out@ =~= old(out)@ + decimal(n as nat));
}

/// Appends `n` in decimal notation to `out`, with its sign.
pub fn push_signed(out: &mut String, n: i128)
    ensures
        final(out)@ == old(out)@ + signed_decimal(n as int),
{
    if n < 0 {
        out.push('-');
        let magnitude: u128 = (-(n + 1)) as u128 + 1;
        push_decimal(out, magnitude);
        assert(out@ =~= old(out)@ + signed_decimal(n as int));
    } else {
        push_decimal(out, n as u128);
    }
}

/// Whether `c` is one of the digits `0` to `9`.
pub open spec fn is_digit(c: char) -> bool {
    '0' <= c && c <= '9'
}

/// The number that the digits of `s` write, most significant digit first.
pub open spec fn digits_value(s: Seq<char>) -> nat
    decreases s.len(),
{
    if s.len() == 0 {
        0
    } else {
        10 * digits_value(s.drop_last()) + ((s.last() as int) - 48) as nat
    }
}

/// The number that `s` writes, where `s` is one digit or more and nothing else.
pub open spec fn parsed_digits(s: Seq<char>) -> Option<nat> {
    if s.len() > 0 && forall|i: int| 0 <= i < s.len() ==> is_digit(#[trigger] s[i]) {
        Some(digits_value(s))
    } else {
        None
    }
}

/// The number that `s` writes: digits, with at most one `+` before them.
pub open spec fn parsed_natural(s: Seq<char>) -> Option<nat> {
    if s.len() > 0 && s[0] == '+' {
        parsed_digits(s.drop_first())
    } else {
        parsed_digits(s)
    }
}

/// The number that `s` writes: digits, with at most one `+` or `-` before them.
pub open spec fn parsed_integer(s: Seq<char>) -> Option<int> {
    if s.len() > 0 && s[0] == '-' {
        match parsed_digits(s.drop_first()) {
            Some(n) => Some(-(n as int)),
            None => None,
        }
    } else {
        match parsed_natural(s) {
            Some(n) => Some(n as int),
            None => None,
        }
    }
}

/// The number that `chars[from..]` writes in digits, where it is at most `limit`.
fn parse_digits(chars: &Vec<char>, from: usize, limit: u64) -> (value: Option<u64>)
    requires
        from <= chars.len(),
    ensures
        match parsed_digits(chars@.skip(from as int)) {
            Some(n) => if n <= limit {
                value == Some(n as u64)
            } else {
                value is None
            },
            None => value is None,
        },
{
    let ghost s = chars@.skip(from as int);
    if from == chars.len() {
        return None;
    }
    let mut total: u128 = 0;
    let mut over: bool = false;
    for i in from..chars.len()
        invariant
            from < chars.len(),
            s == chars@.skip(from as int),
            forall|j: int| 0 <= j < i - from ==> is_digit(#[trigger] s[j]),
            over == (digits_value(s.take(i - from)) > limit),
            !over ==> total == digits_value(s.take(i - from)),
            !over ==> total <= limit,
    {
        let c = chars[i];
        assert(s[i - from] == c);
        if !('0' <= c && c <= '9') {
            return None;
        }
        assert(s.take(i + 1 - from).drop_last() == s.take(i - from));
        assert(s.take(i + 1 - from).last() == c);
        if !over {
            total = total * 10 + (c as u8 - 48) as u128;
            if total > limit as u128 {
                over = true;
            }
        }
    }
    assert(s.take(chars.len() - from) == s);
    if over {
        None
    } else {
        Some(total as u64)
    }
}

/// The number that `s` writes, where it is at most `limit`.
pub fn parse_natural(s: &str, limit: u64) -> (value: Option<u64>)
    ensures
        match parsed_natural(s@) {
            Some(n) => if n <= limit {
                value == Some(n as u64)
            } else {
                value is None
            },
            None => value is None,
        },
{
    let chars = chars_of(s);
    assert(chars@.skip(0) == s@);
    assert(s@.len() > 0 ==> s@.skip(1) == s@.drop_first());
    if chars.len() > 0 && chars[0] == '+' {
        parse_digits(&chars, 1, limit)
    } else {
        parse_digits(&chars, 0, limit)
    }
}

/// The number that `s` writes, where it fits the 64 bits of an `i64`.
pub fn parse_i64(s: &str) -> (value: Option<i64>)
    ensures
        match parsed_integer(s@) {
            Some(n) => if i64::MIN <= n <= i64::MAX {
                value == Some(n as i64)
            } else {
                value is None
            },
            None => value is None,
        },
{
    let chars = chars_of(s);
    assert(s@.len() > 0 ==> s@.skip(1) == s@.drop_first());
    if chars.len() > 0 && chars[0] == '-' {
        match parse_digits(&chars, 1, 0x8000_0000_0000_0000) {
            Some(n) => Some((0i128 - n as i128) as i64),
            None => None,
        }
    } else {
        match parse_natural(s, 0x7fff_ffff_ffff_ffff) {
            Some(n) => Some(n as i64),
            None => None,
        }
    }
}

// ---------------------------------------------------------------------------
// Laws
// ---------------------------------------------------------------------------

/// Lower case moves the letters `A` to `Z` to `a` to `z`, one for one, and leaves
/// every other character alone.
pub proof fn law_lower_case(s: Seq<char>)
    ensures
        ascii_lower(s).len() == s.len(),
        forall|i: int|
            0 <= i < s.len() ==> {
                let c = #[trigger] s[i];
                if 0x41 <= c as u32 <= 0x5A {
                    ascii_lower(s)[i] as u32 == c as u32 + 32
                } else {
                    ascii_lower(s)[i] == c
                }
            },
        ascii_lower(ascii_lower(s)) == ascii_lower(s),
{
    assert(ascii_lower(ascii_lower(s)) =~= ascii_lower(s));
}

/// A text stands in another when that is made of something before it, the text,
/// and something behind it.
pub proof fn law_searching(before: Seq<char>, needle: Seq<char>, after: Seq<char>, hay: Seq<char>)
    ensures
        occurs_in(before + needle + after, needle),
        occurs_in(hay, needle) ==> exists|a: Seq<char>, b: Seq<char>|
            hay == #[trigger] (a + needle + b),
{
    assert((before + needle + after).subrange(
        before.len() as int,
        (before.len() + needle.len()) as int,
    ) =~= needle);
    assert(occurs_at(before + needle + after, needle, before.len() as int));
    if occurs_in(hay, needle) {
        let at = choose|at: int| occurs_at(hay, needle, at);
        let a = hay.take(at);
        let b = hay.skip(at + needle.len() as int);
        assert(hay =~= a + needle + b);
    }
}

/// Trimming at the start takes white space alone, and all of it.
proof fn lemma_trim_start(s: Seq<char>)
    ensures
        trim_start(s).len() <= s.len(),
        trim_start(s) == s.skip(s.len() - trim_start(s).len()),
        forall|i: int| 0 <= i < s.len() - trim_start(s).len() ==> white(#[trigger] s[i]),
        trim_start(s).len() > 0 ==> !white(trim_start(s)[0]),
    decreases s.len(),
{
    if s.len() > 0 && white(s[0]) {
        let rest = s.drop_first();
        lemma_trim_start(rest);
        let n = s.len() - trim_start(s).len();
        assert(rest.skip(n - 1) =~= s.skip(n));
        assert forall|i: int| 0 <= i < n implies white(#[trigger] s[i]) by {
            if i > 0 {
                assert(s[i] == rest[i - 1]);
            }
        }
    } else {
        assert(s.skip(0) =~= s);
    }
}

/// So does trimming at the end.
proof fn lemma_trim_end(s: Seq<char>)
    ensures
        trim_end(s).len() <= s.len(),
        trim_end(s) == s.take(trim_end(s).len() as int),
        forall|i: int| trim_end(s).len() <= i < s.len() ==> white(#[trigger] s[i]),
        trim_end(s).len() > 0 ==> !white(trim_end(s).last()),
    decreases s.len(),
{
    if s.len() > 0 && white(s.last()) {
        let rest = s.drop_last();
        lemma_trim_end(rest);
        assert(rest.take(trim_end(s).len() as int) =~= s.take(trim_end(s).len() as int));
        assert forall|i: int| trim_end(s).len() <= i < s.len() implies white(#[trigger] s[i]) by {
            if i < s.len() - 1 {
                assert(s[i] == rest[i]);
            }
        }
    } else {
        assert(s.take(s.len() as int) =~= s);
    }
}

/// Trimming takes the white space at the two ends, all of it and nothing else.
pub proof fn law_trimming(s: Seq<char>)
    ensures
        exists|from: int, to: int|
            {
                &&& 0 <= from <= to <= s.len()
                &&& trimmed(s) == #[trigger] s.subrange(from, to)
                &&& forall|i: int| 0 <= i < from || to <= i < s.len() ==> white(#[trigger] s[i])
            },
        trimmed(s).len() > 0 ==> !white(trimmed(s)[0]) && !white(trimmed(s).last()),
{
    let rest = trim_start(s);
    lemma_trim_start(s);
    lemma_trim_end(rest);
    let from = s.len() - rest.len();
    let to = from + trimmed(s).len();
    assert(trimmed(s) =~= s.subrange(from, to));
    assert forall|i: int| 0 <= i < from || to <= i < s.len() implies white(#[trigger] s[i]) by {
        if to <= i < s.len() {
            assert(s[i] == rest[i - from]);
        }
    }
    if trimmed(s).len() > 0 {
        assert(trimmed(s)[0] == rest[0]);
    }
}

/// The white space that is trimmed.
pub proof fn law_white_space(c: char)
    ensures
        white(c) <==> {
            ||| 9 <= c as u32 <= 13
            ||| c as u32 == 32
            ||| c as u32 == 133
            ||| c as u32 == 160
            ||| c as u32 == 5760
            ||| 8192 <= c as u32 <= 8202
            ||| c as u32 == 8232
            ||| c as u32 == 8233
            ||| c as u32 == 8239
            ||| c as u32 == 8287
            ||| c as u32 == 12288
        },
{
}

/// The notation of a number has the digits of its tenth and then its last digit.
pub proof fn law_decimal_notation(n: nat)
    ensures
        n < 10 ==> decimal(n).len() == 1,
        n >= 10 ==> decimal(n).drop_last() == decimal(n / 10),
        decimal(n).len() > 0,
        decimal(n).last() as int == 0x30 + n % 10,
        forall|i: int| 0 <= i < decimal(n).len() ==> is_digit(#[trigger] decimal(n)[i]),
        n > 0 ==> decimal(n)[0] != '0',
        digits_value(decimal(n)) == n,
    decreases n,
{
    if n >= 10 {
        law_decimal_notation(n / 10);
        let short = decimal(n / 10);
        assert(decimal(n).drop_last() =~= short);
        assert forall|i: int| 0 <= i < decimal(n).len() implies is_digit(
            #[trigger] decimal(n)[i],
        ) by {
            if i < short.len() {
                assert(decimal(n)[i] == short[i]);
            }
        }
        assert(decimal(n)[0] == short[0]);
    } else {
        assert(decimal(n).drop_last() =~= Seq::empty());
        assert(digits_value(Seq::<char>::empty()) == 0);
    }
}

/// A negative number is written with a minus sign and the rest as without it.
pub proof fn law_signed_notation(n: int)
    ensures
        n >= 0 ==> signed_decimal(n) == decimal(n as nat),
        n < 0 ==> signed_decimal(n)[0] == '-' && signed_decimal(n).skip(1) == decimal((-n) as nat),
{
    if n < 0 {
        assert(signed_decimal(n).skip(1) =~= decimal((-n) as nat));
    }
}

/// What was written is read back, with and without a plus sign.
pub proof fn law_numbers_read_back(n: nat, m: int)
    ensures
        parsed_natural(decimal(n)) == Some(n),
        parsed_natural(seq!['+'] + decimal(n)) == Some(n),
        parsed_integer(signed_decimal(m)) == Some(m),
        m >= 0 ==> parsed_integer(seq!['+'] + decimal(m as nat)) == Some(m),
{
    law_decimal_notation(n);
    assert(is_digit(decimal(n)[0]));
    assert((seq!['+'] + decimal(n)).drop_first() =~= decimal(n));
    let size = if m < 0 {
        (-m) as nat
    } else {
        m as nat
    };
    law_decimal_notation(size);
    assert(is_digit(decimal(size)[0]));
    assert((seq!['+'] + decimal(size)).drop_first() =~= decimal(size));
    assert((seq!['-'] + decimal(size)).drop_first() =~= decimal(size));
}

/// Whether `s` is one digit or more and nothing else.
pub open spec fn all_digits(s: Seq<char>) -> bool {
    s.len() > 0 && forall|i: int| 0 <= i < s.len() ==> '0' <= #[trigger] s[i] && s[i] <= '9'
}

/// A number is one digit or more, after at most one sign; nothing else is read as
/// one, neither white space nor a second sign.
pub proof fn law_only_numbers_are_read(s: Seq<char>)
    ensures
        parsed_natural(s) is Some <==> all_digits(s) || (s.len() > 0 && s[0] == '+' && all_digits(
            s.skip(1),
        )),
        parsed_integer(s) is Some <==> all_digits(s) || (s.len() > 0 && (s[0] == '+' || s[0] == '-')
            && all_digits(s.skip(1))),
{
    if s.len() > 0 {
        assert(s.skip(1) =~= s.drop_first());
        lemma_digits(s.drop_first());
    }
    lemma_digits(s);
}

/// What is read as digits.
proof fn lemma_digits(s: Seq<char>)
    ensures
        parsed_digits(s) is Some <==> all_digits(s),
{
    if parsed_digits(s) is Some {
        assert forall|i: int| 0 <= i < s.len() implies '0' <= #[trigger] s[i] && s[i] <= '9' by {
            assert(is_digit(s[i]));
        }
    }
}

/// Each digit behind the others makes the number ten times as large and adds
/// itself; leading zeros add nothing.
pub proof fn law_digits_count_tenfold(s: Seq<char>, c: char)
    requires
        all_digits(s),
        '0' <= c && c <= '9',
    ensures
        parsed_natural(s) matches Some(n) && parsed_natural(s.push(c)) == Some(
            (10 * n + (c as u32 - 0x30)) as nat,
        ),
        parsed_natural(seq![c]) == Some((c as u32 - 0x30) as nat),
{
    lemma_digits(s);
    lemma_digits(s.push(c));
    lemma_digits(seq![c]);
    assert(all_digits(s.push(c))) by {
        assert forall|i: int| 0 <= i < s.len() + 1 implies '0' <= #[trigger] s.push(c)[i]
            && s.push(c)[i] <= '9' by {
            if i < s.len() {
                assert('0' <= s[i] && s[i] <= '9');
            }
        }
    }
    assert('0' <= s[0] && s[0] <= '9');
    assert(s.push(c)[0] == s[0]);
    assert(s.push(c).drop_last() =~= s);
    assert(seq![c].drop_last() =~= Seq::empty());
    assert(digits_value(Seq::<char>::empty()) == 0);
}

/// The texts of several strings are their texts, one for one.
pub proof fn law_view_of_strings(strings: Seq<String>)
    ensures
        texts(strings).len() == strings.len(),
        forall|i: int| 0 <= i < strings.len() ==> #[trigger] texts(strings)[i] == strings[i]@,
{
}

/// The functions on texts give what was said above of sequences of characters.
pub proof fn law_texts_as_values(
    s: &str,
    other: &str,
    chars: Vec<char>,
    from: usize,
    to: usize,
    given: String,
    yes: bool,
)
    ensures
        call_ensures(chars_of, (s,), chars) ==> chars@ == s@,
        call_ensures(text_of, (&chars, from, to), given) ==> given@ == chars@.subrange(
            from as int,
            to as int,
        ),
        call_ensures(to_lower, (s,), given) ==> given@ == ascii_lower(s@),
        call_ensures(same, (s, other), yes) ==> (yes <==> s@ == other@),
        call_ensures(contains, (s, other), yes) ==> (yes <==> exists|a: Seq<char>, b: Seq<char>|
            s@ == #[trigger] (a + other@ + b)),
        call_ensures(trim, (s,), given) ==> given@ == trimmed(s@),
{
    if exists|a: Seq<char>, b: Seq<char>| s@ == #[trigger] (a + other@ + b) {
        let (a, b) = choose|a: Seq<char>, b: Seq<char>| s@ == #[trigger] (a + other@ + b);
        law_searching(a, other@, b, s@);
    }
    law_searching(Seq::empty(), other@, Seq::empty(), s@);
}

/// A number is written behind what was there before, and what is read is the number
/// that stands there, where it is in range.
pub proof fn law_numbers_as_values(
    out: &mut String,
    unsigned: u128,
    signed: i128,
    s: &str,
    limit: u64,
    natural: Option<u64>,
    integer: Option<i64>,
)
    ensures
        call_ensures(push_decimal, (out, unsigned), ()) ==> final(out)@ == old(out)@ + decimal(
            unsigned as nat,
        ),
        call_ensures(push_signed, (out, signed), ()) ==> final(out)@ == old(out)@ + signed_decimal(
            signed as int,
        ),
        call_ensures(parse_natural, (s, limit), natural) ==> match natural {
            Some(n) => n <= limit && parsed_natural(s@) == Some(n as nat),
            None => parsed_natural(s@) matches Some(n) ==> n > limit,
        },
        call_ensures(parse_i64, (s,), integer) ==> match integer {
            Some(n) => parsed_integer(s@) == Some(n as int),
            None => parsed_integer(s@) matches Some(n) ==> !(-0x8000_0000_0000_0000 <= n
                <= 0x7fff_ffff_ffff_ffff),
        },
{
}

} // verus!
