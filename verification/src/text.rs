//! Character-level text operations: ASCII case folding, substring and suffix
//! search, and unsigned decimal numerals, each specified over sequences of
//! characters.

use vstd::prelude::*;
use vstd::string::*;

verus! {

/// ASCII lower-casing of one character: `'A'..='Z'` map to `'a'..='z'`, every
/// other character is unchanged.
pub open spec fn ascii_lower(c: char) -> char {
    if 'A' <= c && c <= 'Z' {
        ((c as u8) + 32) as char
    } else {
        c
    }
}

/// ASCII lower-casing of a text, character by character.
pub open spec fn lowercase(s: Seq<char>) -> Seq<char> {
    Seq::new(s.len(), |i: int| ascii_lower(s[i]))
}

/// Whether `needle` occurs in `hay` starting at position `at`.
pub open spec fn occurs_at(hay: Seq<char>, needle: Seq<char>, at: int) -> bool {
    0 <= at && at + needle.len() <= hay.len() && hay.subrange(at, at + needle.len()) == needle
}

/// Whether `needle` occurs somewhere in `hay`. The empty text occurs in every
/// text.
pub open spec fn has_substring(hay: Seq<char>, needle: Seq<char>) -> bool {
    exists|at: int| occurs_at(hay, needle, at)
}

/// Whether `hay` ends with `needle`. Every text ends with the empty text.
pub open spec fn has_suffix(hay: Seq<char>, needle: Seq<char>) -> bool {
    occurs_at(hay, needle, hay.len() - needle.len())
}

/// Case-insensitive (ASCII) substring test.
pub open spec fn contains_ignore_case(hay: Seq<char>, needle: Seq<char>) -> bool {
    has_substring(lowercase(hay), lowercase(needle))
}

/// Case-insensitive (ASCII) suffix test.
pub open spec fn ends_with_ignore_case(hay: Seq<char>, needle: Seq<char>) -> bool {
    has_suffix(lowercase(hay), lowercase(needle))
}

/// The characters of a string slice, in order.
pub fn chars_of(s: &str) -> (v: Vec<char>)
    ensures
        v@ == s@,
{
    let mut v: Vec<char> = Vec::new();
    for c in it: s.chars()
        invariant
            it.seq() == s@,
            v@ == it.seq().take(it.index() as int),
    {
        v.push(c);
    }
    v
}

/// Lower-cases one character.
pub fn to_ascii_lower(c: char) -> (r: char)
    ensures
        r == ascii_lower(c),
{
    if 'A' <= c && c <= 'Z' {
        ((c as u8) + 32) as char
    } else {
        c
    }
}

/// The lower-cased characters of a string slice.
pub fn lowercase_chars(s: &str) -> (v: Vec<char>)
    ensures
        v@ == lowercase(s@),
{
    let mut v: Vec<char> = Vec::new();
    for c in it: s.chars()
        invariant
            it.seq() == s@,
            v@ == lowercase(it.seq().take(it.index() as int)),
    {
        v.push(to_ascii_lower(c));
    }
    v
}

/// Whether `needle` occurs in `hay` at position `at`.
pub fn matches_at(hay: &Vec<char>, needle: &Vec<char>, at: usize) -> (b: bool)
    requires
        at + needle.len() <= hay.len(),
    ensures
        b == occurs_at(hay@, needle@, at as int),
{
    let mut k: usize = 0;
    while k < needle.len()
        invariant
            k <= needle.len(),
            at + needle.len() <= hay.len(),
            forall|j: int| 0 <= j < k ==> hay@[at + j] == needle@[j],
        decreases needle.len() - k,
    {
        if hay[at + k] != needle[k] {
            proof {
                let window = hay@.subrange(at as int, at + needle.len());
            }
            return false;
        }
        k += 1;
    }
    assert(hay@.subrange(at as int, at + needle.len()) =~= needle@);
    true
}

/// Substring search.
pub fn contains(hay: &Vec<char>, needle: &Vec<char>) -> (b: bool)
    ensures
        b == has_substring(hay@, needle@),
{
    if needle.len() > hay.len() {
        return false;
    }
    let last: usize = hay.len() - needle.len();
    let mut at: usize = 0;
    loop
        invariant
            at <= last,
            last == hay.len() - needle.len(),
            needle.len() <= hay.len(),
            forall|p: int| 0 <= p < at ==> !occurs_at(hay@, needle@, p),
        decreases last - at,
    {
        if matches_at(hay, needle, at) {
            return true;
        }
        if at == last {
            return false;
        }
        at += 1;
    }
}

/// Suffix test.
pub fn ends_with(hay: &Vec<char>, needle: &Vec<char>) -> (b: bool)
    ensures
        b == has_suffix(hay@, needle@),
{
    if needle.len() > hay.len() {
        return false;
    }
    matches_at(hay, needle, hay.len() - needle.len())
}

/// Whether `c` is one of `'0'..='9'`.
pub open spec fn is_digit(c: char) -> bool {
    '0' <= c && c <= '9'
}

/// The number that a decimal digit stands for.
pub open spec fn digit_value(c: char) -> nat
    recommends
        is_digit(c),
{
    (c as u8 - '0' as u8) as nat
}

/// The decimal digit that stands for `d`.
pub open spec fn digit_char(d: nat) -> char
    recommends
        d < 10,
{
    ('0' as u8 + d) as char
}

/// Whether every character of `s` is a decimal digit.
pub open spec fn all_digits(s: Seq<char>) -> bool {
    forall|i: int| 0 <= i < s.len() ==> is_digit(#[trigger] s[i])
}

/// A numeral is a non-empty run of decimal digits.
pub open spec fn is_numeral(s: Seq<char>) -> bool {
    s.len() > 0 && all_digits(s)
}

/// The number that a run of decimal digits denotes, most significant digit
/// first. The empty run denotes zero.
pub open spec fn decimal_value(s: Seq<char>) -> nat
    decreases s.len(),
{
    if s.len() == 0 {
        0
    } else {
        decimal_value(s.drop_last()) * 10 + digit_value(s.last())
    }
}

/// The text of an unsigned number without its optional leading `'+'`.
pub open spec fn unsigned_digits(s: Seq<char>) -> Seq<char> {
    if s.len() > 0 && s[0] == '+' {
        s.skip(1)
    } else {
        s
    }
}

/// The number that `s` denotes as an unsigned decimal: an optional `'+'`
/// followed by a numeral and nothing else. No whitespace, no `'-'`, no other
/// character is accepted.
pub open spec fn parse_unsigned(s: Seq<char>) -> Option<nat> {
    let digits = unsigned_digits(s);
    if is_numeral(digits) {
        Some(decimal_value(digits))
    } else {
        None
    }
}

/// As [`parse_unsigned`], limited to what a machine word holds.
pub open spec fn parse_usize_spec(s: Seq<char>) -> Option<usize> {
    match parse_unsigned(s) {
        Some(n) => if n <= usize::MAX {
            Some(n as usize)
        } else {
            None
        },
        None => None,
    }
}

/// The canonical decimal numeral of `n`: no sign, no leading zero except for
/// zero itself.
pub open spec fn decimal_digits(n: nat) -> Seq<char>
    decreases n,
{
    if n < 10 {
        seq![digit_char(n)]
    } else {
        decimal_digits(n / 10).push(digit_char(n % 10))
    }
}

/// A numeral without its leading zeros, keeping one digit at least.
pub open spec fn strip_leading_zeros(s: Seq<char>) -> Seq<char>
    decreases s.len(),
{
    if s.len() > 1 && s[0] == '0' {
        strip_leading_zeros(s.skip(1))
    } else {
        s
    }
}

/// Appending one digit multiplies the value by ten and adds the digit.
pub proof fn lemma_decimal_value_push(s: Seq<char>, c: char)
    ensures
        decimal_value(s.push(c)) == decimal_value(s) * 10 + digit_value(c),
{
    assert(s.push(c).drop_last() =~= s);
}

/// The value of a run of digits is at least the value of each of its
/// prefixes.
pub proof fn lemma_decimal_value_prefix(s: Seq<char>, k: int)
    requires
        0 <= k <= s.len(),
    ensures
        decimal_value(s.take(k)) <= decimal_value(s),
    decreases s.len(),
{
    if k == s.len() {
        assert(s.take(k) =~= s);
    } else {
        assert(s.drop_last().take(k) =~= s.take(k));
        lemma_decimal_value_prefix(s.drop_last(), k);
    }
}

/// A digit and its value determine each other.
pub proof fn lemma_digit_round_trip(d: nat, c: char)
    ensures
        d < 10 ==> is_digit(digit_char(d)) && digit_value(digit_char(d)) == d,
        is_digit(c) ==> digit_value(c) < 10 && digit_char(digit_value(c)) == c,
{
}

/// The canonical numeral of a number is a numeral, denotes that number, and
/// starts with a zero only where the number is zero.
pub proof fn lemma_decimal_digits(n: nat)
    ensures
        is_numeral(decimal_digits(n)),
        decimal_value(decimal_digits(n)) == n,
        decimal_digits(n)[0] == '0' <==> n == 0,
        n == 0 ==> decimal_digits(n) == seq!['0'],
    decreases n,
{
    let digits = decimal_digits(n);
    lemma_digit_round_trip(n % 10, '0');
    if n < 10 {
        assert(decimal_value(digits.drop_last()) == 0);
    } else {
        lemma_decimal_digits(n / 10);
        lemma_decimal_value_push(decimal_digits(n / 10), digit_char(n % 10));
        assert forall|i: int| 0 <= i < digits.len() implies is_digit(#[trigger] digits[i]) by {}
    }
}

/// Appending a digit to a numeral and stripping the leading zeros: the
/// stripped numeral gets the digit appended, unless it was a lone zero,
/// which the digit replaces.
pub proof fn lemma_strip_push(s: Seq<char>, c: char)
    requires
        s.len() > 0,
    ensures
        strip_leading_zeros(s.push(c)) == if strip_leading_zeros(s) == seq!['0'] {
            seq![c]
        } else {
            strip_leading_zeros(s).push(c)
        },
    decreases s.len(),
{
    let longer = s.push(c);
    if s.len() == 1 {
        assert(s =~= seq![s[0]]);
        if s[0] == '0' {
            assert(strip_leading_zeros(longer) == strip_leading_zeros(longer.skip(1)));
        }
    } else if s[0] == '0' {
        assert(longer.skip(1) =~= s.skip(1).push(c));
        lemma_strip_push(s.skip(1), c);
    }
}

/// Writing the value of a numeral gives the numeral without its leading
/// zeros.
pub proof fn lemma_digits_of_value(s: Seq<char>)
    requires
        is_numeral(s),
    ensures
        decimal_digits(decimal_value(s)) == strip_leading_zeros(s),
    decreases s.len(),
{
    let c = s.last();
    let t = s.drop_last();
    assert(s =~= t.push(c));
    lemma_digit_round_trip(0, c);
    if t.len() == 0 {
        assert(decimal_value(t) == 0);
    } else {
        assert forall|i: int| 0 <= i < t.len() implies is_digit(#[trigger] t[i]) by {}
        lemma_digits_of_value(t);
        lemma_strip_push(t, c);
        lemma_decimal_digits(decimal_value(t));
    }
}

/// Reading the canonical numeral of a machine word gives that word back.
pub proof fn lemma_parse_decimal_digits(n: usize)
    ensures
        parse_usize_spec(decimal_digits(n as nat)) == Some(n),
{
    lemma_decimal_digits(n as nat);
}

/// A text that denotes an unsigned decimal is not empty, ends with a digit,
/// and holds nothing but digits and, at its start, the sign.
pub proof fn lemma_number_shape(s: Seq<char>)
    requires
        parse_unsigned(s) is Some,
    ensures
        s.len() > 0,
        is_digit(s.last()),
        forall|j: int| 0 <= j < s.len() ==> is_digit(#[trigger] s[j]) || (j == 0 && s[j] == '+'),
{
    let digits = unsigned_digits(s);
    assert forall|j: int| 0 <= j < s.len() implies is_digit(#[trigger] s[j]) || (j == 0 && s[j]
        == '+') by {
        if s[0] == '+' && j > 0 {
            assert(is_digit(digits[j - 1]));
        }
    }
}

/// Parses an unsigned decimal out of `v[from..to]`.
pub fn parse_usize(v: &Vec<char>, from: usize, to: usize) -> (r: Option<usize>)
    requires
        from <= to <= v.len(),
    ensures
        r == parse_usize_spec(v@.subrange(from as int, to as int)),
{
    let mut i: usize = from;
    if i < to && v[i] == '+' {
        i += 1;
    }
    let start: usize = i;
    let ghost digits = v@.subrange(start as int, to as int);
    if i == to {
        return None;
    }
    let mut acc: usize = 0;
    while i < to
        invariant
            start <= i <= to <= v.len(),
            digits == v@.subrange(start as int, to as int),
            digits == unsigned_digits(v@.subrange(from as int, to as int)),
            all_digits(digits.take(i - start)),
            acc == decimal_value(digits.take(i - start)),
        decreases to - i,
    {
        let c = v[i];
        assert(digits[i - start] == c);
        if !('0' <= c && c <= '9') {
            return None;
        }
        let d: usize = (c as u8 - '0' as u8) as usize;
        proof {
            assert(digits.take(i - start + 1) =~= digits.take(i - start).push(c));
            lemma_decimal_value_push(digits.take(i - start), c);
            assert forall|j: int| 0 <= j < i - start + 1 implies is_digit(
                #[trigger] digits.take(i - start + 1)[j],
            ) by {}
        }
        if acc > (usize::MAX - d) / 10 {
            proof {
                lemma_decimal_value_prefix(digits, i - start + 1);
            }
            return None;
        }
        acc = acc * 10 + d;
        i += 1;
    }
    assert(digits.take(i - start) =~= digits);
    Some(acc)
}

/// The one-character text of a decimal digit.
fn digit_text(d: usize) -> (s: &'static str)
    requires
        d < 10,
    ensures
        s@ == seq![digit_char(d as nat)],
{
    proof {
        reveal_strlit("0");
        reveal_strlit("1");
        reveal_strlit("2");
        reveal_strlit("3");
        reveal_strlit("4");
        reveal_strlit("5");
        reveal_strlit("6");
        reveal_strlit("7");
        reveal_strlit("8");
        reveal_strlit("9");
    }
    if d == 0 {
        "0"
    } else if d == 1 {
        "1"
    } else if d == 2 {
        "2"
    } else if d == 3 {
        "3"
    } else if d == 4 {
        "4"
    } else if d == 5 {
        "5"
    } else if d == 6 {
        "6"
    } else if d == 7 {
        "7"
    } else if d == 8 {
        "8"
    } else {
        "9"
    }
}

/// Writes `n` as its canonical decimal numeral.
pub fn format_decimal(n: usize) -> (s: String)
    ensures
        s@ == decimal_digits(n as nat),
{
    let mut out: String = String::from_str(digit_text(n % 10));
    let mut rest: usize = n / 10;
    while rest > 0
        invariant
            rest == 0 ==> out@ == decimal_digits(n as nat),
            rest > 0 ==> decimal_digits(n as nat) == decimal_digits(rest as nat) + out@,
        decreases rest,
    {
        let ghost before = out@;
        out = String::from_str(digit_text(rest % 10)).concat(out.as_str());
        proof {
            let d = seq![digit_char((rest % 10) as nat)];
            if rest >= 10 {
                assert(decimal_digits(rest as nat) == decimal_digits((rest / 10) as nat).push(
                    digit_char((rest % 10) as nat),
                ));
                assert(decimal_digits(rest as nat) + before =~= decimal_digits(
                    (rest / 10) as nat,
                ) + (d + before));
            }
        }
        rest = rest / 10;
    }
    out
}

} // verus!
