//! The grammar of size specifications: a named resolution, a height with
//! the suffix `p`, or an explicit `<width>x<height>` pair.

use crate::resolution::{
    get_resolution_by_name, is_name_letter, lemma_name_has_one_separator, lemma_not_a_name,
    resolution_by_name,
};
use crate::size::Size;
use crate::text::{
    ascii_lower, chars_of, decimal_digits, is_digit, lemma_decimal_digits, lemma_digits_of_value,
    lemma_number_shape, lemma_parse_decimal_digits, lowercase, parse_usize, parse_usize_spec,
    strip_leading_zeros, unsigned_digits,
};
use vstd::prelude::*;

verus! {

/// Why a text is no size specification.
#[derive(Debug, Copy, Clone, PartialEq, Eq, Structural)]
pub enum ParseError {
    /// The text is no named resolution, no height shorthand and no explicit
    /// pair.
    InvalidSizeFormat,
}

impl ParseError {
    /// What to tell the user.
    pub fn message(&self) -> (text: &'static str)
        ensures
            text@ == "Unexpected Input"@,
    {
        "Unexpected Input"
    }
}

/// The width that goes with a height at an aspect ratio of 16:9, rounded
/// up to a whole number: `floor((height * 16 + 8) / 9)`.
pub open spec fn shorthand_width(height: nat) -> nat {
    (height * 16 + 8) / 9
}

/// The size that a height shorthand stands for: an unsigned decimal height
/// followed by `p` or `P`. The width must fit a machine word.
pub open spec fn height_shorthand(s: Seq<char>) -> Option<Size> {
    if s.len() > 0 && (s.last() == 'p' || s.last() == 'P') {
        match parse_usize_spec(s.drop_last()) {
            Some(height) => if shorthand_width(height as nat) <= usize::MAX {
                Some(Size { x: shorthand_width(height as nat) as usize, y: height })
            } else {
                None
            },
            None => None,
        }
    } else {
        None
    }
}

/// Whether position `i` of `s` holds the separator `x` and no other position
/// does.
pub open spec fn sole_separator(s: Seq<char>, i: int) -> bool {
    &&& 0 <= i < s.len()
    &&& s[i] == 'x'
    &&& forall|j: int| 0 <= j < s.len() && j != i ==> s[j] != 'x'
}

/// The size that an explicit pair stands for: exactly one separator `x`,
/// with an unsigned decimal on each side of it.
pub open spec fn explicit_pair(s: Seq<char>) -> Option<Size> {
    if exists|i: int| sole_separator(s, i) {
        let i = choose|i: int| sole_separator(s, i);
        match (parse_usize_spec(s.take(i)), parse_usize_spec(s.skip(i + 1))) {
            (Some(width), Some(height)) => Some(Size { x: width, y: height }),
            _ => None,
        }
    } else {
        None
    }
}

/// The size that a text specifies. The first form that fits decides: named
/// resolution, then height shorthand, then explicit pair.
pub open spec fn parse_size_spec(s: Seq<char>) -> Result<Size, ParseError> {
    match resolution_by_name(s) {
        Some(size) => Ok(size),
        None => match height_shorthand(s) {
            Some(size) => Ok(size),
            None => match explicit_pair(s) {
                Some(size) => Ok(size),
                None => Err(ParseError::InvalidSizeFormat),
            },
        },
    }
}

/// A number text without its optional sign and its leading zeros.
pub open spec fn normalized(s: Seq<char>) -> Seq<char> {
    strip_leading_zeros(unsigned_digits(s))
}

/// A text that denotes an unsigned decimal holds no separator and no letter,
/// and does not end like a height shorthand.
proof fn lemma_number_is_plain(s: Seq<char>)
    requires
        parse_usize_spec(s) is Some,
    ensures
        s.len() > 0,
        is_digit(s.last()),
        forall|j: int| 0 <= j < s.len() ==> #[trigger] s[j] != 'x' && !is_name_letter(
            ascii_lower(s[j]),
        ),
{
    lemma_number_shape(s);
}

/// A name is read as a name, whatever the case of its letters: texts that
/// differ only in the case of their ASCII letters, one of them a name,
/// specify the same size, the one that the table gives.
pub proof fn lemma_name_decides(a: Seq<char>, b: Seq<char>)
    requires
        lowercase(a) == lowercase(b),
        resolution_by_name(a) is Some,
    ensures
        parse_size_spec(a) == Ok::<Size, ParseError>(resolution_by_name(a)->0),
        parse_size_spec(b) == parse_size_spec(a),
{
}

/// A number followed by `p` or `P` is a height: the size has that height and
/// the width `floor((height * 16 + 8) / 9)`. Where that width does not fit a
/// machine word, the text specifies no size.
pub proof fn lemma_height_shorthand(number: Seq<char>, suffix: char)
    requires
        parse_usize_spec(number) is Some,
        suffix == 'p' || suffix == 'P',
    ensures
        ({
            let height = parse_usize_spec(number)->0;
            let width = shorthand_width(height as nat);
            parse_size_spec(number.push(suffix)) == if width <= usize::MAX {
                Ok::<Size, ParseError>(Size { x: width as usize, y: height })
            } else {
                Err::<Size, ParseError>(ParseError::InvalidSizeFormat)
            }
        }),
{
    let s = number.push(suffix);
    lemma_number_is_plain(number);
    assert(s.drop_last() =~= number);
    assert forall|k: int| 0 <= k < s.len() implies !is_name_letter(
        ascii_lower(#[trigger] s[k]),
    ) by {
        if k < number.len() {
            assert(s[k] == number[k]);
        }
    }
    lemma_not_a_name(s);
    assert forall|i: int| !sole_separator(s, i) by {
        if 0 <= i < number.len() {
            assert(s[i] == number[i]);
        }
    }
}

/// The canonical decimal text of a height, followed by `p`, specifies that
/// height with the width `floor((height * 16 + 8) / 9)`.
pub proof fn lemma_height_shorthand_canonical(height: usize)
    requires
        shorthand_width(height as nat) <= usize::MAX,
    ensures
        parse_size_spec(decimal_digits(height as nat).push('p')) == Ok::<Size, ParseError>(
            Size { x: shorthand_width(height as nat) as usize, y: height },
        ),
{
    lemma_parse_decimal_digits(height);
    lemma_height_shorthand(decimal_digits(height as nat), 'p');
}

/// Where one separator stands between two numbers, the text specifies these
/// two numbers as width and height.
proof fn lemma_explicit_pair(s: Seq<char>, i: int)
    requires
        sole_separator(s, i),
        parse_usize_spec(s.take(i)) is Some,
        parse_usize_spec(s.skip(i + 1)) is Some,
    ensures
        parse_size_spec(s) == Ok::<Size, ParseError>(
            Size { x: parse_usize_spec(s.take(i))->0, y: parse_usize_spec(s.skip(i + 1))->0 },
        ),
{
    let head = s.take(i);
    let tail = s.skip(i + 1);
    lemma_number_is_plain(head);
    lemma_number_is_plain(tail);
    assert forall|k: int| 0 <= k < s.len() implies !is_name_letter(
        ascii_lower(#[trigger] s[k]),
    ) by {
        if k < i {
            assert(s[k] == head[k]);
        } else if k > i {
            assert(s[k] == tail[k - i - 1]);
        }
    }
    lemma_not_a_name(s);
    assert(s.last() == tail.last());
}

/// Reading what [`Size::to_string`] writes gives the size back.
pub proof fn lemma_parse_of_text(size: Size)
    ensures
        parse_size_spec(size@.text()) == Ok::<Size, ParseError>(size),
{
    let width = decimal_digits(size.x as nat);
    let height = decimal_digits(size.y as nat);
    let s = size@.text();
    let i = width.len() as int;
    lemma_decimal_digits(size.x as nat);
    lemma_decimal_digits(size.y as nat);
    lemma_parse_decimal_digits(size.x);
    lemma_parse_decimal_digits(size.y);
    assert(s.take(i) =~= width);
    assert(s.skip(i + 1) =~= height);
    assert forall|j: int| 0 <= j < s.len() && j != i implies s[j] != 'x' by {
        if j < i {
            assert(is_digit(width[j]));
        } else {
            assert(is_digit(height[j - i - 1]));
        }
    }
    lemma_explicit_pair(s, i);
}

/// Writing what an explicit pair specifies gives the pair back, each number
/// without its sign and its leading zeros.
pub proof fn lemma_text_of_pair(s: Seq<char>, i: int)
    requires
        sole_separator(s, i),
        parse_usize_spec(s.take(i)) is Some,
        parse_usize_spec(s.skip(i + 1)) is Some,
    ensures
        parse_size_spec(s) is Ok,
        parse_size_spec(s)->Ok_0@.text() == normalized(s.take(i)) + seq!['x'] + normalized(
            s.skip(i + 1),
        ),
{
    lemma_explicit_pair(s, i);
    lemma_digits_of_value(unsigned_digits(s.take(i)));
    lemma_digits_of_value(unsigned_digits(s.skip(i + 1)));
}

/// A text with more than one separator specifies no size.
pub proof fn lemma_two_separators(s: Seq<char>, i: int, j: int)
    requires
        0 <= i < j < s.len(),
        s[i] == 'x',
        s[j] == 'x',
    ensures
        parse_size_spec(s) is Err,
{
    let name = lowercase(s);
    assert(name[i] == 'x' && name[j] == 'x');
    lemma_name_has_one_separator(name);
    if s.len() > 0 && parse_usize_spec(s.drop_last()) is Some {
        lemma_number_is_plain(s.drop_last());
        assert(s.drop_last()[i] == s[i]);
    }
    assert forall|k: int| !sole_separator(s, k) by {
        if k == i {
            assert(s[j] == 'x');
        } else {
            assert(s[i] == 'x');
        }
    }
}

/// The width that goes with `height`, if it fits a machine word.
fn width_for_height(height: usize) -> (r: Option<usize>)
    ensures
        r is Some <==> shorthand_width(height as nat) <= usize::MAX,
        r matches Some(width) ==> width == shorthand_width(height as nat),
{
    let wide: u128 = (height as u128 * 16 + 8) / 9;
    if wide <= usize::MAX as u128 {
        Some(wide as usize)
    } else {
        None
    }
}

/// The height shorthand, read from the characters of a text.
fn parse_height_shorthand(chars: &Vec<char>) -> (r: Option<Size>)
    ensures
        r == height_shorthand(chars@),
{
    let n = chars.len();
    if n == 0 {
        return None;
    }
    let last = chars[n - 1];
    if !(last == 'p' || last == 'P') {
        return None;
    }
    match parse_usize(chars, 0, n - 1) {
        Some(height) => match width_for_height(height) {
            Some(width) => Some(Size { x: width, y: height }),
            None => None,
        },
        None => None,
    }
}

/// The explicit pair, read from the characters of a text.
fn parse_explicit_pair(chars: &Vec<char>) -> (r: Option<Size>)
    ensures
        r == explicit_pair(chars@),
{
    let n = chars.len();
    let mut i: usize = 0;
    while i < n && chars[i] != 'x'
        invariant
            i <= n,
            n == chars.len(),
            forall|j: int| 0 <= j < i ==> chars@[j] != 'x',
        decreases n - i,
    {
        i += 1;
    }
    if i == n {
        return None;
    }
    let width = parse_usize(chars, 0, i);
    let height = parse_usize(chars, i + 1, n);
    proof {
        let tail = chars@.skip(i + 1);
        if height is Some {
            lemma_number_is_plain(tail);
            assert forall|j: int| 0 <= j < n && j != i implies chars@[j] != 'x' by {
                if j > i {
                    assert(tail[j - i - 1] == chars@[j]);
                }
            }
            assert(sole_separator(chars@, i as int));
        }
        if exists|k: int| sole_separator(chars@, k) {
            let k = choose|k: int| sole_separator(chars@, k);
            assert(k == i);
        }
    }
    match (width, height) {
        (Some(w), Some(h)) => Some(Size { x: w, y: h }),
        _ => None,
    }
}

/// Reads a size specification.
///
/// The text is taken as it stands: nothing is trimmed, and only the ASCII
/// letters of a name are taken without regard to case.
pub fn parse_size(arg: &str) -> (r: Result<Size, ParseError>)
    ensures
        r == parse_size_spec(arg@),
{
    if let Some(size) = get_resolution_by_name(arg) {
        return Ok(size);
    }
    let chars = chars_of(arg);
    if let Some(size) = parse_height_shorthand(&chars) {
        return Ok(size);
    }
    match parse_explicit_pair(&chars) {
        Some(size) => Ok(size),
        None => Err(ParseError::InvalidSizeFormat),
    }
}

} // verus!
