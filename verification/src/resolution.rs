//! The table of named resolutions.

use crate::size::Size;
use crate::text::{ascii_lower, chars_of, lowercase, lowercase_chars};
use vstd::prelude::*;
use vstd::string::*;

verus! {

/// The resolution that a lower-case name stands for. The table is fixed;
/// any other text stands for none.
pub open spec fn named_resolution(name: Seq<char>) -> Option<Size> {
    if name == "vga"@ {
        Some(Size { x: 640, y: 480 })
    } else if name == "svga"@ {
        Some(Size { x: 800, y: 600 })
    } else if name == "xga"@ {
        Some(Size { x: 1024, y: 768 })
    } else if name == "sxga"@ {
        Some(Size { x: 1280, y: 1024 })
    } else if name == "uxga"@ {
        Some(Size { x: 1600, y: 1200 })
    } else if name == "hd"@ {
        Some(Size { x: 1280, y: 720 })
    } else if name == "fhd"@ {
        Some(Size { x: 1920, y: 1080 })
    } else if name == "wqhd"@ {
        Some(Size { x: 2560, y: 1440 })
    } else if name == "4k"@ || name == "uhd"@ {
        Some(Size { x: 3840, y: 2160 })
    } else if name == "8k"@ {
        Some(Size { x: 7680, y: 4320 })
    } else if name == "wxga"@ {
        Some(Size { x: 1280, y: 800 })
    } else if name == "wsxga+"@ || name == "wsxga"@ {
        Some(Size { x: 1680, y: 1050 })
    } else if name == "wuxga"@ {
        Some(Size { x: 1920, y: 1200 })
    } else if name == "wqxga"@ {
        Some(Size { x: 2560, y: 1600 })
    } else if name == "wquxga"@ {
        Some(Size { x: 3840, y: 2400 })
    } else if name == "uwfhd"@ || name == "ultrawide"@ {
        Some(Size { x: 2560, y: 1080 })
    } else if name == "uwqhd"@ || name == "ultrawide1440"@ {
        Some(Size { x: 3440, y: 1440 })
    } else if name == "uw4k"@ || name == "ultrawide4k"@ {
        Some(Size { x: 5120, y: 2160 })
    } else if name == "dci4k"@ {
        Some(Size { x: 4096, y: 2160 })
    } else {
        None
    }
}

/// The resolution that a name stands for, whatever the case of its ASCII
/// letters.
pub open spec fn resolution_by_name(name: Seq<char>) -> Option<Size> {
    named_resolution(lowercase(name))
}

/// Whether `c` is a lower-case ASCII letter other than `x` and `p`, the two
/// letters that the other forms of a size specification use.
pub open spec fn is_name_letter(c: char) -> bool {
    'a' <= c && c <= 'z' && c != 'x' && c != 'p'
}

/// Every name of the table holds a letter that no other form of a size
/// specification can hold.
pub proof fn lemma_name_has_letter(name: Seq<char>)
    requires
        named_resolution(name) is Some,
    ensures
        exists|k: int| 0 <= k < name.len() && is_name_letter(#[trigger] name[k]),
{
    reveal_strlit("vga");
    reveal_strlit("svga");
    reveal_strlit("xga");
    reveal_strlit("sxga");
    reveal_strlit("uxga");
    reveal_strlit("hd");
    reveal_strlit("fhd");
    reveal_strlit("wqhd");
    reveal_strlit("4k");
    reveal_strlit("uhd");
    reveal_strlit("8k");
    reveal_strlit("wxga");
    reveal_strlit("wsxga+");
    reveal_strlit("wsxga");
    reveal_strlit("wuxga");
    reveal_strlit("wqxga");
    reveal_strlit("wquxga");
    reveal_strlit("uwfhd");
    reveal_strlit("ultrawide");
    reveal_strlit("uwqhd");
    reveal_strlit("ultrawide1440");
    reveal_strlit("uw4k");
    reveal_strlit("ultrawide4k");
    reveal_strlit("dci4k");
    if name == "vga"@ {
        assert(is_name_letter(name[0]));
    } else if name == "svga"@ {
        assert(is_name_letter(name[0]));
    } else if name == "xga"@ {
        assert(is_name_letter(name[1]));
    } else if name == "sxga"@ {
        assert(is_name_letter(name[0]));
    } else if name == "uxga"@ {
        assert(is_name_letter(name[0]));
    } else if name == "hd"@ {
        assert(is_name_letter(name[0]));
    } else if name == "fhd"@ {
        assert(is_name_letter(name[0]));
    } else if name == "wqhd"@ {
        assert(is_name_letter(name[0]));
    } else if name == "4k"@ {
        assert(is_name_letter(name[1]));
    } else if name == "uhd"@ {
        assert(is_name_letter(name[0]));
    } else if name == "8k"@ {
        assert(is_name_letter(name[1]));
    } else if name == "wxga"@ {
        assert(is_name_letter(name[0]));
    } else if name == "wsxga+"@ {
        assert(is_name_letter(name[0]));
    } else if name == "wsxga"@ {
        assert(is_name_letter(name[0]));
    } else if name == "wuxga"@ {
        assert(is_name_letter(name[0]));
    } else if name == "wqxga"@ {
        assert(is_name_letter(name[0]));
    } else if name == "wquxga"@ {
        assert(is_name_letter(name[0]));
    } else if name == "uwfhd"@ {
        assert(is_name_letter(name[0]));
    } else if name == "ultrawide"@ {
        assert(is_name_letter(name[0]));
    } else if name == "uwqhd"@ {
        assert(is_name_letter(name[0]));
    } else if name == "ultrawide1440"@ {
        assert(is_name_letter(name[0]));
    } else if name == "uw4k"@ {
        assert(is_name_letter(name[0]));
    } else if name == "ultrawide4k"@ {
        assert(is_name_letter(name[0]));
    } else if name == "dci4k"@ {
        assert(is_name_letter(name[0]));
    }
}

/// No name of the table holds the letter `x` twice.
pub proof fn lemma_name_has_one_separator(name: Seq<char>)
    ensures
        named_resolution(name) is Some ==> forall|i: int, j: int|
            0 <= i < j < name.len() ==> !(#[trigger] name[i] == 'x' && #[trigger] name[j] == 'x'),
{
    reveal_strlit("vga");
    reveal_strlit("svga");
    reveal_strlit("xga");
    reveal_strlit("sxga");
    reveal_strlit("uxga");
    reveal_strlit("hd");
    reveal_strlit("fhd");
    reveal_strlit("wqhd");
    reveal_strlit("4k");
    reveal_strlit("uhd");
    reveal_strlit("8k");
    reveal_strlit("wxga");
    reveal_strlit("wsxga+");
    reveal_strlit("wsxga");
    reveal_strlit("wuxga");
    reveal_strlit("wqxga");
    reveal_strlit("wquxga");
    reveal_strlit("uwfhd");
    reveal_strlit("ultrawide");
    reveal_strlit("uwqhd");
    reveal_strlit("ultrawide1440");
    reveal_strlit("uw4k");
    reveal_strlit("ultrawide4k");
    reveal_strlit("dci4k");
}

/// A text without such a letter, in either case, is no name.
pub proof fn lemma_not_a_name(s: Seq<char>)
    requires
        forall|k: int| 0 <= k < s.len() ==> !is_name_letter(ascii_lower(#[trigger] s[k])),
    ensures
        resolution_by_name(s) is None,
{
    let name = lowercase(s);
    if named_resolution(name) is Some {
        lemma_name_has_letter(name);
        let k = choose|k: int| 0 <= k < name.len() && is_name_letter(#[trigger] name[k]);
        assert(name[k] == ascii_lower(s[k]));
    }
}

/// Texts that differ only in the case of their ASCII letters name the same
/// resolution.
pub proof fn lemma_name_ignores_case(a: Seq<char>, b: Seq<char>)
    requires
        lowercase(a) == lowercase(b),
    ensures
        resolution_by_name(a) == resolution_by_name(b),
{
}

/// Whether `chars` spell `text`.
fn same_text(chars: &Vec<char>, text: &str) -> (b: bool)
    ensures
        b == (chars@ == text@),
{
    let other = chars_of(text);
    if chars.len() != other.len() {
        return false;
    }
    let mut i: usize = 0;
    while i < chars.len()
        invariant
            i <= chars.len(),
            chars.len() == other.len(),
            other@ == text@,
            forall|j: int| 0 <= j < i ==> chars@[j] == other@[j],
        decreases chars.len() - i,
    {
        if chars[i] != other[i] {
            return false;
        }
        i += 1;
    }
    assert(chars@ =~= other@);
    true
}

/// Looks a resolution up by its name, ignoring ASCII case.
pub fn get_resolution_by_name(name: &str) -> (r: Option<Size>)
    ensures
        r == resolution_by_name(name@),
{
    let name = lowercase_chars(name);
    if same_text(&name, "vga") {
        Some(Size { x: 640, y: 480 })
    } else if same_text(&name, "svga") {
        Some(Size { x: 800, y: 600 })
    } else if same_text(&name, "xga") {
        Some(Size { x: 1024, y: 768 })
    } else if same_text(&name, "sxga") {
        Some(Size { x: 1280, y: 1024 })
    } else if same_text(&name, "uxga") {
        Some(Size { x: 1600, y: 1200 })
    } else if same_text(&name, "hd") {
        Some(Size { x: 1280, y: 720 })
    } else if same_text(&name, "fhd") {
        Some(Size { x: 1920, y: 1080 })
    } else if same_text(&name, "wqhd") {
        Some(Size { x: 2560, y: 1440 })
    } else if same_text(&name, "4k") || same_text(&name, "uhd") {
        Some(Size { x: 3840, y: 2160 })
    } else if same_text(&name, "8k") {
        Some(Size { x: 7680, y: 4320 })
    } else if same_text(&name, "wxga") {
        Some(Size { x: 1280, y: 800 })
    } else if same_text(&name, "wsxga+") || same_text(&name, "wsxga") {
        Some(Size { x: 1680, y: 1050 })
    } else if same_text(&name, "wuxga") {
        Some(Size { x: 1920, y: 1200 })
    } else if same_text(&name, "wqxga") {
        Some(Size { x: 2560, y: 1600 })
    } else if same_text(&name, "wquxga") {
        Some(Size { x: 3840, y: 2400 })
    } else if same_text(&name, "uwfhd") || same_text(&name, "ultrawide") {
        Some(Size { x: 2560, y: 1080 })
    } else if same_text(&name, "uwqhd") || same_text(&name, "ultrawide1440") {
        Some(Size { x: 3440, y: 1440 })
    } else if same_text(&name, "uw4k") || same_text(&name, "ultrawide4k") {
        Some(Size { x: 5120, y: 2160 })
    } else if same_text(&name, "dci4k") {
        Some(Size { x: 4096, y: 2160 })
    } else {
        None
    }
}

} // verus!
