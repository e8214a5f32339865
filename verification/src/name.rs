use vstd::prelude::*;
use vstd::utf8::encode_utf8;
use crate::constants::MAX_NAME_LENGTH;
use crate::error::MarketplaceError;

verus! {

broadcast use vstd::string::group_string_axioms;

/// Whether `c` has the Unicode `White_Space` property: the control characters U+0009 to
/// U+000D, the space U+0020, U+0085, the no-break space U+00A0, U+1680, U+2000 to U+200A,
/// the line and paragraph separators U+2028 and U+2029, U+202F, U+205F and U+3000.
pub open spec fn white_space(c: char) -> bool {
    let u = c as u32;
    ||| 0x09 <= u <= 0x0d
    ||| u == 0x20
    ||| u == 0x85
    ||| u == 0xa0
    ||| u == 0x1680
    ||| 0x2000 <= u <= 0x200a
    ||| u == 0x2028
    ||| u == 0x2029
    ||| u == 0x202f
    ||| u == 0x205f
    ||| u == 0x3000
}

/// `char::is_whitespace`: whether `c` has the Unicode `White_Space` property, whose code
/// points `white_space` lists.
#[verifier::external_body]
fn is_whitespace(c: char) -> (r: bool)
    ensures
        r == white_space(c),
{
    c.is_whitespace()
}

/// Whether every character of `s` is white space (so that trimming leaves nothing).
pub open spec fn is_blank(s: Seq<char>) -> bool {
    forall|i: int| 0 <= i < s.len() ==> white_space(#[trigger] s[i])
}

/// Whether `name` is empty once leading and trailing white space is trimmed.
pub fn name_is_blank(name: &str) -> (r: bool)
    ensures
        r == is_blank(name@),
{
    for c in it: name.chars()
        invariant
            it.seq() == name@,
            forall|i: int| 0 <= i < it.index() ==> white_space(#[trigger] name@[i]),
    {
        if !is_whitespace(c) {
            return false;
        }
    }
    true
}

/// Why a marketplace name is refused, if it is.
pub open spec fn name_error(name: Seq<char>) -> Option<MarketplaceError> {
    if is_blank(name) {
        Some(MarketplaceError::EmptyName)
    } else if encode_utf8(name).len() > MAX_NAME_LENGTH as nat {
        Some(MarketplaceError::NameTooLong)
    } else {
        None
    }
}

} // verus!
