use vstd::prelude::*;

use crate::record::{ascii_text, ascii_upper, to_uppercase, unicode_uppercase};

verus! {

/// What `str::to_lowercase` returns for `text`: its Unicode lowercase mapping.
pub uninterp spec fn unicode_lowercase(text: Seq<char>) -> Seq<char>;

/// The ASCII lowercase of a character: `A` to `Z` become `a` to `z`, others stay.
pub open spec fn ascii_lower_char(c: char) -> char {
    if 65 <= (c as u32) <= 90 {
        ((c as u32) + 32) as char
    } else {
        c
    }
}

/// The ASCII lowercase of a text, character by character.
pub open spec fn ascii_lower(text: Seq<char>) -> Seq<char> {
    text.map_values(|c: char| ascii_lower_char(c))
}

/// The character has Unicode's White_Space property.
pub open spec fn white_space(c: char) -> bool {
    let n = c as u32;
    ||| 0x9 <= n <= 0xd
    ||| n == 0x20
    ||| n == 0x85
    ||| n == 0xa0
    ||| n == 0x1680
    ||| 0x2000 <= n <= 0x200a
    ||| n == 0x2028
    ||| n == 0x2029
    ||| n == 0x202f
    ||| n == 0x205f
    ||| n == 0x3000
}

/// `text` without its leading white space.
pub open spec fn trim_start(text: Seq<char>) -> Seq<char>
    decreases text.len(),
{
    if text.len() > 0 && white_space(text[0]) {
        trim_start(text.drop_first())
    } else {
        text
    }
}

/// `text` without its trailing white space.
pub open spec fn trim_end(text: Seq<char>) -> Seq<char>
    decreases text.len(),
{
    if text.len() > 0 && white_space(text.last()) {
        trim_end(text.drop_last())
    } else {
        text
    }
}

/// `text` without its leading and trailing white space.
pub open spec fn trimmed(text: Seq<char>) -> Seq<char> {
    trim_end(trim_start(text))
}

/// Calls `str::to_lowercase`. Trusted: the result is the Unicode lowercase mapping of `text`,
/// not written out here but named `unicode_lowercase`; on ASCII text that mapping turns `A` to
/// `Z` into `a` to `z` and keeps every other character.
#[verifier::external_body]
fn to_lowercase(text: &str) -> (r: String)
    ensures
        r@ == unicode_lowercase(text@),
        ascii_text(text@) ==> r@ == ascii_lower(text@),
{
    text.to_lowercase()
}

/// Whether the character has Unicode's White_Space property.
fn is_white_space(c: char) -> (b: bool)
    ensures
        b == white_space(c),
{
    let n = c as u32;
    (0x9 <= n && n <= 0xd) || n == 0x20 || n == 0x85 || n == 0xa0 || n == 0x1680 || (0x2000 <= n
        && n <= 0x200a) || n == 0x2028 || n == 0x2029 || n == 0x202f || n == 0x205f || n == 0x3000
}

/// `text` without its leading and trailing white space (as `str::trim` removes it).
fn trim(text: &str) -> (r: &str)
    ensures
        r@ == trimmed(text@),
{
    let n = text.unicode_len();
    let ghost s = text@;
    let mut start: usize = 0;
    assert(s.subrange(0, n as int) =~= s);
    while start < n && is_white_space(text.get_char(start))
        invariant
            n == s.len(),
            s == text@,
            start <= n,
            trim_start(s) == trim_start(s.subrange(start as int, n as int)),
        decreases n - start,
    {
        assert(s.subrange(start as int, n as int).drop_first() =~= s.subrange(start + 1, n as int));
        start = start + 1;
    }
    assert(trim_start(s) == s.subrange(start as int, n as int));
    let mut end: usize = n;
    while end > start && is_white_space(text.get_char(end - 1))
        invariant
            n == s.len(),
            s == text@,
            start <= end <= n,
            trim_end(s.subrange(start as int, n as int)) == trim_end(s.subrange(start as int, end as int)),
        decreases end - start,
    {
        assert(s.subrange(start as int, end as int).drop_last() =~= s.subrange(start as int, end - 1));
        end = end - 1;
    }
    assert(trim_end(s.subrange(start as int, end as int)) == s.subrange(start as int, end as int));
    text.substring_char(start, end)
}

/// A line as read from the terminal, without its last character (the line end). The line
/// must not be empty and must end in a one-byte character.
pub fn strip_line_end(line: &str) -> (r: &str)
    requires
        line@.len() > 0,
        (line@.last() as u32) < 128,
    ensures
        r@ == line@.drop_last(),
{
    let n = line.unicode_len();
    line.substring_char(0, n - 1)
}

/// Whether the answer to "make the user superuser?" is yes: the answer, uppercased, is `Y`.
pub fn answers_yes(answer: &str) -> (r: bool)
    ensures
        r == (unicode_uppercase(answer@) == "Y"@),
        ascii_text(answer@) ==> r == (ascii_upper(answer@) == "Y"@),
{
    to_uppercase(answer) == String::from_str("Y")
}

/// Whether the answer to "really delete?" confirms: the answer, without surrounding white
/// space and lowercased, is `y`.
pub fn confirms_deletion(answer: &str) -> (r: bool)
    ensures
        r == (unicode_lowercase(trimmed(answer@)) == "y"@),
        ascii_text(trimmed(answer@)) ==> r == (ascii_lower(trimmed(answer@)) == "y"@),
{
    to_lowercase(trim(answer)) == String::from_str("y")
}

} // verus!
