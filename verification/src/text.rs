//! Text predicates and transformations that rule matching is built on,
//! stated over sequences of characters.

use vstd::prelude::*;

verus! {

/// `needle` occurs in `hay` starting at offset `at`.
pub open spec fn occurs_at(hay: Seq<char>, needle: Seq<char>, at: int) -> bool {
    0 <= at && at + needle.len() <= hay.len() && hay.subrange(at, at + needle.len()) == needle
}

/// `hay` begins with `needle`.
pub open spec fn has_prefix(hay: Seq<char>, needle: Seq<char>) -> bool {
    occurs_at(hay, needle, 0)
}

/// `hay` ends with `needle`.
pub open spec fn has_suffix(hay: Seq<char>, needle: Seq<char>) -> bool {
    occurs_at(hay, needle, hay.len() - needle.len())
}

/// `needle` occurs somewhere in `hay`.
pub open spec fn has_infix(hay: Seq<char>, needle: Seq<char>) -> bool {
    exists|at: int| occurs_at(hay, needle, at)
}

/// The fields of `s` between occurrences of `sep`. A text without `sep` is
/// one field; the empty text is one empty field.
pub open spec fn fields(s: Seq<char>, sep: char) -> Seq<Seq<char>>
    decreases s.len(),
{
    if s.len() == 0 {
        seq![Seq::<char>::empty()]
    } else {
        let before = fields(s.drop_last(), sep);
        if s.last() == sep {
            before.push(Seq::<char>::empty())
        } else {
            before.drop_last().push(before.last().push(s.last()))
        }
    }
}

/// The characters with the Unicode property `White_Space`: the controls
/// from tab to carriage return, the space, next line, the no-break space,
/// the ogham space mark, the spaces from en quad to hair space, the line and
/// paragraph separators, and the narrow no-break, medium mathematical and
/// ideographic spaces.
pub open spec fn is_space(c: char) -> bool {
    ||| ('\u{9}' <= c && c <= '\u{d}')
    ||| c == ' '
    ||| c == '\u{85}'
    ||| c == '\u{a0}'
    ||| c == '\u{1680}'
    ||| ('\u{2000}' <= c && c <= '\u{200a}')
    ||| c == '\u{2028}'
    ||| c == '\u{2029}'
    ||| c == '\u{202f}'
    ||| c == '\u{205f}'
    ||| c == '\u{3000}'
}

/// `s` without its leading white space.
pub open spec fn trim_front(s: Seq<char>) -> Seq<char>
    decreases s.len(),
{
    if s.len() > 0 && is_space(s[0]) {
        trim_front(s.subrange(1, s.len() as int))
    } else {
        s
    }
}

/// `s` without its trailing white space.
pub open spec fn trim_back(s: Seq<char>) -> Seq<char>
    decreases s.len(),
{
    if s.len() > 0 && is_space(s.last()) {
        trim_back(s.drop_last())
    } else {
        s
    }
}

/// `s` without leading and trailing white space.
pub open spec fn trimmed(s: Seq<char>) -> Seq<char> {
    trim_back(trim_front(s))
}

/// The views of a sequence of strings, in order.
pub open spec fn texts(v: Seq<String>) -> Seq<Seq<char>> {
    Seq::new(v.len(), |i: int| v[i]@)
}

/// The Unicode lower-case form of a text, as `str::to_lowercase` gives it.
pub uninterp spec fn lowercase(s: Seq<char>) -> Seq<char>;

/// The Unicode upper-case form of a text, as `str::to_uppercase` gives it.
pub uninterp spec fn uppercase(s: Seq<char>) -> Seq<char>;

/// `str::starts_with` with a string pattern: whether the pattern is a prefix
/// of the text.
#[verifier::external_body]
pub(crate) fn starts_with(hay: &str, needle: &str) -> (b: bool)
    ensures
        b == has_prefix(hay@, needle@),
{
    hay.starts_with(needle)
}

/// `str::ends_with` with a string pattern: whether the pattern is a suffix of
/// the text.
#[verifier::external_body]
pub(crate) fn ends_with(hay: &str, needle: &str) -> (b: bool)
    ensures
        b == has_suffix(hay@, needle@),
{
    hay.ends_with(needle)
}

/// `str::contains` with a string pattern: whether the pattern occurs in the
/// text.
#[verifier::external_body]
pub(crate) fn contains(hay: &str, needle: &str) -> (b: bool)
    ensures
        b == has_infix(hay@, needle@),
{
    hay.contains(needle)
}

/// `str::split` on a comma: the fields between the commas, in order, each as
/// an owned string.
#[verifier::external_body]
pub(crate) fn split_commas(s: &str) -> (parts: Vec<String>)
    ensures
        texts(parts@) == fields(s@, ','),
{
    s.split(',').map(String::from).collect()
}

/// `str::trim`: the text without its leading and trailing characters of the
/// property `White_Space`.
#[verifier::external_body]
pub(crate) fn trim(s: &str) -> (t: String)
    ensures
        t@ == trimmed(s@),
{
    s.trim().to_string()
}

/// `str::to_lowercase`: the lower-case form of the text.
#[verifier::external_body]
pub(crate) fn to_lowercase(s: &str) -> (t: String)
    ensures
        t@ == lowercase(s@),
{
    s.to_lowercase()
}

/// `str::to_uppercase`: the upper-case form of the text.
#[verifier::external_body]
pub(crate) fn to_uppercase(s: &str) -> (t: String)
    ensures
        t@ == uppercase(s@),
{
    s.to_uppercase()
}

/// Whether two texts hold the same characters.
pub fn same_text(a: &str, b: &str) -> (r: bool)
    ensures
        r == (a@ == b@),
{
    let left: String = a.to_owned();
    let right: String = b.to_owned();
    left == right
}

/// The number that a text of decimal digits writes.
pub open spec fn digits_value(s: Seq<char>) -> int
    decreases s.len(),
{
    if s.len() == 0 {
        0
    } else {
        digits_value(s.drop_last()) * 10 + (s.last() as int - '0' as int)
    }
}

/// Every character is a decimal digit.
pub open spec fn all_digits(s: Seq<char>) -> bool {
    forall|i: int| 0 <= i < s.len() ==> '0' <= #[trigger] s[i] <= '9'
}

/// The port that a text writes: decimal digits, at least one, after an
/// optional plus sign, for a number of at most 65535.
pub open spec fn parsed_port(s: Seq<char>) -> Option<u16> {
    let digits = if s.len() > 0 && s[0] == '+' {
        s.subrange(1, s.len() as int)
    } else {
        s
    };
    if digits.len() > 0 && all_digits(digits) && digits_value(digits) <= u16::MAX {
        Some(digits_value(digits) as u16)
    } else {
        None
    }
}

/// `str::parse` to a `u16`: the number that the text writes in decimal
/// digits, where it writes one that fits.
#[verifier::external_body]
pub(crate) fn parse_port(s: &str) -> (r: Option<u16>)
    ensures
        r == parsed_port(s@),
{
    s.parse::<u16>().ok()
}

} // verus!
