use vstd::prelude::*;
use vstd::string::*;

verus! {

/// `pattern` occurs in `text` as a contiguous run of characters.
pub open spec fn is_substring(pattern: Seq<char>, text: Seq<char>) -> bool {
    exists|i: int|
        0 <= i && i + pattern.len() <= text.len() && #[trigger] text.subrange(i, i + pattern.len())
            == pattern
}

/// The characters with the Unicode White_Space property.
pub open spec fn is_white_space(c: char) -> bool {
    let u = c as u32;
    (0x9 <= u <= 0xd) || u == 0x20 || u == 0x85 || u == 0xa0 || u == 0x1680 || (0x2000 <= u
        <= 0x200a) || u == 0x2028 || u == 0x2029 || u == 0x202f || u == 0x205f || u == 0x3000
}

/// `s[a..b]` is what remains of `s` once leading and trailing white space
/// is dropped.
pub open spec fn trim_bounds(s: Seq<char>, a: int, b: int) -> bool {
    &&& 0 <= a <= b <= s.len()
    &&& forall|i: int| 0 <= i < a ==> is_white_space(#[trigger] s[i])
    &&& forall|i: int| b <= i < s.len() ==> is_white_space(#[trigger] s[i])
    &&& a < b ==> !is_white_space(s[a]) && !is_white_space(s[b - 1])
}

/// `r` is `s` without its leading and trailing white space.
pub open spec fn is_trim_of(r: Seq<char>, s: Seq<char>) -> bool {
    exists|a: int, b: int| #[trigger] trim_bounds(s, a, b) && r == s.subrange(a, b)
}

/// `s` without its leading and trailing white space.
pub open spec fn trimmed(s: Seq<char>) -> Seq<char> {
    choose|r: Seq<char>| is_trim_of(r, s)
}

/// A string has one trimmed form.
proof fn lemma_trim_unique(r1: Seq<char>, r2: Seq<char>, s: Seq<char>)
    requires
        is_trim_of(r1, s),
        is_trim_of(r2, s),
    ensures
        r1 == r2,
{
    let (a1, b1) = choose|a: int, b: int| #[trigger] trim_bounds(s, a, b) && r1 == s.subrange(a, b);
    let (a2, b2) = choose|a: int, b: int| #[trigger] trim_bounds(s, a, b) && r2 == s.subrange(a, b);
    if a1 < b1 && a2 < b2 {
        if a1 < a2 {
            assert(is_white_space(s[a1]));
        }
        if a2 < a1 {
            assert(is_white_space(s[a2]));
        }
        if b1 < b2 {
            assert(is_white_space(s[b2 - 1]));
        }
        if b2 < b1 {
            assert(is_white_space(s[b1 - 1]));
        }
    } else if a1 < b1 {
        assert(is_white_space(s[a1]));
    } else if a2 < b2 {
        assert(is_white_space(s[a2]));
    }
    assert(r1 =~= r2);
}

/// The trimmed form of `s`, from any witness of it.
pub(crate) proof fn lemma_trimmed(r: Seq<char>, s: Seq<char>)
    requires
        is_trim_of(r, s),
    ensures
        trimmed(s) == r,
{
    lemma_trim_unique(trimmed(s), r, s);
}

/// Relies on `str::contains` with a `&str` pattern: true when the pattern is a
/// sub-slice of the text (the empty pattern is a sub-slice of every text).
#[verifier::external_body]
pub(crate) fn text_contains(text: &str, pattern: &str) -> (r: bool)
    ensures
        r == is_substring(pattern@, text@),
{
    text.contains(pattern)
}

/// Relies on `str::trim`: leading and trailing characters with the Unicode
/// White_Space property removed.
#[verifier::external_body]
pub(crate) fn trim_text(s: &str) -> (r: String)
    ensures
        is_trim_of(r@, s@),
{
    s.trim().to_string()
}

/// The word `post` in any mix of ASCII upper and lower case.
pub open spec fn is_post_word(s: Seq<char>) -> bool {
    &&& s.len() == 4
    &&& (s[0] == 'p' || s[0] == 'P')
    &&& (s[1] == 'o' || s[1] == 'O')
    &&& (s[2] == 's' || s[2] == 'S')
    &&& (s[3] == 't' || s[3] == 'T')
}

/// Whether an HTTP method name from the configuration selects POST.
pub fn is_post(method: &str) -> (r: bool)
    ensures
        r == is_post_word(method@),
{
    if method.unicode_len() != 4 {
        return false;
    }
    let a = method.get_char(0);
    let b = method.get_char(1);
    let c = method.get_char(2);
    let d = method.get_char(3);
    (a == 'p' || a == 'P') && (b == 'o' || b == 'O') && (c == 's' || c == 'S') && (d == 't' || d
        == 'T')
}

/// Whether two strings hold the same characters.
pub fn same_text(a: &str, b: &str) -> (r: bool)
    ensures
        r == (a@ == b@),
{
    let x = String::from_str(a);
    let y = String::from_str(b);
    x == y
}

} // verus!
