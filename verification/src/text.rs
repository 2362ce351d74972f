//! Character-level helpers shared by the validators and the log excerpts.
use vstd::prelude::*;

verus! {

/// The characters that `char::is_whitespace` accepts: the Unicode `White_Space` property.
pub open spec fn is_unicode_whitespace(c: char) -> bool {
    ||| ('\u{9}' <= c && c <= '\u{d}')
    ||| c == ' '
    ||| c == '\u{85}'
    ||| c == '\u{a0}'
    ||| c == '\u{1680}'
    ||| ('\u{2000}' <= c && c <= '\u{200a}')
    ||| c == '\u{2028}'
    ||| c == '\u{2029}'
    ||| c == '\u{202f}'
    ||| c == '\u{205f}'
    ||| c == '\u{3000}'
}

/// A text is blank when trimming its whitespace leaves nothing.
pub open spec fn is_blank_text(s: Seq<char>) -> bool {
    forall|i: int| 0 <= i < s.len() ==> is_unicode_whitespace(#[trigger] s[i])
}

pub fn is_whitespace(c: char) -> (b: bool)
    ensures
        b == is_unicode_whitespace(c),
{
    ('\u{9}' <= c && c <= '\u{d}') || c == ' ' || c == '\u{85}' || c == '\u{a0}' || c == '\u{1680}'
        || ('\u{2000}' <= c && c <= '\u{200a}') || c == '\u{2028}' || c == '\u{2029}'
        || c == '\u{202f}' || c == '\u{205f}' || c == '\u{3000}'
}

/// `s.trim().is_empty()`.
pub fn is_blank(s: &str) -> (b: bool)
    ensures
        b == is_blank_text(s@),
{
    broadcast use vstd::string::group_string_axioms;
    for c in it: s.chars()
        invariant
            it.seq() == s@,
            forall|j: int| 0 <= j < it.index() ==> is_unicode_whitespace(#[trigger] s@[j]),
    {
        if !is_whitespace(c) {
            return false;
        }
    }
    true
}

/// The longest excerpt of a response kept in an error message, in characters.
pub const EXCERPT_LIMIT: usize = 2000;

/// The text kept of a response in an error message: all of it when it is short, else its
/// first `EXCERPT_LIMIT` characters followed by a truncation mark.
pub open spec fn excerpt_text(s: Seq<char>) -> Seq<char> {
    if s.len() <= EXCERPT_LIMIT {
        s
    } else {
        s.take(EXCERPT_LIMIT as int) + "... (truncated)"@
    }
}

/// The excerpt of `text` kept in an error message (see `excerpt_text`).
pub fn excerpt(text: &str) -> (res: String)
    ensures
        res@ == excerpt_text(text@),
{
    let n = text.unicode_len();
    if n <= EXCERPT_LIMIT {
        text.to_owned()
    } else {
        let mut res = text.substring_char(0, EXCERPT_LIMIT).to_owned();
        res.append("... (truncated)");
        assert(text@.subrange(0, EXCERPT_LIMIT as int) =~= text@.take(EXCERPT_LIMIT as int));
        res
    }
}

/// The characters `String::from_utf8_lossy` makes of `bytes`.
pub uninterp spec fn lossy_utf8(bytes: Seq<u8>) -> Seq<char>;

/// Calls `String::from_utf8_lossy` and takes the result as an owned string.
/// Which characters stand for invalid sequences is not stated; that valid UTF-8 is decoded
/// unchanged is.
#[verifier::external_body]
pub fn utf8_lossy(bytes: &[u8]) -> (s: String)
    ensures
        s@ == lossy_utf8(bytes@),
        vstd::utf8::valid_utf8(bytes@) ==> s@ == vstd::utf8::decode_utf8(bytes@),
{
    String::from_utf8_lossy(bytes).into_owned()
}

/// An ASCII upper-case letter mapped to lower case; any other character unchanged.
pub open spec fn ascii_lower(c: char) -> char {
    if 'A' <= c && c <= 'Z' {
        ((c as u32) + 32) as char
    } else {
        c
    }
}

/// `char::to_ascii_lowercase`.
pub fn ascii_lowercase_char(c: char) -> (r: char)
    ensures
        r == ascii_lower(c),
{
    if 'A' <= c && c <= 'Z' {
        let code: u32 = (c as u32) + 32;
        assert(0x61 <= code <= 0x7a);
        char_from_ascii_code(code)
    } else {
        c
    }
}

/// The character with an ASCII code.
pub fn char_from_ascii_code(code: u32) -> (c: char)
    requires
        code < 128,
    ensures
        c == code as char,
{
    (code as u8) as char
}

/// `str::to_ascii_lowercase`.
pub fn ascii_lowercase(s: &str) -> (r: String)
    ensures
        r@ == s@.map_values(|c: char| ascii_lower(c)),
{
    broadcast use vstd::string::group_string_axioms;
    let mut r = String::new();
    for c in it: s.chars()
        invariant
            it.seq() == s@,
            r@ == s@.take(it.index() as int).map_values(|c: char| ascii_lower(c)),
    {
        let ghost before = r@;
        push_char(&mut r, ascii_lowercase_char(c));
        assert(s@.take(it.index() + 1) =~= s@.take(it.index() as int).push(c));
        assert(r@ =~= s@.take(it.index() + 1).map_values(|c: char| ascii_lower(c)));
    }
    assert(s@.take(s@.len() as int) =~= s@);
    r
}

/// Calls `String::push`, which appends one character.
#[verifier::external_body]
pub fn push_char(s: &mut String, c: char)
    ensures
        final(s)@ == old(s)@.push(c),
{
    s.push(c);
}

/// `str::eq_ignore_ascii_case`: equal once ASCII letters are folded to lower case.
pub open spec fn equal_ignoring_ascii_case(a: Seq<char>, b: Seq<char>) -> bool {
    a.map_values(|c: char| ascii_lower(c)) == b.map_values(|c: char| ascii_lower(c))
}

/// Folding an ASCII letter to lower case twice is folding it once.
pub proof fn lemma_ascii_lower_idempotent(c: char)
    ensures
        ascii_lower(ascii_lower(c)) == ascii_lower(c),
{
}

/// Comparing texts without regard to ASCII case is an equivalence: every text matches itself,
/// the order of the two texts does not matter, and matches chain.
pub proof fn law_ignoring_case_is_equivalence(a: Seq<char>, b: Seq<char>, c: Seq<char>)
    ensures
        equal_ignoring_ascii_case(a, a),
        equal_ignoring_ascii_case(a, b) == equal_ignoring_ascii_case(b, a),
        equal_ignoring_ascii_case(a, b) && equal_ignoring_ascii_case(b, c) ==> equal_ignoring_ascii_case(a, c),
{
}

/// A text matches its lower-case form and each text that differs from it only in the case of
/// ASCII letters; texts of different lengths never match.
pub proof fn law_ignoring_case_matches_case_variants(a: Seq<char>, b: Seq<char>)
    ensures
        equal_ignoring_ascii_case(a, a.map_values(|c: char| ascii_lower(c))),
        a.len() == b.len() && (forall|i: int| 0 <= i < a.len() ==> #[trigger] a[i] == b[i]
            || ascii_lower(a[i]) == ascii_lower(b[i])) ==> equal_ignoring_ascii_case(a, b),
        equal_ignoring_ascii_case(a, b) ==> a.len() == b.len(),
{
    let la = a.map_values(|c: char| ascii_lower(c));
    let lla = la.map_values(|c: char| ascii_lower(c));
    assert forall|i: int| 0 <= i < a.len() implies #[trigger] lla[i] == la[i] by {
        lemma_ascii_lower_idempotent(a[i]);
    }
    assert(lla =~= la);
    if a.len() == b.len() && (forall|i: int| 0 <= i < a.len() ==> #[trigger] a[i] == b[i]
        || ascii_lower(a[i]) == ascii_lower(b[i])) {
        assert(a.map_values(|c: char| ascii_lower(c)) =~= b.map_values(|c: char| ascii_lower(c)));
    }
    if equal_ignoring_ascii_case(a, b) {
        assert(a.map_values(|c: char| ascii_lower(c)).len() == b.map_values(|c: char| ascii_lower(c)).len());
    }
}

/// Whether `a` and `b` are equal once ASCII letters are folded to lower case.
pub fn eq_ignore_ascii_case(a: &str, b: &str) -> (r: bool)
    ensures
        r == equal_ignoring_ascii_case(a@, b@),
{
    let la = ascii_lowercase(a);
    let lb = ascii_lowercase(b);
    la == lb
}

/// Whether two texts are the same.
pub fn same_text(a: &str, b: &str) -> (r: bool)
    ensures
        r == (a@ == b@),
{
    a.to_owned() == b.to_owned()
}

} // verus!
