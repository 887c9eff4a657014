//! Normalisation of the lines a user types: surrounding white space is
//! removed and the rest is lowercased.
use vstd::prelude::*;

verus! {

/// The Unicode `White_Space` property, which `char::is_whitespace` follows.
pub open spec fn is_white_space(c: char) -> bool {
    ('\u{9}' <= c && c <= '\u{d}') || c == ' ' || c == '\u{85}' || c == '\u{a0}'
        || c == '\u{1680}' || ('\u{2000}' <= c && c <= '\u{200a}') || c == '\u{2028}'
        || c == '\u{2029}' || c == '\u{202f}' || c == '\u{205f}' || c == '\u{3000}'
}

/// `s` without its leading white space.
pub open spec fn trim_start_spec(s: Seq<char>) -> Seq<char>
    decreases s.len(),
{
    if s.len() > 0 && is_white_space(s[0]) {
        trim_start_spec(s.drop_first())
    } else {
        s
    }
}

/// `s` without its trailing white space.
pub open spec fn trim_end_spec(s: Seq<char>) -> Seq<char>
    decreases s.len(),
{
    if s.len() > 0 && is_white_space(s.last()) {
        trim_end_spec(s.drop_last())
    } else {
        s
    }
}

/// `s` without white space at either end.
pub open spec fn trim_spec(s: Seq<char>) -> Seq<char> {
    trim_end_spec(trim_start_spec(s))
}

/// The Unicode lowercase mapping of a string, as `str::to_lowercase` computes it.
pub uninterp spec fn lower_of(s: Seq<char>) -> Seq<char>;

/// The form under which a typed line is compared: trimmed, then lowercased.
pub open spec fn normalized(line: Seq<char>) -> Seq<char> {
    lower_of(trim_spec(line))
}

/// The quit sentinel, `q`.
pub open spec fn quit_token() -> Seq<char> {
    seq!['q']
}

/// Relies on `str::trim`: removes leading and trailing characters with the
/// Unicode `White_Space` property, and nothing else.
#[verifier::external_body]
fn trim_str(s: &str) -> (r: &str)
    ensures
        r@ == trim_spec(s@),
{
    s.trim()
}

/// Relies on `str::to_lowercase`: the result depends on the characters alone.
#[verifier::external_body]
fn lowercase(s: &str) -> (r: String)
    ensures
        r@ == lower_of(s@),
{
    s.to_lowercase()
}

/// A typed line in the form used for menu choices and expense names.
pub fn normalize(line: &str) -> (r: String)
    ensures
        r@ == normalized(line@),
{
    let t = trim_str(line);
    lowercase(t)
}

/// Whether `s` holds exactly the text `lit`.
pub fn is_text(s: &String, lit: &str) -> (r: bool)
    ensures
        r == (s@ == lit@),
{
    let t: String = lit.to_owned();
    *s == t
}

/// Whether a normalised line is the quit sentinel.
pub fn is_quit(s: &String) -> (r: bool)
    ensures
        r == (s@ == quit_token()),
{
    proof {
        reveal_strlit("q");
        assert("q"@ =~= quit_token());
    }
    is_text(s, "q")
}

} // verus!
