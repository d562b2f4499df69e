//! What this crate takes from other crates and from the standard library
//! without proof.
//!
//! Each function here only hands its arguments to the function it is named
//! after and the result back, and its contract says what the documentation
//! of that function says. Nothing in this module is verified.

use nom::{AsChar, InputIter};
use regex::{Error as RegexError, Regex};
use vstd::prelude::*;

verus! {

/// A compiled regular expression of the `regex` crate.
#[verifier::external_type_specification]
#[verifier::external_body]
pub struct ExRegex(regex::Regex);

/// The reason for which the `regex` crate refused a pattern.
#[verifier::external_type_specification]
#[verifier::external_body]
pub struct ExRegexError(RegexError);

/// Whether `regex::Regex::new` accepts the given pattern: whether it is
/// well-formed and compiles within the default size limit.
pub uninterp spec fn regex_accepts(pattern: Seq<char>) -> bool;

/// The pattern that the given regular expression was compiled from: what
/// `regex::Regex::as_str` returns for it.
pub uninterp spec fn regex_source(regex: Regex) -> Seq<char>;

/// `nom::InputIter::iter_elements` on a string slice, each element taken
/// through `nom::AsChar::as_char`: the characters of the text, in order.
#[verifier::external_body]
pub(crate) fn elements(text: &str) -> (chars: Vec<char>)
    ensures
        chars@ == text@,
{
    text.iter_elements().map(AsChar::as_char).collect()
}

/// `regex::Regex::new`: compiles the pattern, or says why it cannot. A
/// pattern either is accepted or is not, and the compiled expression keeps
/// the pattern it was made from.
#[verifier::external_body]
pub(crate) fn compile(pattern: &str) -> (compiled: Result<Regex, RegexError>)
    ensures
        compiled is Ok == regex_accepts(pattern@),
        compiled matches Ok(regex) ==> regex_source(regex) == pattern@,
{
    Regex::new(pattern)
}

/// `String::push`: appends the character to the end of the text.
#[verifier::external_body]
pub(crate) fn push_char(text: &mut String, c: char)
    ensures
        final(text)@ == old(text)@.push(c),
{
    text.push(c)
}

} // verus!
