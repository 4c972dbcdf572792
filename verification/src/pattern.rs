//! The two patterns of the library and the calls into the `regex` crate that compile
//! and run them. The contracts of these calls are not proved: they state what the
//! verified code takes from the `regex` crate on trust.

use regex::Regex;
use vstd::prelude::*;

use crate::script::{contains_persian, persian_count, reads_as_persian};

verus! {

/// Matches one character of the Persian/Arabic block, wherever it stands: a class
/// of the code points U+0600 to U+06FF.
pub const PERSIAN_CHAR_PATTERN: &'static str = r"[\u0600-\u06FF]";

/// Matches a text that begins with a character of the Persian/Arabic block, or that
/// ends in a run of one or more punctuation characters. `[[:punct:]]` is the class of
/// ASCII punctuation; `^` and `$` stand for the start and the end of the whole text.
pub const PERSIAN_STR_PATTERN: &'static str = r"^[\u0600-\u06FF]|[[:punct:]]+$";

/// `regex::Regex`, a compiled pattern. What is inside stays out of sight; all that is
/// said of a value is which pattern it was built from.
#[verifier::external_type_specification]
#[verifier::external_body]
pub struct ExRegex(Regex);

/// The pattern that a compiled matcher was built from, as `Regex::as_str` returns it.
pub uninterp spec fn regex_pattern(re: Regex) -> Seq<char>;

/// `regex::Regex::new`: compiles `pattern`. A matcher that comes back was built from
/// `pattern`. The two patterns of this library are well-formed and far below the
/// default size limit, so for them a matcher does come back; of any other pattern
/// nothing is claimed.
#[verifier::external_body]
pub(crate) fn regex_compile(pattern: &str) -> (re: Option<Regex>)
    ensures
        re matches Some(m) ==> regex_pattern(m) == pattern@,
        pattern@ == PERSIAN_CHAR_PATTERN@ || pattern@ == PERSIAN_STR_PATTERN@ ==> re is Some,
{
    Regex::new(pattern).ok()
}

/// `regex::Regex::is_match`: whether the pattern matches anywhere in `text`.
/// For [`PERSIAN_CHAR_PATTERN`], a class of one character, that is whether some
/// character of `text` lies in the block. For [`PERSIAN_STR_PATTERN`], whose first
/// branch is anchored at the start and whose second at the end, that is whether the
/// first character lies in the block or the last one is ASCII punctuation.
#[verifier::external_body]
pub(crate) fn regex_is_match(re: &Regex, text: &str) -> (found: bool)
    ensures
        regex_pattern(*re) == PERSIAN_CHAR_PATTERN@ ==> found == contains_persian(text@),
        regex_pattern(*re) == PERSIAN_STR_PATTERN@ ==> found == reads_as_persian(text@),
{
    re.is_match(text)
}

/// `regex::Regex::captures_iter`, counted: the number of successive non-overlapping
/// matches in `text`. For [`PERSIAN_CHAR_PATTERN`] every match is one character, so
/// that is the number of characters of `text` that lie in the block.
#[verifier::external_body]
pub(crate) fn regex_count_matches(re: &Regex, text: &str) -> (n: usize)
    ensures
        regex_pattern(*re) == PERSIAN_CHAR_PATTERN@ ==> n == persian_count(text@),
{
    re.captures_iter(text).count()
}

} // verus!
