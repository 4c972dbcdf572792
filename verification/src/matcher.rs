//! The two matchers: each a pattern compiled once, with the questions it answers.

use regex::Regex;
use vstd::prelude::*;

use crate::pattern::{
    regex_compile, regex_count_matches, regex_is_match, regex_pattern, PERSIAN_CHAR_PATTERN,
    PERSIAN_STR_PATTERN,
};
use crate::script::{
    alphabetic_part, contains_persian, in_persian_block, keep_alphabetic, persian_count,
    persian_share, reads_as_persian, share_percent,
};

verus! {

/// Computes [`share_percent`] for a count that is part of a total.
pub fn percentage_of(persian: usize, total: usize) -> (percent: u8)
    requires
        persian <= total,
    ensures
        percent == share_percent(persian as nat, total as nat),
        percent <= 100,
{
    if total == 0 {
        return 100;
    }
    let scaled: u128 = persian as u128 * 100;
    let percent: u128 = scaled / (total as u128);
    assert(percent <= 100) by (nonlinear_arith)
        requires
            percent == (persian * 100) / (total as int),
            persian <= total,
            total > 0,
    ;
    percent as u8
}

/// Finds single characters of the Persian/Arabic block. Compiled once, a matcher is
/// read-only and can serve any number of calls, from any number of threads.
pub struct PersianCharMatcher {
    re: Regex,
}

impl PersianCharMatcher {
    /// The matcher was built from [`PERSIAN_CHAR_PATTERN`].
    #[verifier::type_invariant]
    spec fn built_from_char_pattern(&self) -> bool {
        regex_pattern(self.re) == PERSIAN_CHAR_PATTERN@
    }

    /// The pattern that the matcher was built from.
    pub closed spec fn pattern(&self) -> Seq<char> {
        regex_pattern(self.re)
    }

    /// Compiles [`PERSIAN_CHAR_PATTERN`].
    pub fn new() -> (matcher: PersianCharMatcher)
        ensures
            matcher.pattern() == PERSIAN_CHAR_PATTERN@,
    {
        match regex_compile(PERSIAN_CHAR_PATTERN) {
            Some(re) => PersianCharMatcher { re },
            // The pattern is well-formed: compiling it does not fail.
            None => vstd::pervasive::unreached(),
        }
    }

    /// Whether at least one character of `text` lies in the Persian/Arabic block.
    /// The text is taken as it is: nothing is filtered out of it first.
    pub fn has_persian_char(&self, text: &str) -> (found: bool)
        ensures
            found == contains_persian(text@),
    {
        proof {
            use_type_invariant(self);
        }
        regex_is_match(&self.re, text)
    }

    /// How many characters of `text` lie in the Persian/Arabic block.
    pub fn count_persian(&self, text: &str) -> (n: usize)
        ensures
            n == persian_count(text@),
    {
        proof {
            use_type_invariant(self);
        }
        regex_count_matches(&self.re, text)
    }

    /// The percentage of the alphabetic characters of `text` that lie in the
    /// Persian/Arabic block, rounded down; 100 where `text` has no alphabetic
    /// character at all.
    pub fn persian_percentage(&self, text: &str) -> (percent: u8)
        ensures
            percent == persian_share(text@),
            percent <= 100,
    {
        let letters = keep_alphabetic(text);
        let total = letters.as_str().unicode_len();
        if total == 0 {
            return 100;
        }
        let persian = self.count_persian(letters.as_str());
        proof {
            letters@.lemma_filter_len(|c: char| in_persian_block(c));
        }
        percentage_of(persian, total)
    }
}

/// Tells whether a text, reduced to its alphabetic characters, begins with a
/// character of the Persian/Arabic block or ends in punctuation. Compiled once, a
/// matcher is read-only and can serve any number of calls, from any number of threads.
pub struct PersianStrMatcher {
    re: Regex,
}

impl PersianStrMatcher {
    /// The matcher was built from [`PERSIAN_STR_PATTERN`].
    #[verifier::type_invariant]
    spec fn built_from_str_pattern(&self) -> bool {
        regex_pattern(self.re) == PERSIAN_STR_PATTERN@
    }

    /// The pattern that the matcher was built from.
    pub closed spec fn pattern(&self) -> Seq<char> {
        regex_pattern(self.re)
    }

    /// Compiles [`PERSIAN_STR_PATTERN`].
    pub fn new() -> (matcher: PersianStrMatcher)
        ensures
            matcher.pattern() == PERSIAN_STR_PATTERN@,
    {
        match regex_compile(PERSIAN_STR_PATTERN) {
            Some(re) => PersianStrMatcher { re },
            // The pattern is well-formed: compiling it does not fail.
            None => vstd::pervasive::unreached(),
        }
    }

    /// Whether `letters` begins with a character of the Persian/Arabic block or ends
    /// in punctuation. Nothing is filtered out of `letters` first.
    pub fn is_match(&self, letters: &str) -> (found: bool)
        ensures
            found == reads_as_persian(letters@),
    {
        proof {
            use_type_invariant(self);
        }
        regex_is_match(&self.re, letters)
    }

    /// Whether `text` reads as Persian: whether its alphabetic characters, taken
    /// alone, begin with one of the Persian/Arabic block or end in punctuation.
    pub fn is_persian_str(&self, text: &str) -> (persian: bool)
        ensures
            persian == reads_as_persian(alphabetic_part(text@)),
    {
        let letters = keep_alphabetic(text);
        self.is_match(letters.as_str())
    }
}

} // verus!
