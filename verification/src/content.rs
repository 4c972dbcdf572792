//! The three questions as methods of the text itself.

use vstd::prelude::*;

use crate::matcher::{PersianCharMatcher, PersianStrMatcher};
use crate::script::{alphabetic_part, contains_persian, persian_share, reads_as_persian};

verus! {

/// Set of helpers for telling how Persian a text is. Anything that can be read as a
/// sequence of characters can have them: an implementation says how, in
/// [`text`](PersianContent::text) and [`as_text`](PersianContent::as_text), and the
/// three questions come with it.
///
/// Each question compiles the matcher it needs. To classify many texts, build a
/// [`PersianCharMatcher`] or a [`PersianStrMatcher`] once and ask it instead.
pub trait PersianContent {
    /// The characters of the text.
    spec fn text(&self) -> Seq<char>;

    /// Lends the text as a string slice.
    fn as_text(&self) -> (text: &str)
        ensures
            text@ == self.text(),
    ;

    /// Checks if the text has at least one Persian character in it.
    fn has_persian_char(&self) -> (found: bool)
        ensures
            found == contains_persian(self.text()),
    {
        PersianCharMatcher::new().has_persian_char(self.as_text())
    }

    /// Checks if the text is in Persian, judging by its alphabetic characters alone.
    fn is_persian_str(&self) -> (persian: bool)
        ensures
            persian == reads_as_persian(alphabetic_part(self.text())),
    {
        PersianStrMatcher::new().is_persian_str(self.as_text())
    }

    /// Calculates how much of the text is in the Persian alphabet, in percent.
    /// Digits and other characters that are not alphabetic do not count.
    fn persian_percentage(&self) -> (percent: u8)
        ensures
            percent == persian_share(self.text()),
            percent <= 100,
    {
        PersianCharMatcher::new().persian_percentage(self.as_text())
    }
}

impl PersianContent for str {
    open spec fn text(&self) -> Seq<char> {
        self@
    }

    fn as_text(&self) -> (text: &str) {
        self
    }
}

impl PersianContent for String {
    open spec fn text(&self) -> Seq<char> {
        self@
    }

    fn as_text(&self) -> (text: &str) {
        self.as_str()
    }
}

} // verus!
