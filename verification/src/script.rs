//! Character classes, the filtered text, and the mathematical model of the three
//! classifications.

use vstd::prelude::*;

verus! {

/// First code point of the Arabic Unicode block, in which Persian is written.
pub const PERSIAN_BLOCK_FIRST: u32 = 0x0600;

/// Last code point of the Arabic Unicode block.
pub const PERSIAN_BLOCK_LAST: u32 = 0x06FF;

/// Whether `c` lies in the Persian/Arabic block, U+0600 to U+06FF. The block is
/// shared by Persian, Arabic and other languages of Arabic-derived script, and holds
/// digits and marks besides letters.
pub open spec fn in_persian_block(c: char) -> bool {
    PERSIAN_BLOCK_FIRST <= c as u32 <= PERSIAN_BLOCK_LAST
}

/// Whether `c` is one of the ASCII punctuation characters: `!` to `/`, `:` to `@`,
/// `[` to `` ` `` and `{` to `~`.
pub open spec fn is_punctuation(c: char) -> bool {
    let n = c as u32;
    0x21 <= n <= 0x2F || 0x3A <= n <= 0x40 || 0x5B <= n <= 0x60 || 0x7B <= n <= 0x7E
}

/// Whether `c` has the Unicode `Alphabetic` property, as `char::is_alphabetic` tells it.
pub uninterp spec fn alphabetic(c: char) -> bool;

/// `char::is_alphabetic`: the answer depends on the character alone, so it is given the
/// name [`alphabetic`]; nothing is claimed about which characters are alphabetic.
pub assume_specification[ char::is_alphabetic ](c: char) -> (b: bool)
    ensures
        b == alphabetic(c),
;

/// `String::push`: appends one character at the end of the string.
pub assume_specification[ String::push ](s: &mut String, c: char)
    ensures
        final(s)@ == old(s)@.push(c),
;

/// The filtered text: the characters of `text` that are alphabetic, in the order in
/// which they stand in `text`.
pub open spec fn alphabetic_part(text: Seq<char>) -> Seq<char> {
    text.filter(|c: char| alphabetic(c))
}

/// Whether some character of `text` lies in the Persian/Arabic block.
pub open spec fn contains_persian(text: Seq<char>) -> bool {
    exists|i: int| 0 <= i < text.len() && in_persian_block(#[trigger] text[i])
}

/// How many characters of `text` lie in the Persian/Arabic block.
pub open spec fn persian_count(text: Seq<char>) -> nat {
    text.filter(|c: char| in_persian_block(c)).len()
}

/// Whether `text` begins with a character of the Persian/Arabic block or ends in
/// punctuation. The empty text does neither.
pub open spec fn reads_as_persian(text: Seq<char>) -> bool {
    text.len() > 0 && (in_persian_block(text.first()) || is_punctuation(text.last()))
}

/// The share of `persian` in `total`, as a whole percentage rounded down. Where there
/// is nothing to take a share of, the share is 100.
pub open spec fn share_percent(persian: nat, total: nat) -> nat {
    if total == 0 {
        100
    } else {
        persian * 100 / total
    }
}

/// The percentage of the alphabetic characters of `text` that lie in the
/// Persian/Arabic block.
pub open spec fn persian_share(text: Seq<char>) -> nat {
    let letters = alphabetic_part(text);
    share_percent(persian_count(letters), letters.len())
}

/// Filtering a sequence that ends in `x` filters what comes before it, and keeps `x`
/// where the predicate holds of it.
proof fn lemma_filter_push<A>(s: Seq<A>, pred: spec_fn(A) -> bool, x: A)
    ensures
        s.push(x).filter(pred) == if pred(x) {
            s.filter(pred).push(x)
        } else {
            s.filter(pred)
        },
{
    reveal(Seq::filter);
    assert(s.push(x).drop_last() =~= s);
}

/// Copies the alphabetic characters of `text`, dropping digits, whitespace,
/// punctuation, symbols and everything else that is not alphabetic.
pub fn keep_alphabetic(text: &str) -> (kept: String)
    ensures
        kept@ == alphabetic_part(text@),
{
    let mut kept = String::new();
    for c in it: text.chars()
        invariant
            it.seq() == text@,
            kept@ == alphabetic_part(it.seq().take(it.index())),
    {
        proof {
            let seen = it.seq().take(it.index());
            assert(it.seq().take(it.index() + 1) =~= seen.push(c));
            lemma_filter_push(seen, |c: char| alphabetic(c), c);
        }
        if c.is_alphabetic() {
            kept.push(c);
        }
    }
    proof {
        assert(text@.take(text@.len() as int) =~= text@);
    }
    kept
}

} // verus!
