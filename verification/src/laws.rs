//! What holds of the three classifications whatever the text.

use vstd::prelude::*;

use crate::script::{
    alphabetic, alphabetic_part, contains_persian, in_persian_block, persian_count,
    persian_share, reads_as_persian, share_percent,
};

verus! {

/// A filter keeps a sequence whole where the predicate holds of each of its items.
proof fn lemma_filter_keeps_all<A>(s: Seq<A>, pred: spec_fn(A) -> bool)
    requires
        forall|i: int| 0 <= i < s.len() ==> pred(#[trigger] s[i]),
    ensures
        s.filter(pred) == s,
    decreases s.len(),
{
    reveal(Seq::filter);
    if s.len() > 0 {
        lemma_filter_keeps_all(s.drop_last(), pred);
        assert(s.drop_last().push(s.last()) =~= s);
    }
}

/// A filter leaves nothing where the predicate holds of none of the items.
proof fn lemma_filter_keeps_none<A>(s: Seq<A>, pred: spec_fn(A) -> bool)
    requires
        forall|i: int| 0 <= i < s.len() ==> !pred(#[trigger] s[i]),
    ensures
        s.filter(pred).len() == 0,
    decreases s.len(),
{
    reveal(Seq::filter);
    if s.len() > 0 {
        lemma_filter_keeps_none(s.drop_last(), pred);
    }
}

/// Whatever a filter keeps was in the sequence and meets the predicate.
proof fn lemma_filter_keeps_members<A>(s: Seq<A>, pred: spec_fn(A) -> bool)
    ensures
        forall|k: int|
            0 <= k < s.filter(pred).len() ==> pred(#[trigger] s.filter(pred)[k]) && exists|i: int|
                0 <= i < s.len() && s[i] == s.filter(pred)[k],
    decreases s.len(),
{
    reveal(Seq::filter);
    if s.len() > 0 {
        let front = s.drop_last();
        lemma_filter_keeps_members(front, pred);
        assert forall|k: int| 0 <= k < s.filter(pred).len() implies pred(
            #[trigger] s.filter(pred)[k],
        ) && exists|i: int| 0 <= i < s.len() && s[i] == s.filter(pred)[k] by {
            if k < front.filter(pred).len() {
                assert(s.filter(pred)[k] == front.filter(pred)[k]);
                let i = choose|i: int| 0 <= i < front.len() && front[i] == front.filter(pred)[k];
                assert(s[i] == s.filter(pred)[k]);
            } else {
                assert(s[s.len() - 1] == s.filter(pred)[k]);
            }
        }
    }
}

/// The percentage never leaves the range from 0 to 100, whatever the text.
pub proof fn lemma_share_in_range(text: Seq<char>)
    ensures
        0 <= persian_share(text) <= 100,
{
    let letters = alphabetic_part(text);
    let persian = persian_count(letters);
    letters.lemma_filter_len(|c: char| in_persian_block(c));
    if letters.len() > 0 {
        assert(persian * 100 / letters.len() <= 100) by (nonlinear_arith)
            requires
                persian <= letters.len(),
                letters.len() > 0,
        ;
    }
}

/// The percentage is the exact ratio rounded down: it is the largest whole number
/// that, times the number of alphabetic characters, does not exceed a hundred times
/// the number of Persian ones.
pub proof fn lemma_share_rounds_down(text: Seq<char>)
    requires
        alphabetic_part(text).len() > 0,
    ensures
        persian_share(text) * alphabetic_part(text).len() <= persian_count(alphabetic_part(text))
            * 100,
        persian_count(alphabetic_part(text)) * 100 < (persian_share(text) + 1) * alphabetic_part(
            text,
        ).len(),
{
    let total = alphabetic_part(text).len();
    let persian = persian_count(alphabetic_part(text));
    let share = persian * 100 / total;
    assert(share * total <= persian * 100 < (share + 1) * total) by (nonlinear_arith)
        requires
            total > 0,
            share == persian * 100 / total,
    ;
}

/// The empty text is fully Persian by convention, holds no Persian character and
/// does not read as Persian.
pub proof fn lemma_empty_text()
    ensures
        persian_share(Seq::<char>::empty()) == 100,
        !contains_persian(Seq::<char>::empty()),
        !reads_as_persian(alphabetic_part(Seq::<char>::empty())),
{
    lemma_filter_keeps_none(Seq::<char>::empty(), |c: char| alphabetic(c));
}

/// Where every alphabetic character of a text lies in the Persian/Arabic block, the
/// percentage is 100.
pub proof fn lemma_all_letters_persian(text: Seq<char>)
    requires
        forall|i: int|
            0 <= i < text.len() && alphabetic(#[trigger] text[i]) ==> in_persian_block(text[i]),
    ensures
        persian_share(text) == 100,
{
    let letters = alphabetic_part(text);
    lemma_filter_keeps_members(text, |c: char| alphabetic(c));
    assert forall|k: int| 0 <= k < letters.len() implies in_persian_block(
        #[trigger] letters[k],
    ) by {
        let i = choose|i: int| 0 <= i < text.len() && text[i] == letters[k];
        assert(alphabetic(text[i]));
    }
    lemma_filter_keeps_all(letters, |c: char| in_persian_block(c));
    if letters.len() > 0 {
        assert(letters.len() * 100 / letters.len() == 100) by (nonlinear_arith)
            requires
                letters.len() > 0,
        ;
    }
}

/// A text without any alphabetic character (digits, punctuation, emoji) has nothing
/// left once it is filtered: it is fully Persian by convention, and does not read as
/// Persian.
pub proof fn lemma_no_letters(text: Seq<char>)
    requires
        forall|i: int| 0 <= i < text.len() ==> !alphabetic(#[trigger] text[i]),
    ensures
        alphabetic_part(text).len() == 0,
        persian_share(text) == 100,
        !reads_as_persian(alphabetic_part(text)),
{
    lemma_filter_keeps_none(text, |c: char| alphabetic(c));
}

/// A text of digits, punctuation and emoji that all stand outside the Persian/Arabic
/// block is fully Persian by convention, and yet holds no Persian character. The block
/// has digits and marks of its own, such as the Arabic comma: a text that holds one of
/// them does hold a Persian character, alphabetic or not.
pub proof fn lemma_no_letters_outside_block(text: Seq<char>)
    requires
        forall|i: int| 0 <= i < text.len() ==> !alphabetic(#[trigger] text[i]),
        forall|i: int| 0 <= i < text.len() ==> !in_persian_block(#[trigger] text[i]),
    ensures
        persian_share(text) == 100,
        !contains_persian(text),
{
    lemma_no_letters(text);
}

/// One Persian character among 21 alphabetic ones makes 4 percent, not 5: the
/// percentage is rounded down.
pub proof fn lemma_one_in_twenty_one(text: Seq<char>)
    requires
        alphabetic_part(text).len() == 21,
        persian_count(alphabetic_part(text)) == 1,
    ensures
        persian_share(text) == 4,
{
    assert(share_percent(1, 21) == 4);
}

} // verus!
