//! The mathematical model of password generation.
//!
//! A password is rendered from a corpus and a sequence of chosen indices:
//! each chosen word followed by the separator `'-'`, the first word with its
//! first letter capitalized, and a two-digit suffix at the end.  Which indices
//! are chosen is defined by [`select_rec`], a fold over the sequence of random
//! draws that mirrors the retry-bounded greedy accumulation policy.

use vstd::prelude::*;

verus! {

/// Errors that `generate` can report: an empty corpus, or a retry budget
/// exhausted before any word fit the length budget.
#[derive(Clone, Copy, Debug, PartialEq, Eq, Structural)]
pub enum GenerationError {
    CorpusEmpty,
    NoWordsFit,
}

/// A lowercase ASCII letter.
pub open spec fn is_lower_char(c: char) -> bool {
    'a' <= c <= 'z'
}

/// An uppercase ASCII letter.
pub open spec fn is_upper_char(c: char) -> bool {
    'A' <= c <= 'Z'
}

/// The uppercase form of a lowercase ASCII letter.
pub open spec fn upper_char(c: char) -> char
    recommends
        is_lower_char(c),
{
    (((c as u32) - 32) as u32) as char
}

/// A corpus word: non-empty, lowercase ASCII letters only.
pub open spec fn valid_word(w: Seq<char>) -> bool {
    &&& w.len() > 0
    &&& forall|j: int| 0 <= j < w.len() ==> is_lower_char(#[trigger] w[j])
}

/// Every word of the corpus is valid.
pub open spec fn valid_corpus(cv: Seq<Seq<char>>) -> bool {
    forall|i: int| 0 <= i < cv.len() ==> valid_word(#[trigger] cv[i])
}

/// The corpus as a sequence of character sequences.
pub open spec fn corpus_view(words: Seq<String>) -> Seq<Seq<char>> {
    words.map_values(|w: String| w@)
}

/// A word with its first letter capitalized and the rest unchanged.
pub open spec fn capitalize(w: Seq<char>) -> Seq<char>
    recommends
        w.len() > 0,
{
    seq![upper_char(w[0])] + w.skip(1)
}

/// The `k`-th word segment of a password: corpus word `i`, capitalized when it
/// is the first (`k == 0`), always followed by the separator.
pub open spec fn segment(cv: Seq<Seq<char>>, i: int, k: int) -> Seq<char> {
    (if k == 0 {
        capitalize(cv[i])
    } else {
        cv[i]
    }) + seq!['-']
}

/// The word part of the password built from the chosen indices `idxs`.
pub open spec fn render(cv: Seq<Seq<char>>, idxs: Seq<int>) -> Seq<char>
    decreases idxs.len(),
{
    if idxs.len() == 0 {
        Seq::empty()
    } else {
        render(cv, idxs.drop_last()) + segment(cv, idxs.last(), idxs.len() - 1)
    }
}

/// The decimal digit character for `d`.
pub open spec fn digit_char(d: int) -> char
    recommends
        0 <= d <= 9,
{
    ((48 + d) as u32) as char
}

/// A decimal digit character.
pub open spec fn is_digit_char(c: char) -> bool {
    '0' <= c <= '9'
}

/// The numeric value of a decimal digit character.
pub open spec fn digit_val(c: char) -> int {
    (c as u32) - 48
}

/// The two-digit, zero-padded rendering of the suffix value `n`.
pub open spec fn two_digits(n: int) -> Seq<char>
    recommends
        0 <= n <= 99,
{
    seq![digit_char(n / 10), digit_char(n % 10)]
}

/// The sequence of random draws as mathematical integers.
pub open spec fn draws_view(draws: Seq<usize>) -> Seq<int> {
    draws.map_values(|d: usize| d as int)
}

/// The selection policy, folded over the remaining random draws.
///
/// Each draw is an index into the corpus; `acc` holds the indices accepted so
/// far.  A draw is discarded (but consumed) when the word would not leave room
/// for the suffix within `max_len`, or when alliteration is required and its
/// first letter differs from the first accepted word's.  Accumulation stops as
/// soon as `max_words` words are placed or the remaining budget drops to four
/// characters or fewer; two characters of the budget are always reserved for
/// the suffix.
pub open spec fn select_rec(
    cv: Seq<Seq<char>>,
    draws: Seq<int>,
    max_len: int,
    max_words: int,
    alliterate: bool,
    acc: Seq<int>,
) -> Seq<int>
    decreases draws.len(),
{
    if draws.len() == 0 {
        acc
    } else {
        let i = draws[0];
        let w = cv[i];
        if render(cv, acc).len() + w.len() + 3 > max_len {
            select_rec(cv, draws.drop_first(), max_len, max_words, alliterate, acc)
        } else if acc.len() > 0 && alliterate && w[0] != cv[acc[0]][0] {
            select_rec(cv, draws.drop_first(), max_len, max_words, alliterate, acc)
        } else {
            let acc2 = acc.push(i);
            if acc2.len() >= max_words || max_len - render(cv, acc2).len() <= 4 {
                acc2
            } else {
                select_rec(cv, draws.drop_first(), max_len, max_words, alliterate, acc2)
            }
        }
    }
}

/// The indices chosen for a given sequence of draws, starting from nothing.
pub open spec fn chosen(
    cv: Seq<Seq<char>>,
    draws: Seq<int>,
    max_len: int,
    max_words: int,
    alliterate: bool,
) -> Seq<int> {
    select_rec(cv, draws, max_len, max_words, alliterate, Seq::empty())
}

/// What `generate` returns, as a function of the corpus, the word draws and
/// the suffix draw: the rendered chosen words followed by the two-digit
/// suffix, or an error when the corpus is empty or no drawn word ever fit.
pub open spec fn spec_generate(
    cv: Seq<Seq<char>>,
    draws: Seq<int>,
    max_len: int,
    max_words: int,
    alliterate: bool,
    suffix: int,
) -> Result<Seq<char>, GenerationError> {
    if cv.len() == 0 {
        Err(GenerationError::CorpusEmpty)
    } else {
        let idxs = chosen(cv, draws, max_len, max_words, alliterate);
        if idxs.len() == 0 {
            Err(GenerationError::NoWordsFit)
        } else {
            Ok(render(cv, idxs) + two_digits(suffix))
        }
    }
}

/// Whether `r` is the outcome of the generation policy for some admissible
/// randomness: a sequence of exactly `tries` corpus indices and a suffix draw
/// in `[1, 99]`.  Whatever the random source returns, a generator that draws
/// `tries` words and one suffix can only produce such an `r`.
pub open spec fn generated_from(
    cv: Seq<Seq<char>>,
    r: Result<Seq<char>, GenerationError>,
    max_len: int,
    max_words: int,
    alliterate: bool,
    tries: int,
) -> bool {
    exists|ds: Seq<int>, sfx: int|
        #![trigger spec_generate(cv, ds, max_len, max_words, alliterate, sfx)]
        {
            &&& ds.len() == tries
            &&& (forall|k: int| 0 <= k < ds.len() ==> 0 <= #[trigger] ds[k] < cv.len())
            &&& 1 <= sfx <= 99
            &&& spec_generate(cv, ds, max_len, max_words, alliterate, sfx) == r
        }
}

/// A well-formed selection of corpus indices: at least one word and at most
/// `max_words`, every index in range, room left for the two-digit suffix, and
/// a shared first letter when alliteration is required.
pub open spec fn is_selection(
    cv: Seq<Seq<char>>,
    idxs: Seq<int>,
    max_len: int,
    max_words: int,
    alliterate: bool,
) -> bool {
    &&& 1 <= idxs.len() <= max_words
    &&& forall|k: int| 0 <= k < idxs.len() ==> 0 <= #[trigger] idxs[k] < cv.len()
    &&& render(cv, idxs).len() + 2 <= max_len
    &&& (alliterate ==> forall|k: int|
        0 <= k < idxs.len() ==> cv[#[trigger] idxs[k]][0] == cv[idxs[0]][0])
}

/// What every successfully generated password looks like: some well-formed
/// selection rendered and followed by a two-digit suffix in `[1, 99]`.
pub open spec fn password_ok(
    p: Seq<char>,
    cv: Seq<Seq<char>>,
    max_len: int,
    max_words: int,
    alliterate: bool,
) -> bool {
    exists|idxs: Seq<int>, suffix: int|
        #![trigger render(cv, idxs), two_digits(suffix)]
        {
            &&& is_selection(cv, idxs, max_len, max_words, alliterate)
            &&& 1 <= suffix <= 99
            &&& p == render(cv, idxs) + two_digits(suffix)
        }
}

} // verus!
