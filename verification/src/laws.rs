//! The laws of the generator, proved of the model: every password respects
//! the length budget, is made of corpus words with the first capitalized,
//! keeps alliteration when asked, carries a two-digit suffix in `[1, 99]`,
//! stays within the word count, and an impossible corpus yields an error.

use crate::generator::MIN_LENGTH;
use crate::model::{
    capitalize, chosen, digit_char, digit_val, is_digit_char, is_selection, is_upper_char,
    password_ok, render, segment, select_rec, spec_generate, two_digits, upper_char,
    valid_corpus, GenerationError,
};
use vstd::prelude::*;

verus! {

/// Inputs on which generation is specified: a valid corpus, a length budget
/// of at least [`MIN_LENGTH`], a positive word bound, draws that index the
/// corpus, and a suffix draw in `[1, 99]`.
pub open spec fn valid_inputs(
    cv: Seq<Seq<char>>,
    draws: Seq<int>,
    max_len: int,
    max_words: int,
    suffix: int,
) -> bool {
    &&& valid_corpus(cv)
    &&& max_len >= MIN_LENGTH
    &&& max_words >= 1
    &&& forall|k: int| 0 <= k < draws.len() ==> 0 <= #[trigger] draws[k] < cv.len()
    &&& 1 <= suffix <= 99
}

/// The selection policy preserves, from any reachable accumulator, every
/// invariant that [`is_selection`] asks of the final choice.
proof fn lemma_select_rec_props(
    cv: Seq<Seq<char>>,
    draws: Seq<int>,
    max_len: int,
    max_words: int,
    alliterate: bool,
    acc: Seq<int>,
)
    requires
        valid_corpus(cv),
        forall|k: int| 0 <= k < draws.len() ==> 0 <= #[trigger] draws[k] < cv.len(),
        max_words >= 1,
        forall|k: int| 0 <= k < acc.len() ==> 0 <= #[trigger] acc[k] < cv.len(),
        alliterate ==> forall|k: int|
            0 <= k < acc.len() ==> cv[#[trigger] acc[k]][0] == cv[acc[0]][0],
        acc.len() < max_words,
        render(cv, acc).len() + 4 < max_len,
    ensures
        ({
            let res = select_rec(cv, draws, max_len, max_words, alliterate, acc);
            &&& acc.len() <= res.len() <= max_words
            &&& forall|k: int| 0 <= k < res.len() ==> 0 <= #[trigger] res[k] < cv.len()
            &&& render(cv, res).len() + 2 <= max_len
            &&& (alliterate ==> forall|k: int|
                0 <= k < res.len() ==> cv[#[trigger] res[k]][0] == cv[res[0]][0])
        }),
    decreases draws.len(),
{
    if draws.len() == 0 {
    } else {
        let i = draws[0];
        let w = cv[i];
        assert(crate::model::valid_word(w));
        if render(cv, acc).len() + w.len() + 3 > max_len {
            lemma_select_rec_props(cv, draws.drop_first(), max_len, max_words, alliterate, acc);
        } else if acc.len() > 0 && alliterate && w[0] != cv[acc[0]][0] {
            lemma_select_rec_props(cv, draws.drop_first(), max_len, max_words, alliterate, acc);
        } else {
            let acc2 = acc.push(i);
            assert(acc2.drop_last() =~= acc);
            assert(render(cv, acc2) == render(cv, acc) + segment(cv, i, acc.len() as int));
            assert(capitalize(w).len() == w.len());
            assert(acc2[0] == if acc.len() == 0 { i } else { acc[0] });
            if !(acc2.len() >= max_words || max_len - render(cv, acc2).len() <= 4) {
                lemma_select_rec_props(
                    cv,
                    draws.drop_first(),
                    max_len,
                    max_words,
                    alliterate,
                    acc2,
                );
            }
        }
    }
}

/// A non-empty choice made by the policy is a well-formed selection.
pub proof fn lemma_chosen_is_selection(
    cv: Seq<Seq<char>>,
    draws: Seq<int>,
    max_len: int,
    max_words: int,
    alliterate: bool,
)
    requires
        valid_corpus(cv),
        forall|k: int| 0 <= k < draws.len() ==> 0 <= #[trigger] draws[k] < cv.len(),
        max_words >= 1,
        max_len >= MIN_LENGTH,
    ensures
        ({
            let idxs = chosen(cv, draws, max_len, max_words, alliterate);
            idxs.len() > 0 ==> is_selection(cv, idxs, max_len, max_words, alliterate)
        }),
{
    assert(render(cv, Seq::<int>::empty()) =~= Seq::<char>::empty());
    lemma_select_rec_props(cv, draws, max_len, max_words, alliterate, Seq::empty());
}

/// Witness introduction for [`password_ok`].
pub proof fn lemma_password_ok_intro(
    p: Seq<char>,
    cv: Seq<Seq<char>>,
    max_len: int,
    max_words: int,
    alliterate: bool,
    idxs: Seq<int>,
    suffix: int,
)
    requires
        is_selection(cv, idxs, max_len, max_words, alliterate),
        1 <= suffix <= 99,
        p == render(cv, idxs) + two_digits(suffix),
    ensures
        password_ok(p, cv, max_len, max_words, alliterate),
{
}

/// Length bound: every generated password fits the length budget.
pub proof fn lemma_length_bound(
    cv: Seq<Seq<char>>,
    draws: Seq<int>,
    max_len: int,
    max_words: int,
    alliterate: bool,
    suffix: int,
)
    requires
        valid_inputs(cv, draws, max_len, max_words, suffix),
    ensures
        spec_generate(cv, draws, max_len, max_words, alliterate, suffix) matches Ok(p) ==> p.len()
            <= max_len,
{
    lemma_chosen_is_selection(cv, draws, max_len, max_words, alliterate);
}

/// Word membership: a generated password is exactly the rendering of some
/// well-formed selection of corpus indices, followed by the two-digit suffix;
/// so every word segment is a corpus word, the first one capitalized.
pub proof fn lemma_word_membership(
    cv: Seq<Seq<char>>,
    draws: Seq<int>,
    max_len: int,
    max_words: int,
    alliterate: bool,
    suffix: int,
)
    requires
        valid_inputs(cv, draws, max_len, max_words, suffix),
    ensures
        spec_generate(cv, draws, max_len, max_words, alliterate, suffix) matches Ok(p) ==> {
            let idxs = chosen(cv, draws, max_len, max_words, alliterate);
            &&& is_selection(cv, idxs, max_len, max_words, alliterate)
            &&& p == render(cv, idxs) + two_digits(suffix)
            &&& password_ok(p, cv, max_len, max_words, alliterate)
        },
{
    lemma_chosen_is_selection(cv, draws, max_len, max_words, alliterate);
}

/// Word count bound: a generated password holds at least one and at most
/// `max_words` word segments.
pub proof fn lemma_word_count(
    cv: Seq<Seq<char>>,
    draws: Seq<int>,
    max_len: int,
    max_words: int,
    alliterate: bool,
    suffix: int,
)
    requires
        valid_inputs(cv, draws, max_len, max_words, suffix),
    ensures
        spec_generate(cv, draws, max_len, max_words, alliterate, suffix) matches Ok(p) ==> 1
            <= chosen(cv, draws, max_len, max_words, alliterate).len() <= max_words,
{
    lemma_chosen_is_selection(cv, draws, max_len, max_words, alliterate);
}

/// Alliteration: when required, all chosen words share one first letter.
pub proof fn lemma_alliteration(
    cv: Seq<Seq<char>>,
    draws: Seq<int>,
    max_len: int,
    max_words: int,
    suffix: int,
)
    requires
        valid_inputs(cv, draws, max_len, max_words, suffix),
    ensures
        spec_generate(cv, draws, max_len, max_words, true, suffix) matches Ok(p) ==> {
            let idxs = chosen(cv, draws, max_len, max_words, true);
            forall|k: int|
                0 <= k < idxs.len() ==> cv[#[trigger] idxs[k]][0] == cv[idxs[0]][0]
        },
{
    lemma_chosen_is_selection(cv, draws, max_len, max_words, true);
}

/// The rendering of a non-empty selection starts with its first segment: the
/// first chosen word capitalized, then the separator.
proof fn lemma_render_first(cv: Seq<Seq<char>>, idxs: Seq<int>)
    requires
        valid_corpus(cv),
        idxs.len() >= 1,
        forall|k: int| 0 <= k < idxs.len() ==> 0 <= #[trigger] idxs[k] < cv.len(),
    ensures
        render(cv, idxs).len() >= cv[idxs[0]].len() + 1,
        render(cv, idxs).subrange(0, cv[idxs[0]].len() + 1 as int) == segment(cv, idxs[0], 0),
    decreases idxs.len(),
{
    let w0 = cv[idxs[0]];
    assert(crate::model::valid_word(w0));
    if idxs.len() == 1 {
        assert(idxs.drop_last() =~= Seq::<int>::empty());
        assert(render(cv, Seq::<int>::empty()) =~= Seq::<char>::empty());
        assert(render(cv, idxs) =~= segment(cv, idxs[0], 0));
        assert(render(cv, idxs).subrange(0, w0.len() + 1 as int) =~= segment(cv, idxs[0], 0));
    } else {
        let front = idxs.drop_last();
        assert(front[0] == idxs[0]);
        lemma_render_first(cv, front);
        assert(render(cv, idxs) == render(cv, front) + segment(
            cv,
            idxs.last(),
            idxs.len() - 1,
        ));
        assert(render(cv, idxs).subrange(0, w0.len() + 1 as int) =~= render(cv, front).subrange(
            0,
            w0.len() + 1 as int,
        ));
    }
}

/// Capitalization: the first character of a generated password is the
/// uppercase form of the first chosen word's first letter, and the rest of
/// that first segment is the word unchanged.
pub proof fn lemma_capitalization(
    cv: Seq<Seq<char>>,
    draws: Seq<int>,
    max_len: int,
    max_words: int,
    alliterate: bool,
    suffix: int,
)
    requires
        valid_inputs(cv, draws, max_len, max_words, suffix),
    ensures
        spec_generate(cv, draws, max_len, max_words, alliterate, suffix) matches Ok(p) ==> {
            let idxs = chosen(cv, draws, max_len, max_words, alliterate);
            let w0 = cv[idxs[0]];
            &&& p.len() > w0.len()
            &&& p[0] == upper_char(w0[0])
            &&& is_upper_char(p[0])
            &&& forall|j: int| 1 <= j < w0.len() ==> p[j] == w0[j]
        },
{
    lemma_chosen_is_selection(cv, draws, max_len, max_words, alliterate);
    let g = spec_generate(cv, draws, max_len, max_words, alliterate, suffix);
    if g is Ok {
        let idxs = chosen(cv, draws, max_len, max_words, alliterate);
        let w0 = cv[idxs[0]];
        assert(crate::model::valid_word(w0));
        lemma_render_first(cv, idxs);
        let p = g->Ok_0;
        let seg0 = segment(cv, idxs[0], 0);
        let rendered = render(cv, idxs);
        let len0 = w0.len() + 1 as int;
        assert(p == rendered + two_digits(suffix));
        assert(p.len() == rendered.len() + 2);
        assert(rendered.subrange(0, len0) == seg0);
        assert(seg0[0] == capitalize(w0)[0]);
        assert(p[0] == rendered[0] && rendered[0] == rendered.subrange(0, len0)[0]);
        assert(is_upper_char(upper_char(w0[0])));
        assert forall|j: int| 1 <= j < w0.len() implies p[j] == w0[j] by {
            assert(p[j] == rendered[j]);
            assert(rendered[j] == rendered.subrange(0, len0)[j]);
            assert(seg0[j] == capitalize(w0)[j]);
            assert(capitalize(w0)[j] == w0.skip(1)[j - 1]);
            assert(w0.skip(1)[j - 1] == w0[j]);
        }
    }
}

/// Suffix range: a generated password ends in two decimal digits whose value
/// is the suffix draw, an integer in `[1, 99]`.
pub proof fn lemma_suffix_range(
    cv: Seq<Seq<char>>,
    draws: Seq<int>,
    max_len: int,
    max_words: int,
    alliterate: bool,
    suffix: int,
)
    requires
        valid_inputs(cv, draws, max_len, max_words, suffix),
    ensures
        spec_generate(cv, draws, max_len, max_words, alliterate, suffix) matches Ok(p) ==> {
            &&& p.len() >= 2
            &&& is_digit_char(p[p.len() - 2]) && is_digit_char(p[p.len() - 1])
            &&& digit_val(p[p.len() - 2]) * 10 + digit_val(p[p.len() - 1]) == suffix
            &&& 1 <= digit_val(p[p.len() - 2]) * 10 + digit_val(p[p.len() - 1]) <= 99
        },
{
    let g = spec_generate(cv, draws, max_len, max_words, alliterate, suffix);
    if g is Ok {
        let p = g->Ok_0;
        assert(p[p.len() - 2] == digit_char(suffix / 10));
        assert(p[p.len() - 1] == digit_char(suffix % 10));
        lemma_digit_char_val(suffix / 10);
        lemma_digit_char_val(suffix % 10);
    }
}

/// A digit character carries its digit's value.
proof fn lemma_digit_char_val(d: int)
    requires
        0 <= d <= 9,
    ensures
        is_digit_char(digit_char(d)),
        digit_val(digit_char(d)) == d,
{
}

/// Failure on an impossible corpus: when every corpus word is too long to
/// leave room for its separator and the two-digit suffix, the selection stays
/// empty and generation reports `NoWordsFit`.  One character more of budget
/// changes this: a word of length exactly `max_len - 3` is accepted.
pub proof fn lemma_no_words_fit(
    cv: Seq<Seq<char>>,
    draws: Seq<int>,
    max_len: int,
    max_words: int,
    alliterate: bool,
    suffix: int,
)
    requires
        valid_inputs(cv, draws, max_len, max_words, suffix),
        cv.len() > 0,
        forall|i: int| 0 <= i < cv.len() ==> (#[trigger] cv[i]).len() + 3 > max_len,
    ensures
        spec_generate(cv, draws, max_len, max_words, alliterate, suffix) == Err::<
            Seq<char>,
            GenerationError,
        >(GenerationError::NoWordsFit),
{
    lemma_select_rec_rejects_all(cv, draws, max_len, max_words, alliterate);
}

/// On such a corpus the policy rejects every draw.
proof fn lemma_select_rec_rejects_all(
    cv: Seq<Seq<char>>,
    draws: Seq<int>,
    max_len: int,
    max_words: int,
    alliterate: bool,
)
    requires
        forall|k: int| 0 <= k < draws.len() ==> 0 <= #[trigger] draws[k] < cv.len(),
        forall|i: int| 0 <= i < cv.len() ==> (#[trigger] cv[i]).len() + 3 > max_len,
    ensures
        select_rec(cv, draws, max_len, max_words, alliterate, Seq::empty()) == Seq::<int>::empty(),
    decreases draws.len(),
{
    assert(render(cv, Seq::<int>::empty()) =~= Seq::<char>::empty());
    if draws.len() > 0 {
        lemma_select_rec_rejects_all(cv, draws.drop_first(), max_len, max_words, alliterate);
    }
}

} // verus!
