//! The password generator: a deterministic core whose result is pinned down
//! exactly by [`spec_generate`], and a randomized front end that draws from
//! the thread-local generator and proves the password invariants of every
//! outcome.

use crate::model::{
    capitalize, chosen, corpus_view, draws_view, generated_from, password_ok, render, segment,
    select_rec, spec_generate, two_digits, valid_corpus, valid_word, GenerationError,
};
use crate::randomness::{draw_index, draw_suffix, new_thread_rng};
use crate::text::{digit_str, upper_str};
use vstd::prelude::*;
use vstd::string::StrSliceExecFns;
use vstd::string::StringExecFns;

verus! {

/// The smallest length budget the generator accepts.
pub const MIN_LENGTH: usize = 8;

/// Whether one word may enter the corpus: non-empty, lowercase ASCII only.
pub fn word_is_valid(w: &String) -> (b: bool)
    ensures
        b == valid_word(w@),
{
    let len = w.as_str().unicode_len();
    if len == 0 {
        return false;
    }
    let mut j: usize = 0;
    while j < len
        invariant
            len == w@.len(),
            j <= len,
            forall|t: int| 0 <= t < j ==> crate::model::is_lower_char(#[trigger] w@[t]),
        decreases len - j,
    {
        let c = w.as_str().get_char(j);
        let u = c as u32;
        if u < 97 || u > 122 {
            proof {
                assert(!crate::model::is_lower_char(w@[j as int]));
            }
            return false;
        }
        j = j + 1;
    }
    true
}

/// Whether a word list may serve as a corpus: every word valid.
pub fn corpus_is_valid(words: &Vec<String>) -> (b: bool)
    ensures
        b == valid_corpus(corpus_view(words@)),
{
    let n = words.len();
    let mut i: usize = 0;
    while i < n
        invariant
            n == words@.len(),
            i <= n,
            forall|k: int| 0 <= k < i ==> valid_word(#[trigger] corpus_view(words@)[k]),
        decreases n - i,
    {
        let ok = word_is_valid(&words[i]);
        if !ok {
            proof {
                assert(corpus_view(words@)[i as int] == words@[i as int]@);
            }
            return false;
        }
        i = i + 1;
    }
    true
}

/// The deterministic core of generation.
///
/// `draws` is the sequence of random word draws, one corpus index per
/// attempt; `suffix` is the random suffix draw.  The result is exactly
/// [`spec_generate`] of the inputs, so equal inputs give equal passwords.
#[verifier::loop_isolation(false)]
pub fn generate_from_draws(
    words: &Vec<String>,
    max_len: usize,
    max_words: usize,
    alliterate: bool,
    draws: &Vec<usize>,
    suffix: usize,
) -> (r: Result<String, GenerationError>)
    requires
        valid_corpus(corpus_view(words@)),
        max_len >= MIN_LENGTH,
        max_words >= 1,
        forall|k: int| 0 <= k < draws@.len() ==> (#[trigger] draws@[k]) < words@.len(),
        1 <= suffix <= 99,
    ensures
        ({
            let g = spec_generate(
                corpus_view(words@),
                draws_view(draws@),
                max_len as int,
                max_words as int,
                alliterate,
                suffix as int,
            );
            match r {
                Ok(p) => g matches Ok(q) && p@ == q,
                Err(e) => g matches Err(e2) && e == e2,
            }
        }),
{
    let ghost cv = corpus_view(words@);
    let ghost ds = draws_view(draws@);
    let ghost sel = chosen(cv, ds, max_len as int, max_words as int, alliterate);

    if words.len() == 0 {
        return Err(GenerationError::CorpusEmpty);
    }

    let mut pwd = String::new();
    let mut cur_len: usize = 0;
    let mut nwords: usize = 0;
    let mut anchor: char = 'a';
    let mut stopped = false;
    let mut t: usize = 0;
    let ghost mut acc: Seq<int> = Seq::empty();

    proof {
        assert(ds.skip(0) =~= ds);
        assert(pwd@ =~= render(cv, acc));
    }

    while t < draws.len() && !stopped
        invariant
            t <= draws@.len(),
            pwd@ == render(cv, acc),
            cur_len == pwd@.len(),
            nwords == acc.len(),
            nwords <= max_words,
            forall|k: int| 0 <= k < acc.len() ==> 0 <= #[trigger] acc[k] < cv.len(),
            nwords > 0 ==> anchor == cv[acc[0]][0],
            cur_len + 2 <= max_len,
            !stopped ==> nwords < max_words && cur_len + 4 < max_len,
            stopped ==> nwords >= 1,
            if stopped {
                acc == sel
            } else {
                select_rec(
                    cv,
                    ds.skip(t as int),
                    max_len as int,
                    max_words as int,
                    alliterate,
                    acc,
                ) == sel
            },
        decreases draws@.len() - t,
    {
        let i = draws[t];
        let word: &String = &words[i];
        let ghost w = cv[i as int];
        proof {
            assert(w == word@);
            assert(valid_word(w));
            assert(ds.skip(t as int)[0] == ds[t as int]);
            assert(ds.skip(t as int).drop_first() =~= ds.skip(t as int + 1));
        }
        let wlen = word.as_str().unicode_len();
        let first_ch = word.as_str().get_char(0);
        let budget = max_len - cur_len;
        let fits = budget >= 3 && wlen <= budget - 3;
        if fits && (nwords == 0 || !(alliterate && first_ch != anchor)) {
            let ghost acc2 = acc.push(i as int);
            proof {
                assert(acc2.drop_last() =~= acc);
                assert(render(cv, acc2) == render(cv, acc) + segment(cv, i as int, acc.len() as int));
            }
            if nwords == 0 {
                pwd.append(upper_str(first_ch));
                let tail = word.as_str().substring_ascii(1, wlen);
                pwd.append(tail);
                anchor = first_ch;
                proof {
                    reveal_strlit("-");
                    assert(capitalize(w) =~= seq![crate::model::upper_char(w[0])] + w.subrange(
                        1,
                        wlen as int,
                    ));
                }
            } else {
                pwd.append(word.as_str());
            }
            pwd.append("-");
            proof {
                reveal_strlit("-");
                assert(pwd@ =~= render(cv, acc2));
                acc = acc2;
            }
            cur_len = cur_len + wlen + 1;
            nwords = nwords + 1;
            if nwords >= max_words || max_len - cur_len <= 4 {
                stopped = true;
            }
        }
        t = t + 1;
    }

    proof {
        if !stopped {
            assert(ds.skip(t as int) =~= Seq::<int>::empty());
            assert(acc == sel);
        }
    }

    if nwords == 0 {
        return Err(GenerationError::NoWordsFit);
    }

    let d1 = suffix / 10;
    let d2 = suffix % 10;
    pwd.append(digit_str(d1));
    pwd.append(digit_str(d2));
    proof {
        assert(pwd@ =~= render(cv, sel) + two_digits(suffix as int));
    }
    Ok(pwd)
}

/// The password generator: a word corpus together with the thread-local
/// random generator it draws from.
pub struct Pwgen {
    pub words: Vec<String>,
    rng: rand::rngs::ThreadRng,
}

impl Pwgen {
    /// The corpus this generator draws from.
    pub closed spec fn corpus(&self) -> Seq<String> {
        self.words@
    }

    /// A generator over the given corpus.
    pub fn new(words: Vec<String>) -> (r: Pwgen)
        ensures
            r.corpus() == words@,
    {
        let rng = new_thread_rng();
        Pwgen { words, rng }
    }

    /// One password under the given constraints, or an error: `CorpusEmpty`
    /// exactly when the corpus has no words, `NoWordsFit` when `max_tries`
    /// draws were consumed before any word fit the length budget.  The result
    /// is always the selection policy's outcome for some admissible sequence
    /// of exactly `max_tries` word draws ([`generated_from`]), and every
    /// returned password satisfies [`password_ok`]: the length bound, word
    /// membership and capitalization, the word count bound, alliteration when
    /// required, and the two-digit suffix in `[1, 99]`.
    ///
    /// `verbose` is a diagnostic flag with no effect on the result; logging
    /// the intermediate draws is the caller's business.
    #[allow(unused_variables)]
    #[verifier::loop_isolation(false)]
    pub fn generate_password(
        &mut self,
        max_len: usize,
        max_words: usize,
        max_tries: usize,
        alliterate: bool,
        verbose: bool,
    ) -> (r: Result<String, GenerationError>)
        requires
            valid_corpus(corpus_view(old(self).corpus())),
            max_len >= MIN_LENGTH,
            max_words >= 1,
            max_tries >= 1,
        ensures
            final(self).corpus() == old(self).corpus(),
            (r matches Err(e) && e == GenerationError::CorpusEmpty) <==> old(
                self,
            ).corpus().len() == 0,
            r matches Ok(p) ==> password_ok(
                p@,
                corpus_view(old(self).corpus()),
                max_len as int,
                max_words as int,
                alliterate,
            ),
            old(self).corpus().len() > 0 ==> generated_from(
                corpus_view(old(self).corpus()),
                match r {
                    Ok(p) => Ok(p@),
                    Err(e) => Err(e),
                },
                max_len as int,
                max_words as int,
                alliterate,
                max_tries as int,
            ),
    {
        let ghost cv = corpus_view(self.words@);
        let n = self.words.len();
        if n == 0 {
            return Err(GenerationError::CorpusEmpty);
        }
        let mut draws: Vec<usize> = Vec::new();
        let mut t: usize = 0;
        while t < max_tries
            invariant
                self.words@ == old(self).words@,
                t <= max_tries,
                draws@.len() == t,
                forall|k: int| 0 <= k < draws@.len() ==> (#[trigger] draws@[k]) < n,
            decreases max_tries - t,
        {
            let i = draw_index(&mut self.rng, n);
            draws.push(i);
            t = t + 1;
        }
        let suffix = draw_suffix(&mut self.rng);
        let r = generate_from_draws(&self.words, max_len, max_words, alliterate, &draws, suffix);
        proof {
            let ds = draws_view(draws@);
            crate::laws::lemma_chosen_is_selection(
                cv,
                ds,
                max_len as int,
                max_words as int,
                alliterate,
            );
            if r is Ok {
                let sel = chosen(cv, ds, max_len as int, max_words as int, alliterate);
                crate::laws::lemma_password_ok_intro(
                    r->Ok_0@,
                    cv,
                    max_len as int,
                    max_words as int,
                    alliterate,
                    sel,
                    suffix as int,
                );
            }
            let rv = (match &r {
                Ok(p) => Ok::<Seq<char>, GenerationError>(p@),
                Err(e) => Err::<Seq<char>, GenerationError>(*e),
            });
            assert(spec_generate(
                cv,
                ds,
                max_len as int,
                max_words as int,
                alliterate,
                suffix as int,
            ) == rv);
            assert(generated_from(
                cv,
                rv,
                max_len as int,
                max_words as int,
                alliterate,
                max_tries as int,
            ));
        }
        r
    }
}

/// The command surface of a program around this library; parsing the actual
/// command line onto these fields is the caller's business.
pub struct Args {
    pub max_len: usize,
    pub alliterate: bool,
    pub omit_newline: bool,
    pub verbose: bool,
}

} // verus!
