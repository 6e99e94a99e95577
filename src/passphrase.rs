//! Taking a passphrase from the user, or generating one from the word list.

use vstd::prelude::*;
use vstd::string::StringExecFns;
use rand::distributions::{Distribution, Uniform};
use rand::rngs::OsRng;
use secrecy::{ExposeSecret, SecretString};
use crate::words::{WORD_COUNT, WordList, is_word, valid_words};

verus! {

/// A string whose contents no formatting shows and which is wiped from
/// memory when dropped; it is read only through `expose_secret`.
///
/// Held in a `secrecy::SecretString`, which is opaque here.
#[verifier::external_body]
pub struct Secret {
    inner: SecretString,
}

/// The string that a secret holds.
pub uninterp spec fn secret_text(s: Secret) -> Seq<char>;

impl Secret {
    /// Relies on `secrecy::Secret::new`: the secret takes ownership of `s`
    /// and holds it unchanged.
    #[verifier::external_body]
    pub fn new(s: String) -> (r: Secret)
        ensures
            secret_text(r) == s@,
    {
        Secret { inner: SecretString::new(s) }
    }

    /// Relies on `ExposeSecret::expose_secret` for `secrecy::SecretString`:
    /// a reference to the string held.
    #[verifier::external_body]
    pub fn expose_secret(&self) -> (r: &String)
        ensures
            r@ == secret_text(*self),
    {
        self.inner.expose_secret()
    }
}

/// Relies on rand's `Uniform` over `0..n`, sampled from `OsRng`, the
/// operating system's secure random source: an index below `n`. `Uniform`
/// samples integers by rejection, so every index is equally likely.
#[verifier::external_body]
fn uniform_index(n: usize) -> (r: usize)
    requires
        n > 0,
    ensures
        r < n,
{
    Uniform::from(0..n).sample(&mut OsRng)
}

/// The number of words in a generated passphrase.
pub const PASSPHRASE_WORDS: usize = 10;

/// A passphrase, tagged with where it came from.
pub enum Passphrase {
    /// Typed by the user.
    Typed(Secret),
    /// Generated; it exists nowhere else, so the user has to record it.
    Generated(Secret),
}

/// `w` holds no hyphen.
pub open spec fn no_hyphen(w: Seq<char>) -> bool {
    forall|j: int| 0 <= j < w.len() ==> #[trigger] w[j] != '-'
}

/// The words `ws` joined by single hyphens, with none before the first or after the last.
pub open spec fn join_hyphen(ws: Seq<Seq<char>>) -> Seq<char>
    decreases ws.len(),
{
    if ws.len() == 0 {
        seq![]
    } else if ws.len() == 1 {
        ws[0]
    } else {
        join_hyphen(ws.drop_last()) + seq!['-'] + ws.last()
    }
}

/// `i` is the position of the last hyphen in `s`.
pub open spec fn is_last_hyphen(s: Seq<char>, i: int) -> bool {
    0 <= i < s.len() && s[i] == '-' && no_hyphen(s.skip(i + 1))
}

/// The pieces of `s` between its hyphens, in order.
pub open spec fn split_hyphen(s: Seq<char>) -> Seq<Seq<char>>
    decreases s.len(),
{
    if exists|i: int| is_last_hyphen(s, i) {
        let i = choose|i: int| is_last_hyphen(s, i);
        split_hyphen(s.take(i)).push(s.skip(i + 1))
    } else {
        seq![s]
    }
}

/// The words at positions `idx` of the vocabulary `words`, in order.
pub open spec fn words_at(words: Seq<Seq<char>>, idx: Seq<usize>) -> Seq<Seq<char>> {
    idx.map_values(|i: usize| words[i as int])
}

/// `idx` holds `PASSPHRASE_WORDS` positions of a vocabulary of `WORD_COUNT` words.
pub open spec fn valid_draw(idx: Seq<usize>) -> bool {
    idx.len() == PASSPHRASE_WORDS && forall|k: int| 0 <= k < idx.len() ==> #[trigger] idx[k] < WORD_COUNT
}

/// `text` is a passphrase that generation from `words` can give.
pub open spec fn is_generated_from(words: Seq<Seq<char>>, text: Seq<char>) -> bool {
    exists|idx: Seq<usize>| valid_draw(idx) && text == join_hyphen(words_at(words, idx))
}

/// Splitting at the hyphens undoes joining by hyphens, for a non-empty
/// list of non-empty words none of which holds a hyphen.
pub proof fn lemma_split_join(ws: Seq<Seq<char>>)
    requires
        ws.len() > 0,
        forall|k: int| 0 <= k < ws.len() ==> #[trigger] no_hyphen(ws[k]) && ws[k].len() > 0,
    ensures
        split_hyphen(join_hyphen(ws)) == ws,
    decreases ws.len(),
{
    let s = join_hyphen(ws);
    if ws.len() == 1 {
        assert(no_hyphen(ws[0]));
        assert(!exists|i: int| is_last_hyphen(s, i));
        assert(seq![s] =~= ws);
    } else {
        let front = ws.drop_last();
        assert forall|k: int| 0 <= k < front.len() implies #[trigger] no_hyphen(front[k]) && front[k].len() > 0 by {
            assert(front[k] == ws[k]);
        }
        let head = join_hyphen(front);
        let p = head.len() as int;
        let last = ws.last();
        assert(no_hyphen(ws[ws.len() - 1]));
        assert(s == head + seq!['-'] + last);
        assert(s.skip(p + 1) =~= last);
        assert(s.take(p) =~= head);
        assert(is_last_hyphen(s, p));
        assert forall|i: int| is_last_hyphen(s, i) implies i == p by {
            if i < p {
                assert(s.skip(i + 1)[p - i - 1] == s[p]);
            } else if i > p {
                assert(s[i] == last[i - p - 1]);
            }
        }
        let c = choose|i: int| is_last_hyphen(s, i);
        assert(c == p);
        lemma_split_join(front);
        assert(front.push(last) =~= ws);
    }
}

/// Every generated passphrase is exactly `PASSPHRASE_WORDS` words of the
/// vocabulary separated by single hyphens: splitting it at its hyphens
/// gives that many pieces, each a word of the list, and joining them again
/// gives the passphrase back.
pub proof fn lemma_generated_shape(words: Seq<Seq<char>>, text: Seq<char>)
    requires
        valid_words(words),
        is_generated_from(words, text),
    ensures
        split_hyphen(text).len() == PASSPHRASE_WORDS,
        forall|k: int| 0 <= k < PASSPHRASE_WORDS ==> words.contains(#[trigger] split_hyphen(text)[k]),
        join_hyphen(split_hyphen(text)) == text,
{
    let idx = choose|idx: Seq<usize>| valid_draw(idx) && text == join_hyphen(words_at(words, idx));
    let ws = words_at(words, idx);
    assert forall|k: int| 0 <= k < ws.len() implies #[trigger] no_hyphen(ws[k]) && ws[k].len() > 0 by {
        assert(idx[k] < WORD_COUNT);
        assert(is_word(words[idx[k] as int]));
        assert forall|j: int| 0 <= j < ws[k].len() implies #[trigger] ws[k][j] != '-' by {
            assert('a' <= words[idx[k] as int][j] <= 'z');
        }
    }
    lemma_split_join(ws);
    assert forall|k: int| 0 <= k < PASSPHRASE_WORDS implies words.contains(#[trigger] split_hyphen(text)[k]) by {
        assert(idx[k] < WORD_COUNT);
        assert(words[idx[k] as int] == ws[k]);
    }
}

/// The passphrase spelled by the words of `words` at positions `idx`,
/// joined by single hyphens in the order of `idx`.
pub fn passphrase_from_indices(words: &WordList, idx: &Vec<usize>) -> (r: String)
    requires
        forall|k: int| 0 <= k < idx@.len() ==> #[trigger] idx@[k] < words@.len(),
    ensures
        r@ == join_hyphen(words_at(words@, idx@)),
{
    let mut out = String::new();
    let mut k: usize = 0;
    while k < idx.len()
        invariant
            k <= idx@.len(),
            forall|m: int| 0 <= m < idx@.len() ==> #[trigger] idx@[m] < words@.len(),
            out@ == join_hyphen(words_at(words@, idx@.take(k as int))),
        decreases idx@.len() - k,
    {
        let w = words.word(idx[k]);
        if k > 0 {
            out.append("-");
        }
        out.append(w.as_str());
        proof {
            reveal_strlit("-");
            let ws = words_at(words@, idx@.take(k + 1));
            assert(ws.drop_last() =~= words_at(words@, idx@.take(k as int)));
            assert(ws.last() == words@[idx@[k as int] as int]);
            if k == 0 {
                assert(seq![] + w@ =~= w@);
            }
        }
        k += 1;
    }
    assert(idx@.take(idx@.len() as int) =~= idx@);
    out
}

/// A fresh passphrase: `PASSPHRASE_WORDS` words, each drawn uniformly and
/// independently from `words` with the operating system's secure random
/// source, joined by single hyphens in draw order.
pub fn generate_passphrase(words: &WordList) -> (r: String)
    requires
        words.wf(),
    ensures
        is_generated_from(words@, r@),
{
    let mut idx: Vec<usize> = Vec::new();
    let mut k: usize = 0;
    while k < PASSPHRASE_WORDS
        invariant
            k <= PASSPHRASE_WORDS,
            words.wf(),
            idx@.len() == k,
            forall|m: int| 0 <= m < idx@.len() ==> #[trigger] idx@[m] < WORD_COUNT,
        decreases PASSPHRASE_WORDS - k,
    {
        let i = uniform_index(words.len());
        idx.push(i);
        k += 1;
    }
    let r = passphrase_from_indices(words, &idx);
    assert(valid_draw(idx@));
    r
}

/// The passphrase for what the user typed: the typed value itself, as
/// `Typed`, when it is non-empty; a freshly generated one from `words`, as
/// `Generated`, when it is empty.
///
/// The word list is read only for an empty entry; `None` is returned only
/// there, and only where no word list is given.
pub fn passphrase_from_input(typed: Secret, words: Option<&WordList>) -> (r: Option<Passphrase>)
    requires
        words is Some ==> words->Some_0.wf(),
    ensures
        secret_text(typed).len() > 0 ==> r == Some(Passphrase::Typed(typed)),
        secret_text(typed).len() == 0 ==> (r is Some <==> words is Some),
        secret_text(typed).len() == 0 && r is Some ==> r->Some_0 is Generated && is_generated_from(
            words->Some_0@,
            secret_text(r->Some_0->Generated_0),
        ),
{
    if typed.expose_secret().as_str().is_empty() {
        match words {
            Some(w) => {
                let text = generate_passphrase(w);
                Some(Passphrase::Generated(Secret::new(text)))
            },
            None => None,
        }
    } else {
        Some(Passphrase::Typed(typed))
    }
}

} // verus!
