//! The fixed vocabulary that generated passphrases are drawn from.

use vstd::prelude::*;
use vstd::string::StrSliceExecFns;
use crate::english::{bip39_words, english_words, str_views};

verus! {

/// The number of words in a valid word list.
pub const WORD_COUNT: usize = 2048;

/// `w` is a word of the list: non-empty, and made of lowercase ASCII letters only.
pub open spec fn is_word(w: Seq<char>) -> bool {
    w.len() > 0 && forall|j: int| 0 <= j < w.len() ==> 'a' <= #[trigger] w[j] <= 'z'
}

/// `ws` is a valid vocabulary: exactly `WORD_COUNT` words, pairwise distinct.
pub open spec fn valid_words(ws: Seq<Seq<char>>) -> bool {
    &&& ws.len() == WORD_COUNT
    &&& forall|i: int| 0 <= i < ws.len() ==> is_word(#[trigger] ws[i])
    &&& forall|i: int, j: int| 0 <= i < j < ws.len() ==> #[trigger] ws[i] != #[trigger] ws[j]
}

/// A vocabulary of exactly `WORD_COUNT` distinct lowercase words, indexable by position.
pub struct WordList {
    words: Vec<String>,
}

impl View for WordList {
    type V = Seq<Seq<char>>;

    closed spec fn view(&self) -> Seq<Seq<char>> {
        self.words@.map_values(|w: String| w@)
    }
}

impl WordList {
    /// The list is a valid vocabulary.
    pub open spec fn wf(&self) -> bool {
        valid_words(self@)
    }

    /// Builds a word list from `words`, or `None` where they are not a
    /// valid vocabulary (wrong count, a word empty or not lowercase ASCII
    /// letters, or a word repeated).
    pub fn from_words(words: Vec<&str>) -> (r: Option<WordList>)
        ensures
            r is Some <==> valid_words(str_views(words@)),
            r is Some ==> r->Some_0@ == str_views(words@) && r->Some_0.wf(),
    {
        let ghost views = str_views(words@);
        if words.len() != WORD_COUNT {
            return None;
        }
        let mut owned: Vec<String> = Vec::new();
        let mut i: usize = 0;
        while i < words.len()
            invariant
                i <= words.len(),
                views == str_views(words@),
                owned@.len() == i,
                forall|k: int| 0 <= k < i ==> #[trigger] owned@[k]@ == views[k],
                forall|k: int| 0 <= k < i ==> is_word(#[trigger] views[k]),
            decreases words.len() - i,
        {
            let w = words[i];
            if !is_word_exec(w) {
                assert(views[i as int] == w@);
                return None;
            }
            owned.push(w.to_owned());
            i += 1;
        }
        let list = WordList { words: owned };
        assert(list@ =~= views);
        let mut a: usize = 0;
        while a < owned_len(&list)
            invariant
                a <= list@.len(),
                list@ == views,
                views == str_views(words@),
                views.len() == WORD_COUNT,
                forall|x: int, y: int| 0 <= x < a && x < y < views.len() ==> #[trigger] views[x] != #[trigger] views[y],
            decreases list@.len() - a,
        {
            let mut b: usize = a + 1;
            while b < owned_len(&list)
                invariant
                    a < list@.len(),
                    a + 1 <= b <= list@.len(),
                    list@ == views,
                    views == str_views(words@),
                    views.len() == WORD_COUNT,
                    forall|x: int, y: int| 0 <= x < a && x < y < views.len() ==> #[trigger] views[x] != #[trigger] views[y],
                    forall|y: int| a < y < b ==> views[a as int] != #[trigger] views[y],
                decreases list@.len() - b,
            {
                if list.words[a].eq(&list.words[b]) {
                    assert(list@[a as int] == list.words@[a as int]@);
                    assert(list@[b as int] == list.words@[b as int]@);
                    assert(!valid_words(views)) by {
                        assert(views[a as int] == views[b as int]);
                    }
                    return None;
                }
                b += 1;
            }
            a += 1;
        }
        Some(list)
    }

    /// The bundled English BIP-39 vocabulary, checked as it is built.
    ///
    /// `None` exactly where the bundled words are not a valid vocabulary,
    /// which would be a defect of the build; build it once per process.
    pub fn english() -> (r: Option<WordList>)
        ensures
            r is Some <==> valid_words(bip39_words()),
            r is Some ==> r->Some_0@ == bip39_words() && r->Some_0.wf(),
    {
        WordList::from_words(english_words())
    }

    /// The number of words.
    pub fn len(&self) -> (r: usize)
        ensures
            r == self@.len(),
    {
        self.words.len()
    }

    /// The word at position `i`.
    pub fn word(&self, i: usize) -> (r: &String)
        requires
            i < self@.len(),
        ensures
            r@ == self@[i as int],
    {
        &self.words[i]
    }
}

fn owned_len(l: &WordList) -> (r: usize)
    ensures
        r == l@.len(),
{
    l.words.len()
}

/// Whether `w` is non-empty and made of lowercase ASCII letters only.
fn is_word_exec(w: &str) -> (r: bool)
    ensures
        r == is_word(w@),
{
    let n = w.unicode_len();
    if n == 0 {
        return false;
    }
    let mut j: usize = 0;
    while j < n
        invariant
            n == w@.len(),
            j <= n,
            forall|k: int| 0 <= k < j ==> 'a' <= #[trigger] w@[k] <= 'z',
        decreases n - j,
    {
        let c = w.get_char(j);
        if !('a' <= c && c <= 'z') {
            return false;
        }
        j += 1;
    }
    true
}

} // verus!
