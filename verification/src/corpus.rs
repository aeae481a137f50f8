//! Token corpus: the immutable, ordered sequence of token strings that
//! stands in for generated text, together with its total count and its
//! precomputed full concatenation.

use vstd::prelude::*;
use vstd::string::*;

verus! {

/// The concatenation of the first `n` token strings, in order.
pub open spec fn concat_prefix(toks: Seq<Seq<char>>, n: int) -> Seq<char>
    decreases n,
{
    if n <= 0 {
        Seq::empty()
    } else {
        concat_prefix(toks, n - 1) + toks[n - 1]
    }
}

/// The concatenation of all token strings, in order.
pub open spec fn concat_all(toks: Seq<Seq<char>>) -> Seq<char> {
    concat_prefix(toks, toks.len() as int)
}

/// The token corpus. Immutable after initialization: it is created once at
/// process start and shared read-only by every request.
pub struct Corpus {
    tokens: Vec<String>,
    full_text: String,
}

impl View for Corpus {
    type V = Seq<Seq<char>>;

    closed spec fn view(&self) -> Seq<Seq<char>> {
        self.tokens@.map_values(|t: String| t@)
    }
}

impl Corpus {
    /// The precomputed concatenation matches the token sequence.
    pub closed spec fn wf(&self) -> bool {
        self.full_text@ == concat_all(self@)
    }

    /// Build a corpus from its ordered token strings, precomputing the full
    /// concatenation.
    pub fn new(tokens: Vec<String>) -> (c: Corpus)
        ensures
            c.wf(),
            c@ == tokens@.map_values(|t: String| t@),
    {
        let ghost toks = tokens@.map_values(|t: String| t@);
        let mut full_text = String::new();
        let mut i: usize = 0;
        while i < tokens.len()
            invariant
                i <= tokens.len(),
                toks == tokens@.map_values(|t: String| t@),
                full_text@ == concat_prefix(toks, i as int),
            decreases tokens.len() - i,
        {
            full_text.append(tokens[i].as_str());
            i = i + 1;
        }
        Corpus { tokens, full_text }
    }

    /// The total number of tokens.
    pub fn total_count(&self) -> (n: usize)
        ensures
            n == self@.len(),
    {
        self.tokens.len()
    }

    /// The precomputed concatenation of the whole corpus.
    pub fn full_text(&self) -> (s: &String)
        requires
            self.wf(),
        ensures
            s@ == concat_all(self@),
    {
        &self.full_text
    }

    /// The token at a given index.
    pub fn token(&self, i: usize) -> (t: &String)
        requires
            i < self@.len(),
        ensures
            t@ == self@[i as int],
    {
        &self.tokens[i]
    }

    /// The concatenation of the first `n` tokens, built afresh.
    pub fn join_prefix(&self, n: usize) -> (s: String)
        requires
            n <= self@.len(),
        ensures
            s@ == concat_prefix(self@, n as int),
    {
        let mut s = String::new();
        let mut i: usize = 0;
        while i < n
            invariant
                i <= n,
                n <= self.tokens.len(),
                self@ == self.tokens@.map_values(|t: String| t@),
                s@ == concat_prefix(self@, i as int),
            decreases n - i,
        {
            s.append(self.tokens[i].as_str());
            i = i + 1;
        }
        s
    }

    /// Copies of the first `n` tokens, in order.
    pub fn prefix_tokens(&self, n: usize) -> (v: Vec<String>)
        requires
            n <= self@.len(),
        ensures
            v@.map_values(|t: String| t@) == self@.subrange(0, n as int),
    {
        let mut v: Vec<String> = Vec::new();
        let mut i: usize = 0;
        while i < n
            invariant
                i <= n,
                n <= self.tokens.len(),
                self@ == self.tokens@.map_values(|t: String| t@),
                v@.len() == i,
                forall|j: int| 0 <= j < i ==> v@[j]@ == self@[j],
            decreases n - i,
        {
            v.push(self.tokens[i].clone());
            i = i + 1;
        }
        proof {
            assert(v@.map_values(|t: String| t@) =~= self@.subrange(0, n as int));
        }
        v
    }
}

} // verus!
