//! Passages and the passage set: one practice text with its display label,
//! and the ordered collection of passages in scope for a session. Passages
//! flagged as finished are filtered out once, when the set is built, and are
//! unreachable from then on.

use vstd::prelude::*;

verus! {

/// One practice text plus its display label. The text is a sequence of
/// Unicode code points, immutable once loaded. `finished` is a load-time
/// flag: a finished passage never enters the active set.
#[derive(Debug)]
pub struct Passage {
    pub label: Vec<char>,
    pub text: Vec<char>,
    pub finished: bool,
}

impl Passage {
    pub fn new(label: Vec<char>, text: Vec<char>, finished: bool) -> (p: Passage)
        ensures
            p == (Passage { label, text, finished }),
    {
        Passage { label, text, finished }
    }
}

/// Whether a passage is kept when the set is built.
pub open spec fn kept(p: Passage) -> bool {
    !p.finished
}

/// The filter applied once when the set is built.
pub open spec fn keep_pred() -> spec_fn(Passage) -> bool {
    |p: Passage| kept(p)
}

/// The ordered collection of passages loaded at startup, in configuration
/// order, with the finished entries removed. It is never mutated after it
/// is built, so indices into it are stable for the whole session.
#[derive(Debug)]
pub struct PassageSet {
    pub passages: Vec<Passage>,
}

impl PassageSet {
    /// No finished passage is ever present.
    pub open spec fn wf(self) -> bool {
        forall|i: int| 0 <= i < self.passages@.len() ==> !(#[trigger] self.passages@[i]).finished
    }

    pub open spec fn spec_len(self) -> nat {
        self.passages@.len()
    }

    /// Builds the set from the configured entries, dropping every entry
    /// flagged as finished and keeping the order of the rest.
    pub fn from_entries(entries: Vec<Passage>) -> (s: PassageSet)
        ensures
            s.passages@ == entries@.filter(keep_pred()),
            s.wf(),
    {
        let ghost orig = entries@;
        let mut entries = entries;
        let mut passages: Vec<Passage> = Vec::new();
        let ghost mut done: Seq<Passage> = Seq::empty();
        proof {
            reveal(Seq::filter);
            assert(done.filter(keep_pred()) =~= Seq::<Passage>::empty());
            assert(done + entries@ =~= orig);
        }
        while entries.len() > 0
            invariant
                orig == done + entries@,
                passages@ == done.filter(keep_pred()),
            decreases entries@.len(),
        {
            let p = entries.remove(0);
            proof {
                reveal(Seq::filter);
                assert(done.push(p).drop_last() =~= done);
                assert(done.push(p).last() == p);
                assert(done.push(p) + entries@ =~= orig);
                done = done.push(p);
            }
            if !p.finished {
                passages.push(p);
            }
        }
        proof {
            assert(done =~= orig);
            assert forall|j: int| 0 <= j < orig.filter(keep_pred()).len() implies !(
            #[trigger] orig.filter(keep_pred())[j]).finished by {
                orig.lemma_filter_pred(keep_pred(), j);
            }
        }
        PassageSet { passages }
    }

    pub fn len(&self) -> (n: usize)
        ensures
            n == self.spec_len(),
    {
        self.passages.len()
    }

    pub fn passage(&self, i: usize) -> (p: &Passage)
        requires
            i < self.spec_len(),
        ensures
            *p == self.passages@[i as int],
    {
        &self.passages[i]
    }
}

} // verus!
