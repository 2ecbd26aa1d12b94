//! First-match search over an ordered list of candidates whose check is an
//! outside observation (a file exists, a program runs). The caller checks
//! only the candidate the search asks for, so later candidates are never
//! touched once one passes.

use vstd::prelude::*;

verus! {

/// What the search asks for next.
#[derive(Clone, Copy, Debug, PartialEq, Eq, Structural)]
pub enum SearchStep {
    /// Check the candidate with this index.
    Check(usize),
    /// The candidate with this index passed: use it.
    Found(usize),
    /// No candidate passed.
    Exhausted,
}

/// A search over `total` candidates.
pub struct CandidateSearch {
    pub total: usize,
    pub cursor: usize,
    pub found: Option<usize>,
}

/// The index of the first passing check.
pub open spec fn first_pass(checks: Seq<bool>) -> Option<int>
    decreases checks.len(),
{
    if checks.len() == 0 {
        None
    } else if checks[0] {
        Some(0)
    } else {
        match first_pass(checks.drop_first()) {
            Some(i) => Some(i + 1),
            None => None,
        }
    }
}

impl CandidateSearch {
    pub open spec fn wf(&self) -> bool {
        &&& self.cursor <= self.total
        &&& self.found matches Some(i) ==> i == self.cursor && i < self.total
    }

    pub open spec fn step_of(&self) -> SearchStep {
        match self.found {
            Some(i) => SearchStep::Found(i),
            None => if self.cursor < self.total {
                SearchStep::Check(self.cursor)
            } else {
                SearchStep::Exhausted
            },
        }
    }

    /// The state after the check of the current candidate came out `passed`.
    pub open spec fn after(&self, passed: bool) -> CandidateSearch {
        if self.found is None && self.cursor < self.total {
            if passed {
                CandidateSearch { found: Some(self.cursor), ..*self }
            } else {
                CandidateSearch { cursor: (self.cursor + 1) as usize, ..*self }
            }
        } else {
            *self
        }
    }

    /// The state after a sequence of check outcomes.
    pub open spec fn after_all(&self, checks: Seq<bool>) -> CandidateSearch
        decreases checks.len(),
    {
        if checks.len() == 0 {
            *self
        } else {
            self.after(checks[0]).after_all(checks.drop_first())
        }
    }

    /// A search over `total` candidates, starting with the first.
    pub fn new(total: usize) -> (r: CandidateSearch)
        ensures
            r.wf(),
            r.total == total,
            r.cursor == 0,
            r.found is None,
    {
        CandidateSearch { total, cursor: 0, found: None }
    }

    /// What the search asks for next.
    pub fn next(&self) -> (r: SearchStep)
        requires
            self.wf(),
        ensures
            r == self.step_of(),
    {
        match self.found {
            Some(i) => SearchStep::Found(i),
            None => if self.cursor < self.total {
                SearchStep::Check(self.cursor)
            } else {
                SearchStep::Exhausted
            },
        }
    }

    /// Records the outcome of checking the candidate that `next` asked for.
    pub fn report(&mut self, passed: bool) -> (r: SearchStep)
        requires
            old(self).wf(),
        ensures
            *final(self) == old(self).after(passed),
            final(self).wf(),
            r == final(self).step_of(),
    {
        if self.found.is_none() && self.cursor < self.total {
            if passed {
                self.found = Some(self.cursor);
            } else {
                self.cursor = self.cursor + 1;
            }
        }
        self.next()
    }
}

/// Checking the candidates in order and stopping at the first that passes
/// finds exactly the first passing candidate, and finds none only when no
/// check passes.
pub proof fn lemma_search_finds_first(search: CandidateSearch, checks: Seq<bool>)
    requires
        search.wf(),
        search.found is None,
        checks.len() == search.total - search.cursor,
    ensures
        search.after_all(checks).step_of() == (match first_pass(checks) {
            Some(i) => SearchStep::Found((search.cursor + i) as usize),
            None => SearchStep::Exhausted,
        }),
    decreases checks.len(),
{
    if checks.len() > 0 {
        let next = search.after(checks[0]);
        if checks[0] {
            lemma_found_stays(next, checks.drop_first());
        } else {
            lemma_search_finds_first(next, checks.drop_first());
        }
    }
}

proof fn lemma_found_stays(search: CandidateSearch, checks: Seq<bool>)
    requires
        search.found is Some,
    ensures
        search.after_all(checks) == search,
    decreases checks.len(),
{
    if checks.len() > 0 {
        lemma_found_stays(search, checks.drop_first());
    }
}

} // verus!
