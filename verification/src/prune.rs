//! One pruning run over the recorded log: identifiers are processed in stored
//! order; an owned image is removed by the caller, and a confirmed removal
//! persists the remaining suffix of the log — everything after the removed
//! position, which also drops identifiers skipped earlier in the run.

use vstd::prelude::*;

use crate::meta::is_owned;
use crate::meta::spec_owned;
use crate::meta::Meta;

verus! {

/// What a failed inspection means for the run.
#[derive(Clone, Copy, Debug, PartialEq, Eq, Structural)]
pub enum InspectFailurePolicy {
    /// The whole run aborts.
    Fatal,
    /// The image is treated as already gone: the log shrinks as after a
    /// confirmed removal.
    AssumeRemoved,
}

/// The state of one pruning run: the log as loaded at its start, and the
/// position of the identifier being processed.
pub struct PruneRun {
    log: Vec<String>,
    idx: usize,
}

impl PruneRun {
    /// The log this run walks, as loaded at its start.
    pub closed spec fn log_view(self) -> Seq<Seq<char>> {
        self.log.deep_view()
    }

    /// The position of the identifier being processed.
    pub closed spec fn position(self) -> int {
        self.idx as int
    }

    /// The position never leaves the log.
    pub closed spec fn wf(self) -> bool {
        self.idx <= self.log@.len() && self.log@.len() == self.log.deep_view().len()
    }

    /// Whether every identifier of the run still waits or has been passed.
    pub open spec fn done(self) -> bool {
        self.position() >= self.log_view().len()
    }

    /// Starts a run over the given log, at its first identifier.
    pub fn new(log: Vec<String>) -> (r: PruneRun)
        ensures
            r.wf(),
            r.log_view() == log.deep_view(),
            r.position() == 0,
    {
        PruneRun { log, idx: 0 }
    }

    /// The identifier to inspect next, or `None` when the run is done.
    pub fn current(&self) -> (r: Option<String>)
        requires
            self.wf(),
        ensures
            !self.done() ==> {
                &&& r matches Some(h)
                &&& h@ == self.log_view()[self.position()]
            },
            self.done() ==> r is None,
    {
        if self.idx < self.log.len() {
            proof {
                assert(self.log.deep_view()[self.idx as int] == self.log@[self.idx as int]@);
            }
            Some(self.log[self.idx].clone())
        } else {
            None
        }
    }

    /// Moves the run past the current identifier.
    fn advance(&mut self)
        requires
            old(self).wf(),
            !old(self).done(),
        ensures
            final(self).wf(),
            final(self).log_view() == old(self).log_view(),
            final(self).position() == old(self).position() + 1,
    {
        let n = self.log.len();
        proof {
            assert(self.idx < n);
        }
        self.idx = self.idx + 1;
    }

    /// Judges the inspected metadata of the current identifier. Returns
    /// whether the image is owned and must be removed; a skipped (not owned)
    /// identifier stays recorded and the run moves on.
    pub fn decide(&mut self, metadata: &Meta) -> (r: bool)
        requires
            old(self).wf(),
            !old(self).done(),
        ensures
            final(self).wf(),
            r == spec_owned(*metadata),
            final(self).log_view() == old(self).log_view(),
            !r ==> final(self).position() == old(self).position() + 1,
            r ==> final(self).position() == old(self).position(),
    {
        let owned = is_owned(metadata);
        if !owned {
            self.advance();
        }
        owned
    }

    /// The rest of the log after the current position: what the store must
    /// hold once the current identifier's removal is confirmed.
    fn suffix_after_current(&self) -> (r: Vec<String>)
        requires
            self.wf(),
            !self.done(),
        ensures
            r.deep_view() == self.log_view().subrange(
                self.position() + 1,
                self.log_view().len() as int,
            ),
    {
        broadcast use vstd::std_specs::vec::group_vec_axioms;

        let ghost dv = self.log.deep_view();
        let n = self.log.len();
        proof {
            assert(self.idx < n);
        }
        let mut r: Vec<String> = Vec::new();
        let mut k: usize = self.idx + 1;
        proof {
            assert(r.deep_view() =~~= dv.subrange(self.idx + 1, self.idx + 1));
        }
        while k < self.log.len()
            invariant
                self.idx + 1 <= k <= self.log@.len(),
                dv == self.log.deep_view(),
                dv.len() == self.log@.len(),
                r.deep_view() == dv.subrange(self.idx + 1, k as int),
            decreases self.log@.len() - k,
        {
            let ghost pre = r.deep_view();
            r.push(self.log[k].clone());
            proof {
                assert(dv[k as int] == self.log@[k as int]@);
                assert(r.deep_view() =~~= pre.push(dv[k as int]));
                assert(pre.push(dv[k as int]) =~~= dv.subrange(self.idx + 1, k + 1));
            }
            k += 1;
        }
        r
    }

    /// Notes that the backend confirmed the removal of the current
    /// identifier, and returns the log the store must now hold: exactly the
    /// suffix after the removed position.
    pub fn note_removed(&mut self) -> (r: Vec<String>)
        requires
            old(self).wf(),
            !old(self).done(),
        ensures
            final(self).wf(),
            r.deep_view() == old(self).log_view().subrange(
                old(self).position() + 1,
                old(self).log_view().len() as int,
            ),
            final(self).log_view() == old(self).log_view(),
            final(self).position() == old(self).position() + 1,
    {
        let r = self.suffix_after_current();
        self.advance();
        r
    }

    /// Notes that the backend refused the removal: the identifier stays
    /// recorded and the run moves on.
    pub fn note_remove_failed(&mut self)
        requires
            old(self).wf(),
            !old(self).done(),
        ensures
            final(self).wf(),
            final(self).log_view() == old(self).log_view(),
            final(self).position() == old(self).position() + 1,
    {
        self.advance();
    }

    /// Notes that inspecting the current identifier failed. Under the fatal
    /// policy the run aborts with `None` and nothing may be persisted; under
    /// the other policy the image counts as already gone and the returned log
    /// must be persisted, as after a confirmed removal.
    pub fn note_inspect_failed(&mut self, policy: InspectFailurePolicy) -> (r: Option<
        Vec<String>,
    >)
        requires
            old(self).wf(),
            !old(self).done(),
        ensures
            final(self).wf(),
            final(self).log_view() == old(self).log_view(),
            policy == InspectFailurePolicy::Fatal ==> r is None && *final(self) == *old(self),
            policy == InspectFailurePolicy::AssumeRemoved ==> {
                &&& r matches Some(v) && v.deep_view() == old(self).log_view().subrange(
                    old(self).position() + 1,
                    old(self).log_view().len() as int,
                )
                &&& final(self).position() == old(self).position() + 1
            },
    {
        match policy {
            InspectFailurePolicy::Fatal => None,
            InspectFailurePolicy::AssumeRemoved => Some(self.note_removed()),
        }
    }
}

/// After a confirmed removal the persisted suffix never holds the removed
/// identifier, provided the log lists each identifier once.
pub proof fn lemma_suffix_omits_removed(log: Seq<Seq<char>>, i: int)
    requires
        0 <= i < log.len(),
        forall|j: int, k: int| 0 <= j < k < log.len() ==> log[j] != log[k],
    ensures
        !log.subrange(i + 1, log.len() as int).contains(log[i]),
{
    let suffix = log.subrange(i + 1, log.len() as int);
    assert forall|k: int| 0 <= k < suffix.len() implies suffix[k] != log[i] by {
        assert(suffix[k] == log[i + 1 + k]);
    }
}

} // verus!
