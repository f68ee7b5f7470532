//! Operations made of several requests, performed one after the other.
//!
//! A transfer hands out its requests in order; the caller performs each one
//! and records whether the driver acknowledged it. A refused request ends the
//! transfer: nothing after it is handed out, and the transfer has failed.

use vstd::prelude::*;

use crate::device::{IoRequest, IoRequestView};

verus! {

/// What a [`Transfer`] holds: its requests, how many of them were
/// acknowledged, and whether one was refused.
pub struct TransferView {
    pub requests: Seq<IoRequestView>,
    pub sent: nat,
    pub failed: bool,
}

impl TransferView {
    /// The request to perform next, if any.
    pub open spec fn pending(self) -> Option<IoRequestView> {
        if !self.failed && self.sent < self.requests.len() {
            Some(self.requests[self.sent as int])
        } else {
            None
        }
    }

    /// The transfer after the outcome of its pending request; with nothing
    /// pending, an outcome changes nothing.
    pub open spec fn step(self, acknowledged: bool) -> TransferView {
        if self.pending() is None {
            self
        } else if acknowledged {
            TransferView { requests: self.requests, sent: self.sent + 1, failed: self.failed }
        } else {
            TransferView { requests: self.requests, sent: self.sent, failed: true }
        }
    }

    /// The transfer after a series of outcomes, first to last.
    pub open spec fn run(self, outcomes: Seq<bool>) -> TransferView
        decreases outcomes.len(),
    {
        if outcomes.len() == 0 {
            self
        } else {
            self.step(outcomes[0]).run(outcomes.drop_first())
        }
    }

    /// Every request was acknowledged.
    pub open spec fn completed(self) -> bool {
        !self.failed && self.sent == self.requests.len()
    }
}

/// A sequence of requests performed in order, stopping at the first refusal.
pub struct Transfer {
    requests: Vec<IoRequest>,
    sent: usize,
    failed: bool,
}

impl View for Transfer {
    type V = TransferView;

    closed spec fn view(&self) -> TransferView {
        TransferView {
            requests: self.requests@.map_values(|r: IoRequest| r@),
            sent: self.sent as nat,
            failed: self.failed,
        }
    }
}

impl Transfer {
    #[verifier::type_invariant]
    spec fn cursor_in_bounds(self) -> bool {
        self.sent <= self.requests@.len()
    }

    /// A transfer of `requests`, none of them performed yet.
    pub fn new(requests: Vec<IoRequest>) -> (transfer: Self)
        ensures
            transfer@.requests == requests@.map_values(|r: IoRequest| r@),
            transfer@.sent == 0,
            !transfer@.failed,
    {
        Transfer { requests, sent: 0, failed: false }
    }

    /// The request to perform next, if any.
    pub fn next_request(&self) -> (request: Option<&IoRequest>)
        ensures
            match request {
                Some(r) => self@.pending() == Some(r@),
                None => self@.pending() is None,
            },
    {
        proof {
            use_type_invariant(self);
        }
        if !self.failed && self.sent < self.requests.len() {
            Some(&self.requests[self.sent])
        } else {
            None
        }
    }

    /// Records the outcome of the pending request.
    pub fn record(&mut self, acknowledged: bool)
        ensures
            final(self)@ == old(self)@.step(acknowledged),
    {
        proof {
            use_type_invariant(&*self);
        }
        if !self.failed && self.sent < self.requests.len() {
            if acknowledged {
                self.sent = self.sent + 1;
            } else {
                self.failed = true;
            }
        }
    }

    /// Every request was acknowledged.
    pub fn is_complete(&self) -> (complete: bool)
        ensures
            complete == self@.completed(),
    {
        proof {
            use_type_invariant(self);
        }
        !self.failed && self.sent == self.requests.len()
    }

    /// A request was refused.
    pub fn has_failed(&self) -> (failed: bool)
        ensures
            failed == self@.failed,
    {
        self.failed
    }
}

/// Once a transfer has failed, no outcome changes it: nothing more is handed
/// out.
pub proof fn lemma_failure_is_final(t: TransferView, outcomes: Seq<bool>)
    requires
        t.failed,
    ensures
        t.run(outcomes) == t,
    decreases outcomes.len(),
{
    if outcomes.len() > 0 {
        lemma_failure_is_final(t.step(outcomes[0]), outcomes.drop_first());
    }
}

/// A transfer hands out its requests in order, each once: whatever the
/// outcomes, the requests it advanced past were acknowledged by the outcomes
/// at their positions, it failed only on a refusal of a request that was
/// pending, and otherwise it stopped only when its requests or the outcomes
/// ran out.
pub proof fn lemma_run_in_order(t: TransferView, outcomes: Seq<bool>)
    requires
        !t.failed,
        t.sent <= t.requests.len(),
    ensures
        ({
            let r = t.run(outcomes);
            &&& r.requests == t.requests
            &&& t.sent <= r.sent <= t.requests.len()
            &&& r.sent - t.sent <= outcomes.len()
            &&& forall|i: int| 0 <= i < r.sent - t.sent ==> #[trigger] outcomes[i]
            &&& r.failed ==> (r.sent < t.requests.len() && r.sent - t.sent < outcomes.len()
                && !outcomes[r.sent - t.sent])
            &&& !r.failed ==> (r.sent == t.requests.len() || r.sent - t.sent == outcomes.len())
        }),
    decreases outcomes.len(),
{
    if outcomes.len() > 0 {
        let s = t.step(outcomes[0]);
        let rest = outcomes.drop_first();
        if s.failed {
            lemma_failure_is_final(s, rest);
        } else {
            lemma_run_in_order(s, rest);
            let r = s.run(rest);
            assert forall|i: int| 0 <= i < r.sent - t.sent implies #[trigger] outcomes[i] by {
                if i > 0 {
                    assert(outcomes[i] == rest[i - 1]);
                }
            }
            if r.failed {
                assert(outcomes[r.sent - t.sent] == rest[r.sent - s.sent]);
            }
        }
    }
}

/// A transfer that starts afresh completes exactly when each of its requests
/// is acknowledged, in order.
pub proof fn lemma_completes_iff_all_acknowledged(t: TransferView, outcomes: Seq<bool>)
    requires
        t.sent == 0,
        !t.failed,
    ensures
        t.run(outcomes).completed() <==> (t.requests.len() <= outcomes.len() && forall|i: int|
            0 <= i < t.requests.len() ==> #[trigger] outcomes[i]),
{
    lemma_run_in_order(t, outcomes);
}

} // verus!
