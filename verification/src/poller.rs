//! Polling for a signature under a fixed budget of queries.

use vstd::prelude::*;
use crate::status::PollReply;

verus! {

/// Polls granted to one submission before it counts as not landed.
pub const CONFIRM_RETRIES: usize = 4;

/// Milliseconds to wait before each poll.
pub const CONFIRM_DELAY_MS: u64 = 2000;

/// What a poll decided.
#[derive(Clone, Copy, Debug, PartialEq, Eq)]
pub enum Verdict {
    /// The transaction is confirmed or finalized.
    Landed,
    /// Nothing conclusive yet, and polls remain.
    Pending,
    /// The budget is spent without a landing. This is a timeout, not a
    /// failure: the transaction may still be in flight.
    NotLanded,
}

/// Where a run of polls stands, with the number of polls it took.
#[derive(Clone, Copy, Debug, PartialEq, Eq)]
pub enum PollOutcome {
    Landed { polls: usize },
    Pending { polls: usize },
    NotLanded { polls: usize },
}

/// Counts polls against a budget.
#[derive(Clone, Copy, Debug, PartialEq, Eq)]
pub struct ConfirmationPoller {
    pub budget: usize,
    pub polls: usize,
}

/// Where polling stands after `replies`, taken in order by a poller that
/// starts with `budget` polls. Replies that come after a decision are not
/// looked at.
pub open spec fn poll_outcome(budget: usize, replies: Seq<PollReply>) -> PollOutcome
    decreases replies.len(),
{
    if budget == 0 {
        PollOutcome::NotLanded { polls: 0 }
    } else if replies.len() == 0 {
        PollOutcome::Pending { polls: 0 }
    } else {
        match poll_outcome(budget, replies.drop_last()) {
            PollOutcome::Pending { polls } => {
                let (poller, verdict) = (ConfirmationPoller { budget, polls }).next(replies.last());
                match verdict {
                    Verdict::Landed => PollOutcome::Landed { polls: poller.polls },
                    Verdict::NotLanded => PollOutcome::NotLanded { polls: poller.polls },
                    Verdict::Pending => PollOutcome::Pending { polls: poller.polls },
                }
            },
            decided => decided,
        }
    }
}

impl ConfirmationPoller {
    /// No poll has been spent beyond the budget.
    pub open spec fn wf(self) -> bool {
        self.polls <= self.budget
    }

    /// Polls remain.
    pub open spec fn open(self) -> bool {
        self.polls < self.budget
    }

    /// The poller and its verdict after one more reply.
    pub open spec fn next(self, reply: PollReply) -> (ConfirmationPoller, Verdict) {
        let polled = ConfirmationPoller { budget: self.budget, polls: (self.polls + 1) as usize };
        if reply.landed() {
            (polled, Verdict::Landed)
        } else if polled.polls >= self.budget {
            (polled, Verdict::NotLanded)
        } else {
            (polled, Verdict::Pending)
        }
    }

    /// A poller with `budget` polls to spend.
    pub fn new(budget: usize) -> (poller: ConfirmationPoller)
        ensures
            poller == (ConfirmationPoller { budget, polls: 0 }),
            poller.wf(),
    {
        ConfirmationPoller { budget, polls: 0 }
    }

    /// Whether polls remain.
    pub fn is_open(&self) -> (b: bool)
        ensures
            b == self.open(),
    {
        self.polls < self.budget
    }

    /// Takes one reply into account. A landing ends the polling at once,
    /// whatever remains of the budget; any other reply, a failed query too,
    /// spends one poll.
    pub fn record(&mut self, reply: &PollReply) -> (verdict: Verdict)
        requires
            old(self).open(),
        ensures
            (*final(self), verdict) == old(self).next(*reply),
            final(self).wf(),
            final(self).polls == old(self).polls + 1,
            final(self).budget == old(self).budget,
            verdict is Landed <==> reply.landed(),
            verdict is NotLanded <==> !reply.landed() && final(self).polls == final(self).budget,
    {
        self.polls = self.polls + 1;
        if reply.is_landed() {
            Verdict::Landed
        } else if self.polls >= self.budget {
            Verdict::NotLanded
        } else {
            Verdict::Pending
        }
    }

    /// Runs a whole list of replies through a fresh poller.
    pub fn conclude(budget: usize, replies: &Vec<PollReply>) -> (outcome: PollOutcome)
        ensures
            outcome == poll_outcome(budget, replies@),
    {
        let mut poller = ConfirmationPoller::new(budget);
        if !poller.is_open() {
            return PollOutcome::NotLanded { polls: 0 };
        }
        let mut i: usize = 0;
        while i < replies.len()
            invariant
                i <= replies.len(),
                poller.budget == budget,
                poller.polls == i,
                poller.open(),
                poll_outcome(budget, replies@.take(i as int)) == (PollOutcome::Pending {
                    polls: i,
                }),
            decreases replies.len() - i,
        {
            proof {
                assert(replies@.take(i + 1).drop_last() =~= replies@.take(i as int));
                assert(replies@.take(i + 1).last() == replies@[i as int]);
            }
            match poller.record(&replies[i]) {
                Verdict::Landed => {
                    proof {
                        lemma_decided_stays(budget, replies@, i + 1);
                    }
                    return PollOutcome::Landed { polls: i + 1 };
                },
                Verdict::NotLanded => {
                    proof {
                        lemma_decided_stays(budget, replies@, i + 1);
                    }
                    return PollOutcome::NotLanded { polls: i + 1 };
                },
                Verdict::Pending => {},
            }
            i = i + 1;
        }
        proof {
            assert(replies@.take(i as int) =~= replies@);
        }
        PollOutcome::Pending { polls: i }
    }
}

/// Once a prefix of the replies has decided the outcome, later replies do
/// not change it.
pub proof fn lemma_decided_stays(budget: usize, replies: Seq<PollReply>, n: int)
    requires
        0 <= n <= replies.len(),
        !(poll_outcome(budget, replies.take(n)) is Pending),
    ensures
        poll_outcome(budget, replies) == poll_outcome(budget, replies.take(n)),
    decreases replies.len() - n,
{
    if n < replies.len() {
        assert(replies.take(n + 1).drop_last() =~= replies.take(n));
        lemma_decided_stays(budget, replies, n + 1);
    } else {
        assert(replies.take(n) =~= replies);
    }
}

/// As long as no reply shows a landing and the budget is not reached, the
/// outcome is pending, with one poll spent for each reply.
pub proof fn lemma_pending_while_unlanded(budget: usize, replies: Seq<PollReply>)
    requires
        replies.len() < budget,
        forall|j: int| 0 <= j < replies.len() ==> !(#[trigger] replies[j]).landed(),
    ensures
        poll_outcome(budget, replies) == (PollOutcome::Pending { polls: replies.len() as usize }),
    decreases replies.len(),
{
    if replies.len() > 0 {
        let shorter = replies.drop_last();
        assert forall|j: int| 0 <= j < shorter.len() implies !(#[trigger] shorter[j]).landed() by {
            assert(shorter[j] == replies[j]);
        }
        lemma_pending_while_unlanded(budget, shorter);
    }
}

/// If the status never becomes confirmed or finalized, polling ends after
/// exactly `budget` polls, and ends as not landed.
pub proof fn lemma_budget_exhausts(budget: usize, replies: Seq<PollReply>)
    requires
        replies.len() >= budget,
        forall|j: int| 0 <= j < budget ==> !(#[trigger] replies[j]).landed(),
    ensures
        poll_outcome(budget, replies) == (PollOutcome::NotLanded { polls: budget }),
{
    if budget > 0 {
        let spent = replies.take(budget as int);
        let before = spent.drop_last();
        assert forall|j: int| 0 <= j < before.len() implies !(#[trigger] before[j]).landed() by {
            assert(before[j] == replies[j]);
        }
        lemma_pending_while_unlanded(budget, before);
        assert(spent.last() == replies[budget - 1]);
        lemma_decided_stays(budget, replies, budget as int);
    }
}

/// Polling succeeds on the first reply that shows a landing, after exactly
/// that many polls, whatever remains of the budget and whatever follows.
pub proof fn lemma_first_landing_decides(budget: usize, replies: Seq<PollReply>, k: int)
    requires
        0 <= k < replies.len(),
        k < budget,
        replies[k].landed(),
        forall|j: int| 0 <= j < k ==> !(#[trigger] replies[j]).landed(),
    ensures
        poll_outcome(budget, replies) == (PollOutcome::Landed { polls: (k + 1) as usize }),
{
    let upto = replies.take(k + 1);
    let before = upto.drop_last();
    assert forall|j: int| 0 <= j < before.len() implies !(#[trigger] before[j]).landed() by {
        assert(before[j] == replies[j]);
    }
    lemma_pending_while_unlanded(budget, before);
    assert(upto.last() == replies[k]);
    lemma_decided_stays(budget, replies, k + 1);
}

} // verus!
