//! What holds of every run of the coordinator, whatever the ledger and the
//! relay answer.

use vstd::prelude::*;
use solana_program::instruction::Instruction;
use crate::assembler::{bundle_for, TIP_LAMPORTS};
use crate::coordinator::{Action, Event, RetryCoordinator, RetryPolicy, SendError};
use crate::miner::Miner;

verus! {

/// How many of the actions are submissions.
pub open spec fn submissions(actions: Seq<Action>) -> nat
    decreases actions.len(),
{
    if actions.len() == 0 {
        0
    } else {
        submissions(actions.drop_last()) + if actions.last() is Submit {
            1nat
        } else {
            0nat
        }
    }
}

/// How many of the actions are polls.
pub open spec fn polls(actions: Seq<Action>) -> nat
    decreases actions.len(),
{
    if actions.len() == 0 {
        0
    } else {
        polls(actions.drop_last()) + if actions.last() is Poll {
            1nat
        } else {
            0nat
        }
    }
}

/// The coordinator after a run of events, and the actions it gave, one for
/// each event.
pub open spec fn run(
    start: RetryCoordinator,
    miner: Miner,
    ixs: Seq<Instruction>,
    events: Seq<Event>,
) -> (RetryCoordinator, Seq<Action>)
    decreases events.len(),
{
    if events.len() == 0 {
        (start, Seq::empty())
    } else {
        let (before, actions) = run(start, miner, ixs, events.drop_last());
        let (after, action) = before.react(miner, ixs, events.last());
        (after, actions.push(action))
    }
}

/// Every event of the run came when the coordinator was waiting for it.
pub open spec fn in_turn(
    start: RetryCoordinator,
    miner: Miner,
    ixs: Seq<Instruction>,
    events: Seq<Event>,
) -> bool
    decreases events.len(),
{
    events.len() == 0 || (in_turn(start, miner, ixs, events.drop_last()) && run(
        start,
        miner,
        ixs,
        events.drop_last(),
    ).0.expects(events.last()))
}

/// One step keeps the coordinator well formed and its policy fixed, and
/// counts exactly the bundles it hands out.
pub proof fn lemma_react_keeps_wf(
    c: RetryCoordinator,
    miner: Miner,
    ixs: Seq<Instruction>,
    event: Event,
)
    requires
        c.wf(),
        c.expects(event),
    ensures
        c.react(miner, ixs, event).0.wf(),
        c.react(miner, ixs, event).0.policy == c.policy,
        c.react(miner, ixs, event).1 is Submit ==> c.react(miner, ixs, event).0.attempts
            == c.attempts + 1,
        !(c.react(miner, ixs, event).1 is Submit) ==> c.react(miner, ixs, event).0.attempts
            == c.attempts,
        c.react(miner, ixs, event).1 is Finish <==> c.react(miner, ixs, event).0.phase is Finished,
        c.react(miner, ixs, event).1 is Poll <==> c.react(miner, ixs, event).0.phase is AwaitStatus,
{
}

/// A run in turn keeps the coordinator well formed, gives one action for
/// each event, and hands out exactly as many bundles as `attempts` grows by.
pub proof fn lemma_run_counts(
    start: RetryCoordinator,
    miner: Miner,
    ixs: Seq<Instruction>,
    events: Seq<Event>,
)
    requires
        start.wf(),
        in_turn(start, miner, ixs, events),
    ensures
        run(start, miner, ixs, events).0.wf(),
        run(start, miner, ixs, events).0.policy == start.policy,
        run(start, miner, ixs, events).1.len() == events.len(),
        run(start, miner, ixs, events).0.attempts == start.attempts + submissions(
            run(start, miner, ixs, events).1,
        ),
    decreases events.len(),
{
    if events.len() > 0 {
        lemma_run_counts(start, miner, ixs, events.drop_last());
        let (before, actions) = run(start, miner, ixs, events.drop_last());
        lemma_react_keeps_wf(before, miner, ixs, events.last());
        let action = before.react(miner, ixs, events.last()).1;
        assert(actions.push(action).drop_last() =~= actions);
    }
}

/// However the relay and the ledger answer, a request hands out at most as
/// many bundles as its policy grants.
pub proof fn lemma_attempts_bounded(
    policy: RetryPolicy,
    miner: Miner,
    ixs: Seq<Instruction>,
    events: Seq<Event>,
)
    requires
        in_turn(RetryCoordinator::initial(policy), miner, ixs, events),
    ensures
        submissions(run(RetryCoordinator::initial(policy), miner, ixs, events).1)
            <= policy.gateway_retries,
{
    lemma_run_counts(RetryCoordinator::initial(policy), miner, ixs, events);
}

/// When every granted attempt has been made, the failure of the last one
/// ends the request with `RetriesExhausted`: a rejection by the relay does,
/// and so does a confirmation that times out, on the last poll of the
/// budget or at once where the budget is empty.
pub proof fn lemma_exhaustion(c: RetryCoordinator, miner: Miner, ixs: Seq<Instruction>, event: Event)
    requires
        c.wf(),
        c.attempts == c.policy.gateway_retries,
        c.expects(event),
        event is RelayRejected || (event is RelayAccepted && !c.policy.skip_confirm
            && c.policy.confirm_retries == 0) || (event matches Event::Polled(reply)
            && !reply.landed() && c.poller.polls + 1 == c.poller.budget),
    ensures
        c.react(miner, ixs, event).1 == Action::Finish(Err(SendError::RetriesExhausted)),
        c.react(miner, ixs, event).0.phase is Finished,
        c.react(miner, ixs, event).0.attempts == c.policy.gateway_retries,
{
}

/// A run in turn stays in turn when cut short.
pub proof fn lemma_in_turn_prefix(
    start: RetryCoordinator,
    miner: Miner,
    ixs: Seq<Instruction>,
    events: Seq<Event>,
    n: int,
)
    requires
        in_turn(start, miner, ixs, events),
        0 <= n <= events.len(),
    ensures
        in_turn(start, miner, ixs, events.take(n)),
    decreases events.len(),
{
    if n == events.len() {
        assert(events.take(n) =~= events);
    } else {
        assert(events.drop_last().take(n) =~= events.take(n));
        lemma_in_turn_prefix(start, miner, ixs, events.drop_last(), n);
    }
}

/// With an empty balance the request ends at once with
/// `InsufficientBalance`: the run has that one step, and nothing is ever
/// submitted.
pub proof fn lemma_empty_balance_stops(
    policy: RetryPolicy,
    miner: Miner,
    ixs: Seq<Instruction>,
    events: Seq<Event>,
)
    requires
        events.len() >= 1,
        events[0] == Event::Balance(0),
        in_turn(RetryCoordinator::initial(policy), miner, ixs, events),
    ensures
        events.len() == 1,
        run(RetryCoordinator::initial(policy), miner, ixs, events).1 == seq![
            Action::Finish(Err(SendError::InsufficientBalance)),
        ],
        submissions(run(RetryCoordinator::initial(policy), miner, ixs, events).1) == 0,
{
    let start = RetryCoordinator::initial(policy);
    let first = events.take(1);
    assert(first.drop_last() =~= Seq::<Event>::empty());
    assert(first.last() == events[0]);
    assert(run(start, miner, ixs, Seq::<Event>::empty()) == (start, Seq::<Action>::empty()));
    assert(run(start, miner, ixs, first).0.phase is Finished);
    let stop = Action::Finish(Err(SendError::InsufficientBalance));
    assert(run(start, miner, ixs, first).1 == Seq::<Action>::empty().push(stop));
    assert(Seq::<Action>::empty().push(stop) =~= seq![stop]);
    if events.len() > 1 {
        lemma_in_turn_prefix(start, miner, ixs, events, 2);
        let two = events.take(2);
        assert(two.drop_last() =~= first);
        assert(false);
    }
    assert(first =~= events);
    let actions = run(start, miner, ixs, events).1;
    assert(actions.drop_last() =~= Seq::<Action>::empty());
    assert(submissions(actions.drop_last()) == 0);
}

/// The action that answers the event at place `i` of a run is the
/// coordinator's reaction to that event in the state the events before it
/// left.
pub proof fn lemma_run_at(
    start: RetryCoordinator,
    miner: Miner,
    ixs: Seq<Instruction>,
    events: Seq<Event>,
    i: int,
)
    requires
        0 <= i < events.len(),
    ensures
        run(start, miner, ixs, events).1.len() == events.len(),
        run(start, miner, ixs, events).1[i] == run(start, miner, ixs, events.take(i)).0.react(
            miner,
            ixs,
            events[i],
        ).1,
    decreases events.len(),
{
    lemma_run_len(start, miner, ixs, events);
    lemma_run_len(start, miner, ixs, events.drop_last());
    if i == events.len() - 1 {
        assert(events.take(i) =~= events.drop_last());
    } else {
        lemma_run_at(start, miner, ixs, events.drop_last(), i);
        assert(events.drop_last().take(i) =~= events.take(i));
    }
}

/// A run gives one action for each event.
pub proof fn lemma_run_len(
    start: RetryCoordinator,
    miner: Miner,
    ixs: Seq<Instruction>,
    events: Seq<Event>,
)
    ensures
        run(start, miner, ixs, events).1.len() == events.len(),
    decreases events.len(),
{
    if events.len() > 0 {
        lemma_run_len(start, miner, ixs, events.drop_last());
    }
}

/// Every bundle handed out answers a checkpoint event, and is the bundle
/// built against that very checkpoint: no attempt reuses what an earlier
/// one signed.
pub proof fn lemma_submission_uses_its_checkpoint(
    start: RetryCoordinator,
    miner: Miner,
    ixs: Seq<Instruction>,
    events: Seq<Event>,
    i: int,
)
    requires
        0 <= i < events.len(),
        run(start, miner, ixs, events).1[i] is Submit,
    ensures
        events[i] matches Event::Checkpoint(checkpoint) && bundle_for(
            ixs,
            miner.signer,
            miner.tip_account,
            TIP_LAMPORTS,
            checkpoint,
        ) matches Ok(bundle) && run(start, miner, ixs, events).1[i]->bundle == bundle
            && bundle.primary.checkpoint == checkpoint && bundle.tip.checkpoint == checkpoint,
{
    lemma_run_at(start, miner, ixs, events, i);
}

/// Without the relay's acceptance there is no polling: a run in which the
/// relay never accepts asks for no status.
pub proof fn lemma_no_poll_without_acceptance(
    policy: RetryPolicy,
    miner: Miner,
    ixs: Seq<Instruction>,
    events: Seq<Event>,
)
    requires
        in_turn(RetryCoordinator::initial(policy), miner, ixs, events),
        forall|i: int| 0 <= i < events.len() ==> !(#[trigger] events[i] is RelayAccepted),
    ensures
        polls(run(RetryCoordinator::initial(policy), miner, ixs, events).1) == 0,
        !(run(RetryCoordinator::initial(policy), miner, ixs, events).0.phase is AwaitStatus),
    decreases events.len(),
{
    let start = RetryCoordinator::initial(policy);
    if events.len() > 0 {
        let shorter = events.drop_last();
        assert forall|i: int| 0 <= i < shorter.len() implies !(#[trigger] shorter[i]
            is RelayAccepted) by {
            assert(shorter[i] == events[i]);
        }
        lemma_no_poll_without_acceptance(policy, miner, ixs, shorter);
        lemma_run_counts(start, miner, ixs, shorter);
        let (before, actions) = run(start, miner, ixs, shorter);
        lemma_react_keeps_wf(before, miner, ixs, events.last());
        let action = before.react(miner, ixs, events.last()).1;
        assert(actions.push(action).drop_last() =~= actions);
    }
}

} // verus!
