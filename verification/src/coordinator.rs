//! The retry loop around submission and confirmation, as a machine that is
//! told what happened and says what to do next. It performs no I/O itself.

use vstd::prelude::*;
use solana_program::instruction::Instruction;
use solana_sdk::signature::Signature;
use crate::assembler::{assemble, bundle_for, AssembleError, Bundle, RecencyCheckpoint, TIP_LAMPORTS};
use crate::miner::Miner;
use crate::poller::{ConfirmationPoller, Verdict, CONFIRM_DELAY_MS, CONFIRM_RETRIES};
use crate::status::PollReply;

verus! {

/// Bundles that one request may hand to the relay.
pub const GATEWAY_RETRIES: usize = 4;

/// The budgets of one request.
#[derive(Clone, Copy, Debug, PartialEq, Eq)]
pub struct RetryPolicy {
    /// Most bundles to submit.
    pub gateway_retries: usize,
    /// Most polls after each accepted bundle.
    pub confirm_retries: usize,
    /// Take the relay's acceptance for success, without polling.
    pub skip_confirm: bool,
}

/// What the coordinator is waiting to be told.
#[derive(Clone, Copy, Debug, PartialEq, Eq)]
pub enum Phase {
    AwaitBalance,
    AwaitCheckpoint,
    AwaitRelay,
    AwaitStatus,
    Finished,
}

/// What happened outside.
#[derive(Clone, Debug, PartialEq, Eq)]
pub enum Event {
    /// The fee payer's balance, in lamports.
    Balance(u64),
    /// A checkpoint just fetched from the ledger.
    Checkpoint(RecencyCheckpoint),
    /// The relay acknowledged the bundle.
    RelayAccepted,
    /// The relay refused the bundle or could not be reached.
    RelayRejected,
    /// A status query came back.
    Polled(PollReply),
}

/// A successful end, and how much it is worth.
#[derive(Clone, Copy, Debug, PartialEq, Eq)]
pub struct Receipt {
    pub signature: Signature,
    /// The ledger reported the transaction confirmed or finalized. Without
    /// this, only the relay's acceptance is known.
    pub confirmed: bool,
}

/// A permanent failure.
#[derive(Clone, Copy, Debug, PartialEq, Eq)]
pub enum SendError {
    /// The fee payer holds nothing.
    InsufficientBalance,
    /// Every attempt the policy allows was made, and none landed.
    RetriesExhausted,
    /// The transactions could not be built.
    Assembly(AssembleError),
}

/// How one attempt ended.
#[derive(Clone, Copy, Debug, PartialEq, Eq)]
pub enum AttemptOutcome {
    /// The relay refused the bundle or could not be reached.
    Rejected,
    /// The relay took the bundle, and no confirmation was asked for.
    Accepted,
    /// The ledger reported the transaction confirmed or finalized.
    Landed,
    /// The polls ran out before the transaction was seen to land.
    NotLanded,
}

/// What there is to report of a finished attempt.
#[derive(Clone, Copy, Debug, PartialEq, Eq)]
pub struct AttemptRecord {
    pub signature: Signature,
    /// Which attempt it was, counting from one.
    pub attempt: usize,
    pub outcome: AttemptOutcome,
}

/// What to do next.
#[derive(Debug, PartialEq, Eq)]
pub enum Action {
    /// Ask the ledger for the fee payer's balance.
    FetchBalance,
    /// Ask the ledger for a fresh checkpoint.
    FetchCheckpoint,
    /// Hand the bundle to the relay. `attempt` counts from one.
    Submit { attempt: usize, bundle: Bundle },
    /// Wait `delay_ms`, then ask the ledger for the status of `signature`.
    Poll { signature: Signature, delay_ms: u64 },
    /// Stop.
    Finish(Result<Receipt, SendError>),
}

/// The state of one request between two events.
#[derive(Clone, Copy, Debug, PartialEq, Eq)]
pub struct RetryCoordinator {
    pub policy: RetryPolicy,
    pub phase: Phase,
    /// Bundles handed out for submission so far.
    pub attempts: usize,
    pub poller: ConfirmationPoller,
    /// The primary signature of the bundle last handed out.
    pub in_flight: Option<Signature>,
    /// The last attempt that came to an end, for reporting.
    pub last_attempt: Option<AttemptRecord>,
}

impl SendError {
    /// The error in words.
    pub open spec fn words(self) -> Seq<char> {
        match self {
            SendError::InsufficientBalance => "Insufficient SOL balance"@,
            SendError::RetriesExhausted => "Max retries"@,
            SendError::Assembly(AssembleError::TooLarge) => "Transaction too large"@,
            SendError::Assembly(AssembleError::SigningFailed) => "Transaction not signed"@,
        }
    }

    /// The error in words, for whoever asked for the submission.
    pub fn message(&self) -> (text: String)
        ensures
            text@ == self.words(),
    {
        match self {
            SendError::InsufficientBalance => "Insufficient SOL balance".to_string(),
            SendError::RetriesExhausted => "Max retries".to_string(),
            SendError::Assembly(AssembleError::TooLarge) => "Transaction too large".to_string(),
            SendError::Assembly(AssembleError::SigningFailed) => "Transaction not signed".to_string(),
        }
    }
}

impl RetryPolicy {
    /// The usual budgets.
    pub open spec fn usual(skip_confirm: bool) -> RetryPolicy {
        RetryPolicy {
            gateway_retries: GATEWAY_RETRIES,
            confirm_retries: CONFIRM_RETRIES,
            skip_confirm,
        }
    }

    /// The usual budgets, with or without confirmation.
    pub fn standard(skip_confirm: bool) -> (policy: RetryPolicy)
        ensures
            policy == RetryPolicy::usual(skip_confirm),
    {
        RetryPolicy {
            gateway_retries: GATEWAY_RETRIES,
            confirm_retries: CONFIRM_RETRIES,
            skip_confirm,
        }
    }
}

impl RetryCoordinator {
    /// The budgets are respected and the phase has what it needs.
    pub open spec fn wf(self) -> bool {
        &&& self.attempts <= self.policy.gateway_retries
        &&& self.phase is AwaitCheckpoint ==> self.attempts < self.policy.gateway_retries
        &&& self.phase is AwaitRelay || self.phase is AwaitStatus ==> self.in_flight is Some
        &&& self.phase is AwaitStatus ==> self.poller.open() && self.poller.budget
            == self.policy.confirm_retries && !self.policy.skip_confirm
        &&& self.last_attempt matches Some(record) ==> record.attempt <= self.attempts
    }

    /// The coordinator at the start of a request.
    pub open spec fn initial(policy: RetryPolicy) -> RetryCoordinator {
        RetryCoordinator {
            policy,
            phase: Phase::AwaitBalance,
            attempts: 0,
            poller: ConfirmationPoller { budget: policy.confirm_retries, polls: 0 },
            in_flight: None,
            last_attempt: None,
        }
    }

    /// The events that the current phase waits for.
    pub open spec fn expects(self, event: Event) -> bool {
        match self.phase {
            Phase::AwaitBalance => event is Balance,
            Phase::AwaitCheckpoint => event is Checkpoint,
            Phase::AwaitRelay => event is RelayAccepted || event is RelayRejected,
            Phase::AwaitStatus => event is Polled,
            Phase::Finished => false,
        }
    }

    /// The coordinator stopped, with the result it stopped on.
    pub open spec fn finish(self, result: Result<Receipt, SendError>) -> (RetryCoordinator, Action) {
        (RetryCoordinator { phase: Phase::Finished, ..self }, Action::Finish(result))
    }

    /// The coordinator with the attempt in flight put on record as ended.
    pub open spec fn closed(self, outcome: AttemptOutcome) -> RetryCoordinator {
        RetryCoordinator {
            last_attempt: Some(
                AttemptRecord { signature: self.in_flight->0, attempt: self.attempts, outcome },
            ),
            ..self
        }
    }

    /// The start of the next attempt, if the policy grants one.
    pub open spec fn next_attempt(self) -> (RetryCoordinator, Action) {
        if self.attempts >= self.policy.gateway_retries {
            self.finish(Err(SendError::RetriesExhausted))
        } else {
            (RetryCoordinator { phase: Phase::AwaitCheckpoint, ..self }, Action::FetchCheckpoint)
        }
    }

    /// The next state and what to do, given what happened.
    pub open spec fn react(self, miner: Miner, ixs: Seq<Instruction>, event: Event) -> (
        RetryCoordinator,
        Action,
    ) {
        match event {
            Event::Balance(lamports) => if lamports == 0 {
                self.finish(Err(SendError::InsufficientBalance))
            } else {
                self.next_attempt()
            },
            Event::Checkpoint(checkpoint) => match bundle_for(
                ixs,
                miner.signer,
                miner.tip_account,
                TIP_LAMPORTS,
                checkpoint,
            ) {
                Err(e) => self.finish(Err(SendError::Assembly(e))),
                Ok(bundle) => (
                    RetryCoordinator {
                        phase: Phase::AwaitRelay,
                        attempts: (self.attempts + 1) as usize,
                        in_flight: Some(bundle.primary.signature),
                        ..self
                    },
                    Action::Submit { attempt: (self.attempts + 1) as usize, bundle },
                ),
            },
            Event::RelayRejected => self.closed(AttemptOutcome::Rejected).next_attempt(),
            Event::RelayAccepted => if self.policy.skip_confirm {
                self.closed(AttemptOutcome::Accepted).finish(
                    Ok(Receipt { signature: self.in_flight->0, confirmed: false }),
                )
            } else {
                let fresh = RetryCoordinator {
                    poller: ConfirmationPoller { budget: self.policy.confirm_retries, polls: 0 },
                    ..self
                };
                if self.policy.confirm_retries == 0 {
                    fresh.closed(AttemptOutcome::NotLanded).next_attempt()
                } else {
                    (
                        RetryCoordinator { phase: Phase::AwaitStatus, ..fresh },
                        Action::Poll { signature: self.in_flight->0, delay_ms: CONFIRM_DELAY_MS },
                    )
                }
            },
            Event::Polled(reply) => {
                let (poller, verdict) = self.poller.next(reply);
                let polled = RetryCoordinator { poller, ..self };
                match verdict {
                    Verdict::Landed => polled.closed(AttemptOutcome::Landed).finish(
                        Ok(Receipt { signature: self.in_flight->0, confirmed: true }),
                    ),
                    Verdict::Pending => (
                        polled,
                        Action::Poll { signature: self.in_flight->0, delay_ms: CONFIRM_DELAY_MS },
                    ),
                    Verdict::NotLanded => polled.closed(AttemptOutcome::NotLanded).next_attempt(),
                }
            },
        }
    }

    /// A coordinator for a new request, and its first demand: the balance.
    pub fn new(policy: RetryPolicy) -> (r: (RetryCoordinator, Action))
        ensures
            r.0 == RetryCoordinator::initial(policy),
            r.0.wf(),
            r.1 is FetchBalance,
    {
        (
            RetryCoordinator {
                policy,
                phase: Phase::AwaitBalance,
                attempts: 0,
                poller: ConfirmationPoller::new(policy.confirm_retries),
                in_flight: None,
                last_attempt: None,
            },
            Action::FetchBalance,
        )
    }

    /// Whether `event` is one the current phase waits for.
    pub fn accepts(&self, event: &Event) -> (b: bool)
        ensures
            b == self.expects(*event),
    {
        match self.phase {
            Phase::AwaitBalance => matches!(event, Event::Balance(_)),
            Phase::AwaitCheckpoint => matches!(event, Event::Checkpoint(_)),
            Phase::AwaitRelay => matches!(event, Event::RelayAccepted | Event::RelayRejected),
            Phase::AwaitStatus => matches!(event, Event::Polled(_)),
            Phase::Finished => false,
        }
    }

    /// Whether the request has ended.
    pub fn is_finished(&self) -> (b: bool)
        ensures
            b == (self.phase is Finished),
    {
        matches!(self.phase, Phase::Finished)
    }

    fn stop(&mut self, result: Result<Receipt, SendError>) -> (action: Action)
        ensures
            (*final(self), action) == old(self).finish(result),
    {
        self.phase = Phase::Finished;
        Action::Finish(result)
    }

    fn close(&mut self, outcome: AttemptOutcome)
        requires
            old(self).in_flight is Some,
        ensures
            *final(self) == old(self).closed(outcome),
    {
        self.last_attempt = Some(
            AttemptRecord { signature: self.in_flight.unwrap(), attempt: self.attempts, outcome },
        );
    }

    fn begin_attempt(&mut self) -> (action: Action)
        ensures
            (*final(self), action) == old(self).next_attempt(),
    {
        if self.attempts >= self.policy.gateway_retries {
            self.stop(Err(SendError::RetriesExhausted))
        } else {
            self.phase = Phase::AwaitCheckpoint;
            Action::FetchCheckpoint
        }
    }

    /// Takes in what happened and says what to do next.
    ///
    /// A balance of zero ends the request before anything is submitted.
    /// Every checkpoint leads to a bundle built against that checkpoint and
    /// no other. A rejection by the relay, or a confirmation that times
    /// out, leads to a new checkpoint while the policy grants attempts, and
    /// to `RetriesExhausted` after. Whenever an attempt ends, `last_attempt`
    /// says how.
    pub fn step(&mut self, miner: &Miner, ixs: &Vec<Instruction>, event: Event) -> (action: Action)
        requires
            old(self).wf(),
            old(self).expects(event),
            ixs@.len() >= 1,
        ensures
            (*final(self), action) == old(self).react(*miner, ixs@, event),
            final(self).wf(),
            final(self).policy == old(self).policy,
            action is Submit ==> final(self).attempts == old(self).attempts + 1,
            !(action is Submit) ==> final(self).attempts == old(self).attempts,
            action matches Action::Submit { bundle, .. } ==> event matches Event::Checkpoint(
                checkpoint,
            ) && bundle.wf() && bundle.primary.checkpoint == checkpoint,
            action is Finish <==> final(self).phase is Finished,
    {
        match event {
            Event::Balance(lamports) => {
                if lamports == 0 {
                    self.stop(Err(SendError::InsufficientBalance))
                } else {
                    self.begin_attempt()
                }
            },
            Event::Checkpoint(checkpoint) => {
                match assemble(ixs, &miner.signer, &miner.tip_account, TIP_LAMPORTS, checkpoint) {
                    Err(e) => self.stop(Err(SendError::Assembly(e))),
                    Ok(bundle) => {
                        self.attempts = self.attempts + 1;
                        self.in_flight = Some(bundle.primary.signature);
                        self.phase = Phase::AwaitRelay;
                        Action::Submit { attempt: self.attempts, bundle }
                    },
                }
            },
            Event::RelayRejected => {
                self.close(AttemptOutcome::Rejected);
                self.begin_attempt()
            },
            Event::RelayAccepted => {
                let signature = self.in_flight.unwrap();
                if self.policy.skip_confirm {
                    self.close(AttemptOutcome::Accepted);
                    self.stop(Ok(Receipt { signature, confirmed: false }))
                } else {
                    self.poller = ConfirmationPoller::new(self.policy.confirm_retries);
                    if self.poller.is_open() {
                        self.phase = Phase::AwaitStatus;
                        Action::Poll { signature, delay_ms: CONFIRM_DELAY_MS }
                    } else {
                        self.close(AttemptOutcome::NotLanded);
                        self.begin_attempt()
                    }
                }
            },
            Event::Polled(reply) => {
                let signature = self.in_flight.unwrap();
                match self.poller.record(&reply) {
                    Verdict::Landed => {
                        self.close(AttemptOutcome::Landed);
                        self.stop(Ok(Receipt { signature, confirmed: true }))
                    },
                    Verdict::Pending => Action::Poll { signature, delay_ms: CONFIRM_DELAY_MS },
                    Verdict::NotLanded => {
                        self.close(AttemptOutcome::NotLanded);
                        self.begin_attempt()
                    },
                }
            },
        }
    }
}

} // verus!
