use ore_cli::poller::{ConfirmationPoller, PollOutcome, Verdict, CONFIRM_DELAY_MS, CONFIRM_RETRIES};
use ore_cli::status::{ConfirmationStatus, PollReply};

fn one(status: ConfirmationStatus) -> PollReply {
    PollReply::Statuses(vec![status])
}

#[test]
fn only_confirmed_and_finalized_have_landed() {
    assert!(!ConfirmationStatus::Unknown.is_landed());
    assert!(!ConfirmationStatus::Processed.is_landed());
    assert!(ConfirmationStatus::Confirmed.is_landed());
    assert!(ConfirmationStatus::Finalized.is_landed());
}

#[test]
fn a_reply_lands_when_any_status_does() {
    assert!(!PollReply::TransportError.is_landed());
    assert!(!PollReply::Statuses(vec![]).is_landed());
    assert!(!one(ConfirmationStatus::Unknown).is_landed());
    assert!(!one(ConfirmationStatus::Processed).is_landed());
    assert!(one(ConfirmationStatus::Confirmed).is_landed());
    assert!(one(ConfirmationStatus::Finalized).is_landed());
    assert!(PollReply::Statuses(vec![
        ConfirmationStatus::Unknown,
        ConfirmationStatus::Processed,
        ConfirmationStatus::Finalized,
    ])
    .is_landed());
    assert!(!PollReply::Statuses(vec![ConfirmationStatus::Unknown, ConfirmationStatus::Processed])
        .is_landed());
}

#[test]
fn usual_poll_budget_and_delay() {
    assert_eq!(CONFIRM_RETRIES, 4);
    assert_eq!(CONFIRM_DELAY_MS, 2000);
}

#[test]
fn new_poller_has_spent_nothing() {
    let poller = ConfirmationPoller::new(4);
    assert_eq!(poller, ConfirmationPoller { budget: 4, polls: 0 });
    assert!(poller.is_open());
    assert!(!ConfirmationPoller::new(0).is_open());
}

#[test]
fn poller_gives_up_after_exactly_the_budget() {
    let mut poller = ConfirmationPoller::new(4);
    for _ in 0..3 {
        assert_eq!(poller.record(&one(ConfirmationStatus::Processed)), Verdict::Pending);
        assert!(poller.is_open());
    }
    assert_eq!(poller.record(&one(ConfirmationStatus::Processed)), Verdict::NotLanded);
    assert_eq!(poller.polls, 4);
    assert!(!poller.is_open());
}

#[test]
fn poller_lands_on_the_first_success() {
    let mut poller = ConfirmationPoller::new(4);
    assert_eq!(poller.record(&one(ConfirmationStatus::Finalized)), Verdict::Landed);
    assert_eq!(poller.polls, 1);

    let mut poller = ConfirmationPoller::new(4);
    assert_eq!(poller.record(&one(ConfirmationStatus::Unknown)), Verdict::Pending);
    assert_eq!(poller.record(&one(ConfirmationStatus::Confirmed)), Verdict::Landed);
    assert_eq!(poller.polls, 2);
}

#[test]
fn landing_on_the_last_poll_still_counts() {
    let mut poller = ConfirmationPoller::new(2);
    assert_eq!(poller.record(&one(ConfirmationStatus::Processed)), Verdict::Pending);
    assert_eq!(poller.record(&one(ConfirmationStatus::Confirmed)), Verdict::Landed);
}

#[test]
fn transport_errors_spend_polls() {
    let mut poller = ConfirmationPoller::new(2);
    assert_eq!(poller.record(&PollReply::TransportError), Verdict::Pending);
    assert_eq!(poller.polls, 1);
    assert_eq!(poller.record(&PollReply::TransportError), Verdict::NotLanded);
    assert_eq!(poller.polls, 2);
}

#[test]
fn conclude_not_landed_after_the_budget() {
    let replies = vec![one(ConfirmationStatus::Processed); 4];
    assert_eq!(ConfirmationPoller::conclude(4, &replies), PollOutcome::NotLanded { polls: 4 });
    let unknown = vec![one(ConfirmationStatus::Unknown); 9];
    assert_eq!(ConfirmationPoller::conclude(4, &unknown), PollOutcome::NotLanded { polls: 4 });
    let errors = vec![PollReply::TransportError; 3];
    assert_eq!(ConfirmationPoller::conclude(3, &errors), PollOutcome::NotLanded { polls: 3 });
}

#[test]
fn conclude_lands_on_the_first_success() {
    let replies = vec![
        one(ConfirmationStatus::Unknown),
        PollReply::TransportError,
        one(ConfirmationStatus::Finalized),
        one(ConfirmationStatus::Processed),
    ];
    assert_eq!(ConfirmationPoller::conclude(4, &replies), PollOutcome::Landed { polls: 3 });
    assert_eq!(ConfirmationPoller::conclude(3, &replies), PollOutcome::Landed { polls: 3 });
    assert_eq!(ConfirmationPoller::conclude(100, &replies), PollOutcome::Landed { polls: 3 });
    assert_eq!(
        ConfirmationPoller::conclude(4, &vec![one(ConfirmationStatus::Confirmed)]),
        PollOutcome::Landed { polls: 1 }
    );
}

#[test]
fn conclude_ignores_a_landing_beyond_the_budget() {
    let replies = vec![
        one(ConfirmationStatus::Unknown),
        one(ConfirmationStatus::Processed),
        one(ConfirmationStatus::Finalized),
    ];
    assert_eq!(ConfirmationPoller::conclude(2, &replies), PollOutcome::NotLanded { polls: 2 });
}

#[test]
fn conclude_is_pending_while_replies_are_short() {
    assert_eq!(ConfirmationPoller::conclude(4, &vec![]), PollOutcome::Pending { polls: 0 });
    let replies = vec![one(ConfirmationStatus::Processed); 3];
    assert_eq!(ConfirmationPoller::conclude(4, &replies), PollOutcome::Pending { polls: 3 });
}

#[test]
fn conclude_with_no_budget_never_polls() {
    assert_eq!(ConfirmationPoller::conclude(0, &vec![]), PollOutcome::NotLanded { polls: 0 });
    assert_eq!(
        ConfirmationPoller::conclude(0, &vec![one(ConfirmationStatus::Finalized)]),
        PollOutcome::NotLanded { polls: 0 }
    );
}
