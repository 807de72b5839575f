use ore_app::claim::ClaimEffect;
use ore_app::claim::ClaimError;
use ore_app::claim::ClaimSession;
use ore_app::claim::ClaimStep;
use ore_app::invocation::Signature;

fn signature() -> Signature {
    Signature { bytes: [5; 64] }
}

#[test]
fn new_session_edits_with_nothing_staged() {
    let session = ClaimSession::new();
    assert_eq!(session.step(), ClaimStep::Edit);
    assert_eq!(session.amount(), 0);
    assert!(!session.is_busy());
}

#[test]
fn claim_with_gateway_success_reaches_done_with_one_refresh() {
    let mut session = ClaimSession::new();
    let mut proof_refreshes = 0;

    assert_eq!(session.enter_confirm(1_000_000), Ok(()));
    assert_eq!(session.step(), ClaimStep::Confirm);
    assert_eq!(session.amount(), 1_000_000);

    assert_eq!(session.submit(), Ok(1_000_000));
    assert!(session.is_busy());
    assert_eq!(session.step(), ClaimStep::Confirm);

    if session.resolve::<&str>(Ok(signature())) == ClaimEffect::Claimed {
        proof_refreshes += 1;
    }
    if session.resolve::<&str>(Ok(signature())) == ClaimEffect::Claimed {
        proof_refreshes += 1;
    }
    assert_eq!(proof_refreshes, 1);
    assert_eq!(session.step(), ClaimStep::Done);
    assert!(!session.is_busy());
    assert_eq!(session.amount(), 1_000_000);
}

#[test]
fn claim_with_gateway_failure_stays_at_confirm_with_busy_cleared() {
    let mut session = ClaimSession::new();
    session.enter_confirm(1_000_000).unwrap();
    session.submit().unwrap();

    assert_eq!(session.resolve(Err("gateway down")), ClaimEffect::Failed);
    assert_eq!(session.step(), ClaimStep::Confirm);
    assert!(!session.is_busy());
    assert_eq!(session.amount(), 1_000_000);

    assert_eq!(session.submit(), Ok(1_000_000));
    assert_eq!(session.resolve::<&str>(Ok(signature())), ClaimEffect::Claimed);
    assert_eq!(session.step(), ClaimStep::Done);
}

#[test]
fn zero_amount_is_not_staged() {
    let mut session = ClaimSession::new();
    assert_eq!(session.enter_confirm(0), Err(ClaimError::ZeroAmount));
    assert_eq!(session.step(), ClaimStep::Edit);
    assert_eq!(session.amount(), 0);
}

#[test]
fn staging_is_refused_away_from_the_editing() {
    let mut session = ClaimSession::new();
    session.enter_confirm(7).unwrap();
    assert_eq!(session.enter_confirm(8), Err(ClaimError::NotEditing));
    assert_eq!(session.enter_confirm(0), Err(ClaimError::NotEditing));
    assert_eq!(session.amount(), 7);
}

#[test]
fn submit_is_refused_away_from_the_confirmation() {
    let mut session = ClaimSession::new();
    assert_eq!(session.submit(), Err(ClaimError::NotConfirming));
    assert!(!session.is_busy());

    session.enter_confirm(7).unwrap();
    session.submit().unwrap();
    session.resolve::<&str>(Ok(signature()));
    assert_eq!(session.submit(), Err(ClaimError::NotConfirming));
    assert_eq!(session.step(), ClaimStep::Done);
}

#[test]
fn second_submit_while_busy_is_refused() {
    let mut session = ClaimSession::new();
    assert!(!session.can_submit());
    session.enter_confirm(7).unwrap();
    assert!(session.can_submit());
    assert_eq!(session.submit(), Ok(7));
    assert!(!session.can_submit());
    assert_eq!(session.submit(), Err(ClaimError::Busy));
    assert!(session.is_busy());
}

#[test]
fn back_returns_to_the_editing_and_keeps_the_amount() {
    let mut session = ClaimSession::new();
    session.enter_confirm(250).unwrap();
    assert_eq!(session.back(), Ok(()));
    assert_eq!(session.step(), ClaimStep::Edit);
    assert_eq!(session.amount(), 250);
    assert_eq!(session.enter_confirm(300), Ok(()));
    assert_eq!(session.amount(), 300);
}

#[test]
fn back_is_refused_away_from_the_confirmation_and_while_busy() {
    let mut session = ClaimSession::new();
    assert_eq!(session.back(), Err(ClaimError::NotConfirming));

    session.enter_confirm(250).unwrap();
    session.submit().unwrap();
    assert_eq!(session.back(), Err(ClaimError::Busy));
    assert_eq!(session.step(), ClaimStep::Confirm);
    assert!(session.is_busy());

    session.resolve::<&str>(Ok(signature()));
    assert_eq!(session.back(), Err(ClaimError::NotConfirming));
    assert_eq!(session.step(), ClaimStep::Done);
}

#[test]
fn answer_without_a_claim_in_flight_is_ignored() {
    let mut session = ClaimSession::new();
    assert_eq!(session.resolve::<&str>(Ok(signature())), ClaimEffect::Ignored);
    assert_eq!(session.step(), ClaimStep::Edit);

    session.enter_confirm(250).unwrap();
    assert_eq!(session.resolve(Err("late")), ClaimEffect::Ignored);
    assert_eq!(session.step(), ClaimStep::Confirm);
    assert!(!session.is_busy());
}
