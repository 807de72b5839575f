use ore_app::invocation::invoke_control;
use ore_app::invocation::invoke_signature;
use ore_app::invocation::settle_signature;
use ore_app::invocation::ButtonFace;
use ore_app::invocation::InvokeControl;
use ore_app::invocation::InvokeError;
use ore_app::invocation::InvokeSignatureStatus;
use ore_app::invocation::Signature;

fn signature(fill: u8) -> Signature {
    Signature { bytes: [fill; 64] }
}

#[test]
fn invoke_from_start_enters_waiting() {
    let mut status = InvokeSignatureStatus::Start;
    let call = invoke_signature(vec![1u8, 2, 3], &mut status).unwrap();
    assert_eq!(call.transaction, vec![1u8, 2, 3]);
    assert_eq!(status, InvokeSignatureStatus::Waiting);
}

#[test]
fn invoke_while_waiting_is_refused() {
    let mut status = InvokeSignatureStatus::Waiting;
    assert_eq!(
        invoke_signature("tx", &mut status).unwrap_err(),
        InvokeError::AlreadyInProgress
    );
    assert_eq!(status, InvokeSignatureStatus::Waiting);
}

#[test]
fn invoke_after_done_is_refused() {
    let mut status = InvokeSignatureStatus::Done(signature(3));
    assert_eq!(invoke_signature("tx", &mut status).unwrap_err(), InvokeError::AlreadyDone);
    assert_eq!(status, InvokeSignatureStatus::Done(signature(3)));
}

#[test]
fn bridge_success_reaches_done_with_its_signature() {
    let mut status = InvokeSignatureStatus::Start;
    invoke_signature("tx", &mut status).unwrap();
    let applied = settle_signature::<&str>(&mut status, Ok(signature(9)));
    assert!(applied);
    assert_eq!(status, InvokeSignatureStatus::Done(signature(9)));
    assert_ne!(status, InvokeSignatureStatus::DoneWithError);
}

#[test]
fn bridge_failure_reaches_done_with_error() {
    let mut status = InvokeSignatureStatus::Start;
    invoke_signature("tx", &mut status).unwrap();
    let applied = settle_signature(&mut status, Err("rejected by the user"));
    assert!(applied);
    assert_eq!(status, InvokeSignatureStatus::DoneWithError);
}

#[test]
fn retry_after_repeated_failures_reaches_done() {
    let mut status = InvokeSignatureStatus::Start;
    for round in 0..5 {
        let call = invoke_signature("tx", &mut status).unwrap();
        assert_eq!(call.transaction, "tx");
        assert_eq!(status, InvokeSignatureStatus::Waiting);
        assert!(settle_signature(&mut status, Err(round)));
        assert_eq!(status, InvokeSignatureStatus::DoneWithError);
    }
    assert_eq!(invoke_signature("tx", &mut status).unwrap().transaction, "tx");
    assert_eq!(status, InvokeSignatureStatus::Waiting);
    assert!(settle_signature::<i32>(&mut status, Ok(signature(1))));
    assert_eq!(status, InvokeSignatureStatus::Done(signature(1)));
}

#[test]
fn answer_without_a_call_in_flight_is_dropped() {
    let mut status = InvokeSignatureStatus::Start;
    assert!(!settle_signature::<&str>(&mut status, Ok(signature(2))));
    assert_eq!(status, InvokeSignatureStatus::Start);

    let mut status = InvokeSignatureStatus::DoneWithError;
    assert!(!settle_signature::<&str>(&mut status, Ok(signature(2))));
    assert_eq!(status, InvokeSignatureStatus::DoneWithError);

    let mut status = InvokeSignatureStatus::Done(signature(4));
    assert!(!settle_signature(&mut status, Err("late")));
    assert_eq!(status, InvokeSignatureStatus::Done(signature(4)));
}

#[test]
fn control_is_enabled_only_where_a_call_may_start() {
    assert_eq!(
        invoke_control(&InvokeSignatureStatus::Start),
        InvokeControl { enabled: true, face: ButtonFace::StartMessage, failure_notice: false }
    );
    assert_eq!(
        invoke_control(&InvokeSignatureStatus::Waiting),
        InvokeControl { enabled: false, face: ButtonFace::Spinner, failure_notice: false }
    );
    assert_eq!(
        invoke_control(&InvokeSignatureStatus::DoneWithError),
        InvokeControl { enabled: true, face: ButtonFace::Retry, failure_notice: true }
    );
    assert_eq!(
        invoke_control(&InvokeSignatureStatus::Done(signature(0))),
        InvokeControl { enabled: false, face: ButtonFace::Check, failure_notice: false }
    );
}
