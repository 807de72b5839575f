//! The life of one signing attempt: a transaction is handed to the wallet
//! bridge once per `invoke_signature`, and the bridge's answer is folded back
//! into the status by `settle_signature`.

use vstd::prelude::*;

verus! {

/// The authorization value that the wallet bridge hands back for a
/// transaction that was signed and accepted.
#[derive(Clone, Copy, Debug, PartialEq, Eq)]
pub struct Signature {
    pub bytes: [u8; 64],
}

/// Progress of one signing attempt for one transaction.
#[derive(Clone, Copy, Debug, PartialEq, Eq)]
pub enum InvokeSignatureStatus {
    /// Nothing was asked of the bridge yet.
    Start,
    /// A bridge call is in flight.
    Waiting,
    /// The bridge signed and sent the transaction. Terminal.
    Done(Signature),
    /// The bridge call failed; the user may try again.
    DoneWithError,
}

/// Why `invoke_signature` left the status alone.
#[derive(Clone, Copy, Debug, PartialEq, Eq)]
pub enum InvokeError {
    /// A bridge call is already in flight.
    AlreadyInProgress,
    /// The transaction was already signed and sent.
    AlreadyDone,
}

/// What the trigger button shows.
#[derive(Clone, Copy, Debug, PartialEq, Eq)]
pub enum ButtonFace {
    /// The caller's own start message.
    StartMessage,
    /// A spinner, while the bridge works.
    Spinner,
    /// The word "Retry".
    Retry,
    /// A check mark.
    Check,
}

/// How the trigger control of a signing attempt is drawn.
#[derive(Clone, Copy, Debug, PartialEq, Eq)]
pub struct InvokeControl {
    /// Whether a click may start a bridge call.
    pub enabled: bool,
    pub face: ButtonFace,
    /// Whether the "transaction failed" notice stands above the button.
    pub failure_notice: bool,
}

impl InvokeSignatureStatus {
    /// A bridge call may be started from this status.
    pub open spec fn can_invoke(self) -> bool {
        self is Start || self is DoneWithError
    }

    /// The status after a request to start a bridge call.
    pub open spec fn invoked(self) -> InvokeSignatureStatus {
        if self.can_invoke() {
            InvokeSignatureStatus::Waiting
        } else {
            self
        }
    }

    /// The reason for which a request to start a bridge call is refused, if it is.
    pub open spec fn refusal(self) -> Option<InvokeError> {
        match self {
            InvokeSignatureStatus::Waiting => Some(InvokeError::AlreadyInProgress),
            InvokeSignatureStatus::Done(_) => Some(InvokeError::AlreadyDone),
            _ => None,
        }
    }

    /// The status after the bridge answered with `outcome`. Only a status
    /// that waits for an answer takes one.
    pub open spec fn settled<E>(self, outcome: Result<Signature, E>) -> InvokeSignatureStatus {
        match self {
            InvokeSignatureStatus::Waiting => match outcome {
                Ok(signature) => InvokeSignatureStatus::Done(signature),
                Err(_) => InvokeSignatureStatus::DoneWithError,
            },
            _ => self,
        }
    }

    /// The status after one full failed round: a bridge call that was
    /// started where allowed and then answered with an error.
    pub open spec fn failed_round<E>(self, error: E) -> InvokeSignatureStatus {
        self.invoked().settled(Err::<Signature, E>(error))
    }

    /// The status after as many failed rounds as `errors` holds.
    pub open spec fn after_failures<E>(self, errors: Seq<E>) -> InvokeSignatureStatus
        decreases errors.len(),
    {
        if errors.len() == 0 {
            self
        } else {
            self.after_failures(errors.drop_last()).failed_round(errors.last())
        }
    }

    /// How the trigger control is drawn in this status.
    pub open spec fn control(self) -> InvokeControl {
        match self {
            InvokeSignatureStatus::Start => InvokeControl {
                enabled: true,
                face: ButtonFace::StartMessage,
                failure_notice: false,
            },
            InvokeSignatureStatus::Waiting => InvokeControl {
                enabled: false,
                face: ButtonFace::Spinner,
                failure_notice: false,
            },
            InvokeSignatureStatus::DoneWithError => InvokeControl {
                enabled: true,
                face: ButtonFace::Retry,
                failure_notice: true,
            },
            InvokeSignatureStatus::Done(_) => InvokeControl {
                enabled: false,
                face: ButtonFace::Check,
                failure_notice: false,
            },
        }
    }
}

/// The one call that is owed to the wallet bridge after a request to invoke
/// was granted: sign and send this transaction.
#[derive(Debug)]
pub struct BridgeCall<T> {
    pub transaction: T,
}

/// Asks to start a bridge call for `transaction`, whose attempt `status`
/// tracks.
///
/// On `Ok` the status is `Waiting` at once, and the caller owes the bridge
/// exactly the call returned, which holds the transaction as it was given;
/// the bridge's answer goes to `settle_signature`. On `Err` nothing changed
/// and no call is to be made.
pub fn invoke_signature<T>(transaction: T, status: &mut InvokeSignatureStatus) -> (r: Result<
    BridgeCall<T>,
    InvokeError,
>)
    ensures
        *final(status) == old(status).invoked(),
        r == match old(status).refusal() {
            Some(e) => Err::<BridgeCall<T>, InvokeError>(e),
            None => Ok::<BridgeCall<T>, InvokeError>(BridgeCall { transaction }),
        },
        r is Ok <==> old(status).can_invoke(),
        r is Ok ==> *final(status) is Waiting,
        r is Err ==> *final(status) == *old(status),
        *old(status) is Start ==> *final(status) is Waiting,
        *old(status) is DoneWithError ==> *final(status) is Waiting,
{
    match *status {
        InvokeSignatureStatus::Start | InvokeSignatureStatus::DoneWithError => {
            *status = InvokeSignatureStatus::Waiting;
            Ok(BridgeCall { transaction })
        },
        InvokeSignatureStatus::Waiting => Err(InvokeError::AlreadyInProgress),
        InvokeSignatureStatus::Done(_) => Err(InvokeError::AlreadyDone),
    }
}

/// Folds the bridge's answer into `status`.
///
/// A waiting status becomes `Done` with the signature or `DoneWithError`,
/// one of the two and never `Waiting` again. An answer that reaches a status
/// which waits for none changes nothing, and `false` is returned.
pub fn settle_signature<E>(
    status: &mut InvokeSignatureStatus,
    outcome: Result<Signature, E>,
) -> (applied: bool)
    ensures
        *final(status) == old(status).settled(outcome),
        applied <==> *old(status) is Waiting,
        !applied ==> *final(status) == *old(status),
        applied ==> (*final(status) is Done) != (*final(status) is DoneWithError),
        applied ==> (outcome matches Ok(signature) ==> *final(status)
            == InvokeSignatureStatus::Done(signature)),
        applied ==> (outcome is Err ==> *final(status) is DoneWithError),
        applied ==> !(*final(status) is Waiting),
{
    match *status {
        InvokeSignatureStatus::Waiting => {
            match outcome {
                Ok(signature) => {
                    *status = InvokeSignatureStatus::Done(signature);
                },
                Err(_) => {
                    *status = InvokeSignatureStatus::DoneWithError;
                },
            }
            true
        },
        _ => false,
    }
}

/// How to draw the trigger control for `status`: enabled exactly where a
/// bridge call may be started.
pub fn invoke_control(status: &InvokeSignatureStatus) -> (control: InvokeControl)
    ensures
        control == status.control(),
        control.enabled <==> status.can_invoke(),
{
    match status {
        InvokeSignatureStatus::Start => InvokeControl {
            enabled: true,
            face: ButtonFace::StartMessage,
            failure_notice: false,
        },
        InvokeSignatureStatus::Waiting => InvokeControl {
            enabled: false,
            face: ButtonFace::Spinner,
            failure_notice: false,
        },
        InvokeSignatureStatus::DoneWithError => InvokeControl {
            enabled: true,
            face: ButtonFace::Retry,
            failure_notice: true,
        },
        InvokeSignatureStatus::Done(_) => InvokeControl {
            enabled: false,
            face: ButtonFace::Check,
            failure_notice: false,
        },
    }
}

/// The moves that a signing attempt can make: from `Start` or from
/// `DoneWithError` to `Waiting`, and from `Waiting` to `Done` or to
/// `DoneWithError`.
pub open spec fn is_move(from: InvokeSignatureStatus, to: InvokeSignatureStatus) -> bool {
    match from {
        InvokeSignatureStatus::Start => to is Waiting,
        InvokeSignatureStatus::DoneWithError => to is Waiting,
        InvokeSignatureStatus::Waiting => to is Done || to is DoneWithError,
        InvokeSignatureStatus::Done(_) => false,
    }
}

/// A status changes along the moves of a signing attempt and in no other way:
/// a request to invoke and an answer of the bridge each leave it as it is or
/// make one such move, and nothing leads back to `Start`.
pub proof fn law_only_the_moves<E>(status: InvokeSignatureStatus, outcome: Result<Signature, E>)
    ensures
        status.invoked() == status || is_move(status, status.invoked()),
        status.settled(outcome) == status || is_move(status, status.settled(outcome)),
        status.invoked() != status <==> status.can_invoke(),
        status.settled(outcome) != status <==> status is Waiting,
        !(status.invoked() is Start),
        status.settled(outcome) is Start ==> status is Start,
{
}

/// From `Start`, a request to invoke is granted and the status is `Waiting`
/// before any answer of the bridge is folded in.
pub proof fn law_start_enters_waiting()
    ensures
        InvokeSignatureStatus::Start.can_invoke(),
        InvokeSignatureStatus::Start.refusal() is None,
        InvokeSignatureStatus::Start.invoked() == InvokeSignatureStatus::Waiting,
{
}

/// Whatever the bridge answers to a call in flight, the status ends as
/// exactly one of `Done` with the signature answered or `DoneWithError`, and
/// never stays `Waiting`.
pub proof fn law_one_outcome<E>(outcome: Result<Signature, E>)
    ensures
        ({
            let after = InvokeSignatureStatus::Waiting.settled(outcome);
            &&& (after is Done) != (after is DoneWithError)
            &&& !(after is Waiting)
            &&& !(after is Start)
            &&& after is Done <==> outcome is Ok
            &&& outcome matches Ok(signature) ==> after == InvokeSignatureStatus::Done(signature)
        }),
{
}

/// A finished attempt stays as it is: neither a request to invoke nor a late
/// answer of the bridge moves a `Done` status.
pub proof fn law_done_is_terminal<E>(signature: Signature, outcome: Result<Signature, E>)
    ensures
        InvokeSignatureStatus::Done(signature).invoked() == InvokeSignatureStatus::Done(signature),
        InvokeSignatureStatus::Done(signature).refusal() == Some(InvokeError::AlreadyDone),
        InvokeSignatureStatus::Done(signature).settled(outcome) == InvokeSignatureStatus::Done(
            signature,
        ),
{
}

/// Retrying is safe however often the bridge failed before: after any number
/// of failed rounds from `Start` the status is `Start` (no round) or
/// `DoneWithError`, a further request to invoke is granted and enters
/// `Waiting`, and a success then ends in `Done` with its signature.
pub proof fn law_retry_after_failures<E>(errors: Seq<E>, signature: Signature)
    ensures
        ({
            let status = InvokeSignatureStatus::Start.after_failures(errors);
            &&& errors.len() == 0 ==> status is Start
            &&& errors.len() > 0 ==> status is DoneWithError
            &&& status.can_invoke()
            &&& status.invoked() is Waiting
            &&& status.invoked().settled(Ok::<Signature, E>(signature))
                == InvokeSignatureStatus::Done(signature)
        }),
    decreases errors.len(),
{
    if errors.len() > 0 {
        law_retry_after_failures(errors.drop_last(), signature);
    }
}

} // verus!
