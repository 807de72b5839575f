//! The claim wizard: an amount is edited, confirmed, and claimed from the
//! gateway, one request at a time.

use crate::invocation::Signature;
use vstd::prelude::*;

verus! {

/// Where the claim wizard stands.
#[derive(Clone, Copy, Debug, PartialEq, Eq)]
pub enum ClaimStep {
    /// The amount is being entered.
    Edit,
    /// The amount is shown for confirmation and can be claimed.
    Confirm,
    /// The claim went through.
    Done,
}

/// Why the claim wizard refused a request.
#[derive(Clone, Copy, Debug, PartialEq, Eq)]
pub enum ClaimError {
    /// Only an amount that is being edited can be staged.
    NotEditing,
    /// Nothing can be claimed of an amount of zero.
    ZeroAmount,
    /// Only a confirmation can be submitted or left.
    NotConfirming,
    /// A claim is in flight.
    Busy,
}

/// What the caller owes after the gateway answered a claim.
#[derive(Clone, Copy, Debug, PartialEq, Eq)]
pub enum ClaimEffect {
    /// The claim went through: the proof query and the balance query are to
    /// be restarted, each once.
    Claimed,
    /// The claim failed: the user is to be told, and may claim again.
    Failed,
    /// No claim was in flight: nothing is to be done.
    Ignored,
}

/// What a claim session holds, over plain values.
pub struct ClaimState {
    pub step: ClaimStep,
    /// The staged amount, in the smallest unit of the token.
    pub amount: u64,
    /// Whether a claim is in flight.
    pub busy: bool,
}

impl ClaimState {
    /// A session that was just opened.
    pub open spec fn initial() -> ClaimState {
        ClaimState { step: ClaimStep::Edit, amount: 0, busy: false }
    }

    /// A claim is in flight only from the confirmation, and what is past the
    /// editing has an amount.
    pub open spec fn consistent(self) -> bool {
        &&& self.busy ==> self.step is Confirm
        &&& !(self.step is Edit) ==> self.amount > 0
    }

    /// Why staging `amount` is refused, if it is.
    pub open spec fn enter_refusal(self, amount: u64) -> Option<ClaimError> {
        if !(self.step is Edit) {
            Some(ClaimError::NotEditing)
        } else if amount == 0 {
            Some(ClaimError::ZeroAmount)
        } else {
            None
        }
    }

    /// The session after a request to stage `amount`.
    pub open spec fn entered(self, amount: u64) -> ClaimState {
        if self.enter_refusal(amount) is None {
            ClaimState { step: ClaimStep::Confirm, amount, busy: false }
        } else {
            self
        }
    }

    /// Why a request to leave, or to submit, the confirmation is refused, if
    /// it is.
    pub open spec fn confirm_refusal(self) -> Option<ClaimError> {
        if !(self.step is Confirm) {
            Some(ClaimError::NotConfirming)
        } else if self.busy {
            Some(ClaimError::Busy)
        } else {
            None
        }
    }

    /// The session after a request to submit the claim.
    pub open spec fn submitted(self) -> ClaimState {
        if self.confirm_refusal() is None {
            ClaimState { busy: true, ..self }
        } else {
            self
        }
    }

    /// The session after a request to go back to the editing.
    pub open spec fn backed(self) -> ClaimState {
        if self.confirm_refusal() is None {
            ClaimState { step: ClaimStep::Edit, ..self }
        } else {
            self
        }
    }

    /// The session after the gateway answered, with success or without.
    pub open spec fn resolved(self, success: bool) -> ClaimState {
        if !self.busy {
            self
        } else if success {
            ClaimState { step: ClaimStep::Done, busy: false, ..self }
        } else {
            ClaimState { busy: false, ..self }
        }
    }

    /// What the caller owes after the gateway answered.
    pub open spec fn effect(self, success: bool) -> ClaimEffect {
        if !self.busy {
            ClaimEffect::Ignored
        } else if success {
            ClaimEffect::Claimed
        } else {
            ClaimEffect::Failed
        }
    }
}

/// One run through the claim wizard.
#[derive(Clone, Copy, Debug, PartialEq, Eq)]
pub struct ClaimSession {
    step: ClaimStep,
    amount: u64,
    busy: bool,
}

impl View for ClaimSession {
    type V = ClaimState;

    closed spec fn view(&self) -> ClaimState {
        ClaimState { step: self.step, amount: self.amount, busy: self.busy }
    }
}

impl ClaimSession {
    #[verifier::type_invariant]
    spec fn well_formed(self) -> bool {
        &&& self.busy ==> self.step is Confirm
        &&& !(self.step is Edit) ==> self.amount > 0
    }

    /// Opens a session: the amount is being edited and nothing is staged.
    pub fn new() -> (session: ClaimSession)
        ensures
            session@ == ClaimState::initial(),
            session@.consistent(),
    {
        ClaimSession { step: ClaimStep::Edit, amount: 0, busy: false }
    }

    /// Stages `amount`, in the smallest unit of the token, and moves from the
    /// editing to the confirmation. Refused, with nothing changed, where the
    /// amount is not being edited or is zero.
    pub fn enter_confirm(&mut self, amount: u64) -> (r: Result<(), ClaimError>)
        ensures
            final(self)@ == old(self)@.entered(amount),
            final(self)@.consistent(),
            r == match old(self)@.enter_refusal(amount) {
                Some(e) => Err::<(), ClaimError>(e),
                None => Ok::<(), ClaimError>(()),
            },
            r is Ok ==> final(self)@ == (ClaimState {
                step: ClaimStep::Confirm,
                amount,
                busy: false,
            }),
            r is Err ==> final(self)@ == old(self)@,
    {
        proof {
            use_type_invariant(&*self);
        }
        match self.step {
            ClaimStep::Edit => {
                if amount == 0 {
                    Err(ClaimError::ZeroAmount)
                } else {
                    *self = ClaimSession { step: ClaimStep::Confirm, amount, busy: false };
                    Ok(())
                }
            },
            _ => Err(ClaimError::NotEditing),
        }
    }

    /// Submits the claim. On `Ok` the session is busy and the caller owes the
    /// gateway exactly one claim of the amount returned, whose answer goes to
    /// `resolve`. Refused, with nothing changed, away from the confirmation
    /// and while a claim is in flight.
    pub fn submit(&mut self) -> (r: Result<u64, ClaimError>)
        ensures
            final(self)@ == old(self)@.submitted(),
            final(self)@.consistent(),
            r == match old(self)@.confirm_refusal() {
                Some(e) => Err::<u64, ClaimError>(e),
                None => Ok::<u64, ClaimError>(old(self)@.amount),
            },
            r is Ok ==> final(self)@.busy && final(self)@.step is Confirm,
            r matches Ok(amount) ==> amount > 0,
            r is Err ==> final(self)@ == old(self)@,
    {
        proof {
            use_type_invariant(&*self);
        }
        match self.step {
            ClaimStep::Confirm => {
                if self.busy {
                    Err(ClaimError::Busy)
                } else {
                    self.busy = true;
                    Ok(self.amount)
                }
            },
            _ => Err(ClaimError::NotConfirming),
        }
    }

    /// Folds the gateway's answer to the claim in flight into the session.
    /// The session is no longer busy whatever the answer; a success moves it
    /// to `Done`, a failure leaves it at the confirmation. An answer that
    /// reaches a session with no claim in flight changes nothing.
    pub fn resolve<E>(&mut self, outcome: Result<Signature, E>) -> (effect: ClaimEffect)
        ensures
            final(self)@ == old(self)@.resolved(outcome is Ok),
            final(self)@.consistent(),
            effect == old(self)@.effect(outcome is Ok),
            !final(self)@.busy,
            final(self)@.amount == old(self)@.amount,
            effect is Claimed <==> old(self)@.busy && outcome is Ok,
            effect is Claimed ==> final(self)@.step is Done,
            effect is Failed ==> final(self)@.step is Confirm,
            effect is Ignored ==> final(self)@ == old(self)@,
    {
        proof {
            use_type_invariant(&*self);
        }
        if !self.busy {
            return ClaimEffect::Ignored;
        }
        match outcome {
            Ok(_) => {
                *self = ClaimSession { step: ClaimStep::Done, amount: self.amount, busy: false };
                ClaimEffect::Claimed
            },
            Err(_) => {
                self.busy = false;
                ClaimEffect::Failed
            },
        }
    }

    /// Goes back from the confirmation to the editing; the amount stays.
    /// Refused, with nothing changed, away from the confirmation and while a
    /// claim is in flight.
    pub fn back(&mut self) -> (r: Result<(), ClaimError>)
        ensures
            final(self)@ == old(self)@.backed(),
            final(self)@.consistent(),
            r == match old(self)@.confirm_refusal() {
                Some(e) => Err::<(), ClaimError>(e),
                None => Ok::<(), ClaimError>(()),
            },
            r is Ok ==> final(self)@.step is Edit,
            final(self)@.amount == old(self)@.amount,
            r is Err ==> final(self)@ == old(self)@,
    {
        proof {
            use_type_invariant(&*self);
        }
        match self.step {
            ClaimStep::Confirm => {
                if self.busy {
                    Err(ClaimError::Busy)
                } else {
                    *self = ClaimSession {
                        step: ClaimStep::Edit,
                        amount: self.amount,
                        busy: false,
                    };
                    Ok(())
                }
            },
            _ => Err(ClaimError::NotConfirming),
        }
    }

    /// Whether the claim can be submitted: at the confirmation, with no
    /// claim in flight.
    pub fn can_submit(&self) -> (open: bool)
        ensures
            open <==> self@.confirm_refusal() is None,
            open ==> self@.amount > 0,
    {
        proof {
            use_type_invariant(self);
        }
        match self.step {
            ClaimStep::Confirm => !self.busy,
            _ => false,
        }
    }

    pub fn step(&self) -> (step: ClaimStep)
        ensures
            step == self@.step,
    {
        self.step
    }

    /// The staged amount, in the smallest unit of the token.
    pub fn amount(&self) -> (amount: u64)
        ensures
            amount == self@.amount,
    {
        self.amount
    }

    /// Whether a claim is in flight.
    pub fn is_busy(&self) -> (busy: bool)
        ensures
            busy == self@.busy,
            self@.consistent(),
    {
        proof {
            use_type_invariant(self);
        }
        self.busy
    }
}

/// The moves that the wizard can make: from the editing to the confirmation,
/// and from the confirmation back to the editing or on to `Done`.
pub open spec fn is_step_move(from: ClaimStep, to: ClaimStep) -> bool {
    match from {
        ClaimStep::Edit => to is Confirm,
        ClaimStep::Confirm => to is Edit || to is Done,
        ClaimStep::Done => false,
    }
}

/// The wizard moves along its steps and in no other way. Staging an amount
/// is the only way into the confirmation, going back the only way out of it
/// to the editing, and a successful answer to a claim in flight the only way
/// to `Done`.
pub proof fn law_wizard_moves(state: ClaimState, amount: u64, success: bool)
    requires
        state.consistent(),
    ensures
        state.entered(amount).step == state.step || is_step_move(
            state.step,
            state.entered(amount).step,
        ),
        state.submitted().step == state.step,
        state.backed().step == state.step || is_step_move(state.step, state.backed().step),
        state.resolved(success).step == state.step || is_step_move(
            state.step,
            state.resolved(success).step,
        ),
        state.entered(amount).step != state.step ==> state.step is Edit && amount > 0
            && state.entered(amount).step is Confirm,
        state.backed().step != state.step ==> state.step is Confirm && !state.busy
            && state.backed().step is Edit,
        state.resolved(success).step != state.step ==> state.busy && success && state.resolved(
            success,
        ).step is Done,
        state.busy && success ==> state.resolved(success).step is Done,
{
}

/// A claim of a positive amount runs from the editing over the confirmation
/// to `Done` where the gateway succeeds, and owes one refresh; where the
/// gateway fails it stays at the confirmation, no longer busy, with the
/// amount in place, and can be submitted again.
pub proof fn law_claim_round(amount: u64)
    requires
        amount > 0,
    ensures
        ({
            let confirm = ClaimState::initial().entered(amount);
            let flying = confirm.submitted();
            &&& confirm == ClaimState { step: ClaimStep::Confirm, amount, busy: false }
            &&& flying == ClaimState { step: ClaimStep::Confirm, amount, busy: true }
            &&& flying.resolved(true) == ClaimState { step: ClaimStep::Done, amount, busy: false }
            &&& flying.effect(true) is Claimed
            &&& flying.resolved(false) == confirm
            &&& flying.effect(false) is Failed
            &&& flying.resolved(false).confirm_refusal() is None
            &&& flying.resolved(true).effect(true) is Ignored
        }),
{
}

/// Every step of the wizard keeps the session consistent, and while a claim
/// is in flight nothing moves but its answer: the amount cannot be staged
/// anew, the confirmation cannot be left, and no second claim is submitted.
pub proof fn law_one_claim_in_flight(state: ClaimState, amount: u64, success: bool)
    requires
        state.consistent(),
    ensures
        state.entered(amount).consistent(),
        state.submitted().consistent(),
        state.backed().consistent(),
        state.resolved(success).consistent(),
        !state.resolved(success).busy,
        state.busy ==> state.entered(amount) == state && state.submitted() == state
            && state.backed() == state,
        state.busy ==> state.confirm_refusal() == Some(ClaimError::Busy),
        state.backed().amount == state.amount,
        state.resolved(success).amount == state.amount,
        state.step is Done ==> state.entered(amount) == state && state.submitted() == state
            && state.backed() == state && state.resolved(success) == state,
{
}

} // verus!
