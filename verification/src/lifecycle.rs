//! The life of a declared resource: active while it is declared, cleaning
//! up once its deletion is asked for, and finalized, free to go, only after
//! a cleanup has succeeded. Also the status that an apply leaves on it.

use vstd::prelude::*;

use crate::error::{operator_error_text, OperatorError};
use crate::reconciliation::{
    ApplyState,
    ApplyStateView,
    ApplyStep,
    CleanupState,
    CleanupStateView,
    CleanupStep,
};
use crate::resource::{ElasticSearchUserStatus, ElasticSearchUserStatusView};

verus! {

/// Where a declared resource stands in its life.
#[derive(Clone, Copy, Debug, PartialEq, Eq, Structural)]
pub enum Phase {
    /// Declared: the collaborators are kept in line with it.
    Active,
    /// Its deletion has been asked for: user and role have to go first.
    CleaningUp,
    /// Cleaned up: the control plane may let it go.
    Finalized,
}

/// What is to be done for a resource.
#[derive(Clone, Copy, Debug, PartialEq, Eq, Structural)]
pub enum Event {
    /// Bring the collaborators in line with the resource.
    Apply,
    /// Remove what the resource left in the external store.
    Cleanup,
}

/// What happened to a resource.
#[derive(Clone, Copy, Debug, PartialEq, Eq, Structural)]
pub enum Signal {
    /// An apply is over, well or badly.
    Applied,
    /// The deletion of the resource has been asked for.
    DeletionRequested,
    /// A cleanup has succeeded.
    CleanedUp,
    /// A cleanup has failed.
    CleanupFailed,
}

/// What is due in a phase: an apply while active, a cleanup while cleaning
/// up, nothing once finalized.
pub open spec fn due_in(phase: Phase) -> Option<Event> {
    match phase {
        Phase::Active => Some(Event::Apply),
        Phase::CleaningUp => Some(Event::Cleanup),
        Phase::Finalized => None,
    }
}

/// The phase that follows on a signal. Asking for deletion starts the
/// cleaning up, and a cleanup that succeeded finalizes; a cleanup that
/// failed leaves the resource cleaning up, to be tried again.
pub open spec fn phase_after(phase: Phase, signal: Signal) -> Phase {
    match (phase, signal) {
        (Phase::Active, Signal::DeletionRequested) => Phase::CleaningUp,
        (Phase::CleaningUp, Signal::CleanedUp) => Phase::Finalized,
        _ => phase,
    }
}

/// The phase that follows on a run of signals.
pub open spec fn phase_after_all(phase: Phase, signals: Seq<Signal>) -> Phase
    decreases signals.len(),
{
    if signals.len() == 0 {
        phase
    } else {
        phase_after(phase_after_all(phase, signals.drop_last()), signals.last())
    }
}

/// What is due in `phase`.
pub fn due(phase: Phase) -> (r: Option<Event>)
    ensures
        r == due_in(phase),
{
    match phase {
        Phase::Active => Some(Event::Apply),
        Phase::CleaningUp => Some(Event::Cleanup),
        Phase::Finalized => None,
    }
}

/// The phase that follows `phase` on `signal`.
pub fn advance(phase: Phase, signal: Signal) -> (r: Phase)
    ensures
        r == phase_after(phase, signal),
{
    match (phase, signal) {
        (Phase::Active, Signal::DeletionRequested) => Phase::CleaningUp,
        (Phase::CleaningUp, Signal::CleanedUp) => Phase::Finalized,
        _ => phase,
    }
}

/// A resource is never let go with its user and role still in place:
/// whatever happens to an active resource, it is finalized only if at some
/// point, while it was cleaning up, a cleanup succeeded. And once it is
/// finalized it stays so.
pub proof fn finalized_only_after_cleanup(signals: Seq<Signal>)
    ensures
        phase_after_all(Phase::Active, signals) == Phase::Finalized ==> exists|i: int|
            0 <= i < signals.len() && signals[i] == Signal::CleanedUp && #[trigger] phase_after_all(
                Phase::Active,
                signals.take(i),
            ) == Phase::CleaningUp,
        forall|signal: Signal| #[trigger] phase_after(Phase::Finalized, signal) == Phase::Finalized,
    decreases signals.len(),
{
    if signals.len() > 0 {
        let before = signals.drop_last();
        finalized_only_after_cleanup(before);
        if phase_after_all(Phase::Active, signals) == Phase::Finalized {
            if phase_after_all(Phase::Active, before) == Phase::Finalized {
                let i = choose|i: int|
                    0 <= i < before.len() && before[i] == Signal::CleanedUp
                        && #[trigger] phase_after_all(Phase::Active, before.take(i))
                        == Phase::CleaningUp;
                assert(signals.take(i) =~= before.take(i));
            } else {
                let i = signals.len() - 1;
                assert(signals.take(i) =~= before);
            }
        }
    }
}

/// The signal that a cleanup gives once it is over.
pub open spec fn cleanup_signal(state: CleanupStateView) -> Option<Signal> {
    match state.step {
        CleanupStep::Done => Some(Signal::CleanedUp),
        CleanupStep::Skipped => Some(Signal::CleanedUp),
        CleanupStep::Failed => Some(Signal::CleanupFailed),
        _ => None,
    }
}

/// The signal that a cleanup gives once it is over; `None` while it is not.
pub fn signal_of_cleanup(state: &CleanupState) -> (r: Option<Signal>)
    ensures
        r == cleanup_signal(state@),
{
    match state.step {
        CleanupStep::Done => Some(Signal::CleanedUp),
        CleanupStep::Skipped => Some(Signal::CleanedUp),
        CleanupStep::Failed => Some(Signal::CleanupFailed),
        _ => None,
    }
}

/// The status that an apply leaves on its resource once it is over: fine
/// where it went well, and else not fine, with the error's text.
pub open spec fn status_after(state: ApplyStateView) -> Option<ElasticSearchUserStatusView> {
    match state.step {
        ApplyStep::Done => Some(ElasticSearchUserStatusView { ok: true, error_message: None }),
        ApplyStep::Failed => Some(
            ElasticSearchUserStatusView {
                ok: false,
                error_message: Some(
                    match state.error {
                        Some(error) => operator_error_text(error),
                        None => Seq::empty(),
                    },
                ),
            },
        ),
        _ => None,
    }
}

/// The status that an apply leaves on its resource once it is over; `None`
/// while it is not.
pub fn status_of_apply(state: &ApplyState) -> (r: Option<ElasticSearchUserStatus>)
    ensures
        r.deep_view() == status_after(state@),
{
    match state.step {
        ApplyStep::Done => Some(ElasticSearchUserStatus::ok()),
        ApplyStep::Failed => {
            let text = match &state.error {
                Some(error) => error.message(),
                None => String::new(),
            };
            Some(ElasticSearchUserStatus::err(text.as_str()))
        },
        _ => None,
    }
}

/// The error that an apply ended with, if it ended badly.
pub fn error_of_apply(state: &ApplyState) -> (r: Option<OperatorError>)
    ensures
        r.deep_view() == (if state@.step == ApplyStep::Failed {
            state@.error
        } else {
            None
        }),
{
    match state.step {
        ApplyStep::Failed => match &state.error {
            Some(error) => Some(error.clone()),
            None => None,
        },
        _ => None,
    }
}

/// The error that a cleanup ended with, if it ended badly.
pub fn error_of_cleanup(state: &CleanupState) -> (r: Option<OperatorError>)
    ensures
        r.deep_view() == (if state@.step == CleanupStep::Failed {
            state@.error
        } else {
            None
        }),
{
    match state.step {
        CleanupStep::Failed => match &state.error {
            Some(error) => Some(error.clone()),
            None => None,
        },
        _ => None,
    }
}

} // verus!
