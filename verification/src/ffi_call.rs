//! The protocol between an asynchronous operation and the caller's callback:
//! the arguments are checked at once, a refused call is answered at once,
//! an accepted one starts the operation and is answered when it completes.
//! The caller's executor drives it: it performs each action and reports
//! what happened next.

use vstd::prelude::*;

use crate::ffi_error::Error;

verus! {

/// Where a call stands toward its callback.
#[derive(PartialEq, Eq, Structural, Clone, Copy, Debug)]
pub enum CallPhase {
    /// The arguments are being checked.
    Checking,
    /// The operation runs.
    Running,
    /// The callback has been answered.
    Finished,
}

/// What happened to a call: its arguments were checked, or its operation
/// completed.
pub enum CallEvent<T> {
    Checked(Result<(), Error>),
    Completed(Result<T, Error>),
}

/// What a call does in answer: call the callback with a result or an error,
/// start the operation, or nothing.
pub enum CallAction<T> {
    Deliver(Option<T>, Option<Error>),
    Start,
    Ignore,
}

/// The next phase of a call in phase `p` and what it does when `ev` happens.
pub open spec fn call_step_of<T>(p: CallPhase, ev: CallEvent<T>) -> (CallPhase, CallAction<T>) {
    match (p, ev) {
        (CallPhase::Checking, CallEvent::Checked(Ok(()))) => (CallPhase::Running, CallAction::Start),
        (CallPhase::Checking, CallEvent::Checked(Err(e))) => (CallPhase::Finished, CallAction::Deliver(None, Some(e))),
        (CallPhase::Running, CallEvent::Completed(Ok(v))) => (CallPhase::Finished, CallAction::Deliver(Some(v), None)),
        (CallPhase::Running, CallEvent::Completed(Err(e))) => (CallPhase::Finished, CallAction::Deliver(None, Some(e))),
        _ => (p, CallAction::Ignore),
    }
}

/// Advances a call: a refused check answers the callback with the error and
/// finishes; an accepted one starts the operation; the operation's outcome
/// answers the callback with the result or the error and finishes.  An
/// event out of turn changes nothing.
pub fn call_step<T>(p: CallPhase, ev: CallEvent<T>) -> (r: (CallPhase, CallAction<T>))
    ensures
        r == call_step_of(p, ev),
{
    match (p, ev) {
        (CallPhase::Checking, CallEvent::Checked(Ok(()))) => (CallPhase::Running, CallAction::Start),
        (CallPhase::Checking, CallEvent::Checked(Err(e))) => (CallPhase::Finished, CallAction::Deliver(None, Some(e))),
        (CallPhase::Running, CallEvent::Completed(Ok(v))) => (CallPhase::Finished, CallAction::Deliver(Some(v), None)),
        (CallPhase::Running, CallEvent::Completed(Err(e))) => (CallPhase::Finished, CallAction::Deliver(None, Some(e))),
        (p, _) => (p, CallAction::Ignore),
    }
}

/// The phase a call reaches from `Checking` through the events `evs`, and
/// how many times it answered the callback on the way.
pub open spec fn call_run<T>(evs: Seq<CallEvent<T>>) -> (CallPhase, nat)
    decreases evs.len(),
{
    if evs.len() == 0 {
        (CallPhase::Checking, 0)
    } else {
        let (p, n) = call_run(evs.drop_last());
        let (q, a) = call_step_of(p, evs.last());
        (q, n + (if a is Deliver { 1nat } else { 0nat }))
    }
}

/// Every answer carries exactly one of a result and an error.
pub proof fn answers_carry_one_of_result_and_error<T>(p: CallPhase, ev: CallEvent<T>)
    ensures
        call_step_of(p, ev).1 matches CallAction::Deliver(v, e) ==> (v is Some != e is Some),
{
}

/// Whatever happens to a call, its callback is answered at most once, and a
/// call is finished exactly when it has been answered.
pub proof fn callback_answered_at_most_once<T>(evs: Seq<CallEvent<T>>)
    ensures
        call_run(evs).1 <= 1,
        call_run(evs).0 == CallPhase::Finished <==> call_run(evs).1 == 1,
    decreases evs.len(),
{
    if evs.len() > 0 {
        callback_answered_at_most_once(evs.drop_last());
    }
}

/// A call whose check passes and whose operation then completes has
/// answered its callback once, with the operation's outcome.
pub proof fn accepted_call_is_answered_with_its_outcome<T>(outcome: Result<T, Error>)
    ensures
        call_run(seq![CallEvent::<T>::Checked(Ok(())), CallEvent::Completed(outcome)]) == (CallPhase::Finished, 1nat),
        call_step_of(CallPhase::Running, CallEvent::Completed(outcome)).1 == (match outcome {
            Ok(v) => CallAction::Deliver(Some(v), None),
            Err(e) => CallAction::<T>::Deliver(None, Some(e)),
        }),
{
    let evs = seq![CallEvent::<T>::Checked(Ok(())), CallEvent::Completed(outcome)];
    assert(evs.drop_last() =~= seq![CallEvent::<T>::Checked(Ok(()))]);
    assert(evs.drop_last().drop_last() =~= Seq::<CallEvent<T>>::empty());
    assert(call_run(evs.drop_last().drop_last()) == (CallPhase::Checking, 0nat));
    assert(call_run(evs.drop_last()) == (CallPhase::Running, 0nat));
    assert(evs.last() == CallEvent::Completed(outcome));
}

} // verus!
