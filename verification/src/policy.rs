//! The controller policy and the worker-step logic.
//!
//! An exchange with the device ends in one of three ways: a definitive
//! decoded state, no definitive response, or an I/O error. The policy here
//! decides what each outcome means for each intent, and the worker-step
//! logic turns one queued intent and its exchange outcome into the status
//! update that is published, in intent order, into the shared store.

use vstd::prelude::*;
use crate::state::Intent;
use crate::state::Note;
use crate::state::RelayError;
use crate::state::RelayState;
use crate::state::StatusUpdate;

verus! {

/// The state an intent resolves to when the exchange yields the outcome
/// `o`. A definitive response is taken as is. On no definitive response,
/// the mutating intents optimistically assume they succeeded — the write
/// went through, so the intent is trusted even without confirmation — while
/// a status query, being observational, must not fabricate a value and
/// resolves to the unknown state.
pub open spec fn conclude_spec(i: Intent, o: Option<RelayState>) -> RelayState {
    match o {
        Some(s) => s,
        None => match i {
            Intent::TurnOn => RelayState::On,
            Intent::TurnOff => RelayState::Off,
            Intent::QueryStatus => RelayState::Unknown,
        },
    }
}

/// Resolve an intent against the outcome of its exchange.
pub fn conclude(i: Intent, o: Option<RelayState>) -> (s: RelayState)
    ensures
        s == conclude_spec(i, o),
{
    match o {
        Some(s) => s,
        None => match i {
            Intent::TurnOn => RelayState::On,
            Intent::TurnOff => RelayState::Off,
            Intent::QueryStatus => RelayState::Unknown,
        },
    }
}

/// The optimistic-assume asymmetry: on no definitive response, turning the
/// relay on resolves to on and turning it off to off, while a status query
/// resolves to unknown rather than assuming a state.
pub proof fn lemma_optimistic_asymmetry()
    ensures
        conclude_spec(Intent::TurnOn, None) == RelayState::On,
        conclude_spec(Intent::TurnOff, None) == RelayState::Off,
        conclude_spec(Intent::QueryStatus, None) == RelayState::Unknown,
{
}

/// The status update published after one intent whose exchange ended in
/// `x`: the resolved state and a ready note on success, the error state and
/// the failure as the note on an I/O error.
pub open spec fn step_spec(i: Intent, x: Result<Option<RelayState>, RelayError>) -> StatusUpdate {
    match x {
        Ok(o) => StatusUpdate { state: conclude_spec(i, o), note: Note::Ready },
        Err(e) => StatusUpdate { state: RelayState::Error, note: Note::Failure(e) },
    }
}

/// Turn one intent and its exchange outcome into the update to publish.
pub fn step(i: Intent, x: Result<Option<RelayState>, RelayError>) -> (u: StatusUpdate)
    ensures
        u == step_spec(i, x),
{
    match x {
        Ok(o) => StatusUpdate { state: conclude(i, o), note: Note::Ready },
        Err(e) => StatusUpdate { state: RelayState::Error, note: Note::Failure(e) },
    }
}

/// The update published for one completed operation: the resulting state
/// with a ready note, or the error state with the failure as the note.
pub open spec fn update_spec(outcome: Result<RelayState, RelayError>) -> StatusUpdate {
    match outcome {
        Ok(s) => StatusUpdate { state: s, note: Note::Ready },
        Err(e) => StatusUpdate { state: RelayState::Error, note: Note::Failure(e) },
    }
}

/// Turn a completed operation's outcome into the update to publish.
pub fn update_for(outcome: Result<RelayState, RelayError>) -> (u: StatusUpdate)
    ensures
        u == update_spec(outcome),
{
    match outcome {
        Ok(s) => StatusUpdate { state: s, note: Note::Ready },
        Err(e) => StatusUpdate { state: RelayState::Error, note: Note::Failure(e) },
    }
}

/// One worker step is the publish-mapping of the concluded exchange: a
/// step on a raw exchange outcome publishes exactly what resolving the
/// intent first and mapping the result would publish.
pub proof fn lemma_step_is_update(i: Intent, x: Result<Option<RelayState>, RelayError>)
    ensures
        step_spec(i, x) == update_spec(
            match x {
                Ok(o) => Ok(conclude_spec(i, o)),
                Err(e) => Err(e),
            },
        ),
{
}

/// The updates published for a queue of intents whose exchanges ended in
/// the given outcomes, one per intent, in submission order.
pub open spec fn run_spec(
    intents: Seq<Intent>,
    exchanges: Seq<Result<Option<RelayState>, RelayError>>,
) -> Seq<StatusUpdate> {
    Seq::new(intents.len(), |i: int| step_spec(intents[i], exchanges[i]))
}

/// Drain a queue of intents against recorded exchange outcomes, returning
/// every published update in order. Each update depends only on its own
/// intent and outcome: the worker never reorders, batches, or coalesces.
pub fn run_steps(
    intents: &Vec<Intent>,
    exchanges: Vec<Result<Option<RelayState>, RelayError>>,
) -> (out: Vec<StatusUpdate>)
    requires
        intents@.len() == exchanges@.len(),
    ensures
        out@ == run_spec(intents@, exchanges@),
{
    let ghost all = exchanges@;
    let mut exchanges = exchanges;
    let mut out: Vec<StatusUpdate> = Vec::new();
    let mut i: usize = 0;
    while i < intents.len()
        invariant
            i <= intents@.len(),
            intents@.len() == all.len(),
            exchanges@ =~= all.skip(i as int),
            out@.len() == i,
            forall|j: int| 0 <= j < i ==> out@[j] == step_spec(intents@[j], all[j]),
        decreases intents@.len() - i,
    {
        let x = exchanges.remove(0);
        proof {
            assert(x == all[i as int]);
            assert(exchanges@ =~= all.skip(i + 1));
        }
        let u = step(intents[i], x);
        out.push(u);
        i = i + 1;
    }
    proof {
        assert(out@ =~= run_spec(intents@, all));
    }
    out
}

/// Whether an exchange outcome is one a real transport can produce: a
/// decoded response is only ever on or off, never the error state.
pub open spec fn transport_outcome(x: Result<Option<RelayState>, RelayError>) -> bool {
    x matches Ok(o) ==> o != Some(RelayState::Error)
}

/// Whether an exchange echoed a mutating intent with the matching
/// definitive state.
pub open spec fn echoes(i: Intent, x: Result<Option<RelayState>, RelayError>) -> bool {
    match i {
        Intent::TurnOn => x matches Ok(Some(RelayState::On)),
        Intent::TurnOff => x matches Ok(Some(RelayState::Off)),
        Intent::QueryStatus => x is Ok,
    }
}

/// Ordering law: against a transport that echoes every mutating intent
/// correctly, the published states follow the submitted intents one for
/// one, in submission order — turning on publishes on and turning off
/// publishes off, at exactly the position the intent was submitted.
pub proof fn lemma_intent_order(
    intents: Seq<Intent>,
    exchanges: Seq<Result<Option<RelayState>, RelayError>>,
)
    requires
        intents.len() == exchanges.len(),
        forall|i: int| 0 <= i < intents.len() ==> #[trigger] echoes(intents[i], exchanges[i]),
        forall|i: int| 0 <= i < intents.len() ==> intents[i] != Intent::QueryStatus,
    ensures
        run_spec(intents, exchanges).len() == intents.len(),
        forall|i: int| 0 <= i < intents.len() && intents[i] == Intent::TurnOn
            ==> #[trigger] run_spec(intents, exchanges)[i].state == RelayState::On,
        forall|i: int| 0 <= i < intents.len() && intents[i] == Intent::TurnOff
            ==> #[trigger] run_spec(intents, exchanges)[i].state == RelayState::Off,
{
    assert forall|i: int| 0 <= i < intents.len() && intents[i] == Intent::TurnOn
        implies #[trigger] run_spec(intents, exchanges)[i].state == RelayState::On by {
        assert(echoes(intents[i], exchanges[i]));
    }
    assert forall|i: int| 0 <= i < intents.len() && intents[i] == Intent::TurnOff
        implies #[trigger] run_spec(intents, exchanges)[i].state == RelayState::Off by {
        assert(echoes(intents[i], exchanges[i]));
    }
}

/// Failure-isolation law: when exactly one exchange fails with an I/O
/// error and every other exchange succeeds with a transport outcome, the
/// error state is published for that step and for no other — in particular
/// a later successful intent publishes a normal state again.
pub proof fn lemma_failure_isolation(
    intents: Seq<Intent>,
    exchanges: Seq<Result<Option<RelayState>, RelayError>>,
    k: int,
)
    requires
        intents.len() == exchanges.len(),
        0 <= k < intents.len(),
        exchanges[k] is Err,
        forall|i: int| 0 <= i < intents.len() && i != k ==> #[trigger] exchanges[i] is Ok,
        forall|i: int| 0 <= i < intents.len() ==> #[trigger] transport_outcome(exchanges[i]),
    ensures
        run_spec(intents, exchanges)[k].state == RelayState::Error,
        forall|i: int| 0 <= i < intents.len() && i != k
            ==> #[trigger] run_spec(intents, exchanges)[i].state != RelayState::Error,
{
    assert forall|i: int| 0 <= i < intents.len() && i != k
        implies #[trigger] run_spec(intents, exchanges)[i].state != RelayState::Error by {
        assert(exchanges[i] is Ok);
        assert(transport_outcome(exchanges[i]));
    }
}

} // verus!
