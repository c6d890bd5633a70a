//! Tests of the worker-step logic and the shared status store, driven by
//! simulated exchange outcomes.

use usb_relay::policy::run_steps;
use usb_relay::Intent;
use usb_relay::IoStep;
use usb_relay::Note;
use usb_relay::RelayError;
use usb_relay::RelayState;
use usb_relay::SharedStatus;

#[test]
fn shared_status_initial() {
    let s = SharedStatus::new();
    assert_eq!(s.state, RelayState::Unknown);
    assert!(matches!(s.note, Note::Initializing));
}

#[test]
fn note_connected_keeps_state() {
    let mut s = SharedStatus::new();
    s.note_connected();
    assert_eq!(s.state, RelayState::Unknown);
    assert!(matches!(s.note, Note::Connected));
}

#[test]
fn intents_execute_in_submission_order() {
    let intents = vec![Intent::TurnOn, Intent::TurnOff, Intent::TurnOn];
    // A transport that echoes every mutating command with its state.
    let exchanges = vec![
        Ok(Some(RelayState::On)),
        Ok(Some(RelayState::Off)),
        Ok(Some(RelayState::On)),
    ];
    let updates = run_steps(&intents, exchanges);
    let states: Vec<RelayState> = updates.iter().map(|u| u.state).collect();
    assert_eq!(states, vec![RelayState::On, RelayState::Off, RelayState::On]);

    // Publishing each update in order leaves the store at the last state.
    let mut store = SharedStatus::new();
    for u in updates {
        store.publish(u);
    }
    assert_eq!(store.state, RelayState::On);
    assert!(matches!(store.note, Note::Ready));
}

#[test]
fn single_failure_is_isolated() {
    let intents = vec![Intent::TurnOn, Intent::TurnOff, Intent::TurnOn];
    let exchanges = vec![
        Ok(Some(RelayState::On)),
        Err(RelayError::Io(IoStep::Reading, "interrupted".to_string())),
        Ok(Some(RelayState::On)),
    ];
    let updates = run_steps(&intents, exchanges);
    assert_eq!(updates.len(), 3);
    assert_eq!(updates[0].state, RelayState::On);
    assert_eq!(updates[1].state, RelayState::Error);
    assert!(matches!(
        updates[1].note,
        Note::Failure(RelayError::Io(IoStep::Reading, _))
    ));
    // The subsequent successful intent restores a normal state.
    assert_eq!(updates[2].state, RelayState::On);
    assert!(matches!(updates[2].note, Note::Ready));
}

#[test]
fn no_response_run_assumes_mutations_only() {
    let intents = vec![Intent::TurnOn, Intent::QueryStatus, Intent::TurnOff];
    // A transport that never echoes anything definitive.
    let exchanges = vec![Ok(None), Ok(None), Ok(None)];
    let updates = run_steps(&intents, exchanges);
    let states: Vec<RelayState> = updates.iter().map(|u| u.state).collect();
    assert_eq!(
        states,
        vec![RelayState::On, RelayState::Unknown, RelayState::Off]
    );
}
