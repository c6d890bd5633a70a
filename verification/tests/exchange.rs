//! Tests of read-outcome interpretation and of the controller over
//! enumerated candidates.

use usb_relay::select::PortCandidate;
use usb_relay::select::PortKind;
use usb_relay::transport::interpret;
use usb_relay::transport::ReadOutcome;
use usb_relay::transport::RelayController;
use usb_relay::IoStep;
use usb_relay::RelayError;
use usb_relay::RelayState;

#[test]
fn timeout_is_not_an_error() {
    assert!(matches!(interpret(ReadOutcome::TimedOut), Ok(None)));
}

#[test]
fn interpret_decodes_arrived_bytes() {
    assert!(matches!(
        interpret(ReadOutcome::Data(vec![0xA0, 0x01, 0x01, 0x00])),
        Ok(Some(RelayState::On))
    ));
    assert!(matches!(
        interpret(ReadOutcome::Data(vec![0xA0, 0x01, 0x00, 0x00])),
        Ok(Some(RelayState::Off))
    ));
}

#[test]
fn interpret_short_or_mismatched_chunk_is_not_definitive() {
    assert!(matches!(
        interpret(ReadOutcome::Data(vec![0x00, 0x00, 0x01])),
        Ok(None)
    ));
    assert!(matches!(interpret(ReadOutcome::Data(vec![])), Ok(None)));
}

#[test]
fn interpret_read_failure_is_an_io_error_at_the_reading_step() {
    match interpret(ReadOutcome::Failed("device unplugged".to_string())) {
        Err(RelayError::Io(step, m)) => {
            assert_eq!(step, IoStep::Reading);
            assert_eq!(m, "device unplugged");
        }
        _ => panic!("expected an I/O error"),
    }
}

#[test]
fn detect_device_returns_the_selected_name() {
    let cands = vec![
        PortCandidate {
            name: "/dev/ttyS0".to_string(),
            kind: PortKind::Other,
        },
        PortCandidate {
            name: "/dev/ttyUSB3".to_string(),
            kind: PortKind::Usb {
                product: Some(b"CH340 serial converter".to_vec()),
                manufacturer: None,
            },
        },
    ];
    assert_eq!(RelayController::detect_device(&cands).unwrap(), "/dev/ttyUSB3");
}

#[test]
fn detect_device_without_usb_candidates_fails() {
    let cands = vec![PortCandidate {
        name: "/dev/ttyS0".to_string(),
        kind: PortKind::Other,
    }];
    assert!(matches!(
        RelayController::detect_device(&cands),
        Err(RelayError::NoDeviceFound)
    ));
}

#[test]
fn controller_new_fails_with_port_open_on_a_missing_port() {
    let cands = vec![PortCandidate {
        name: "/dev/nonexistent-relay-port".to_string(),
        kind: PortKind::Usb {
            product: Some(b"CH340 serial converter".to_vec()),
            manufacturer: None,
        },
    }];
    assert!(matches!(
        RelayController::new(&cands),
        Err(RelayError::PortOpen(_))
    ));
}

#[test]
fn controller_new_without_usb_candidates_fails() {
    let cands: Vec<PortCandidate> = vec![];
    assert!(matches!(
        RelayController::new(&cands),
        Err(RelayError::NoDeviceFound)
    ));
}
