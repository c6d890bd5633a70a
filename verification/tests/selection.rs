//! Tests of device selection over enumerated port candidates.

use usb_relay::select::select;
use usb_relay::select::PortCandidate;
use usb_relay::select::PortKind;
use usb_relay::RelayError;

fn usb(name: &str, product: Option<&str>, manufacturer: Option<&str>) -> PortCandidate {
    PortCandidate {
        name: name.to_string(),
        kind: PortKind::Usb {
            product: product.map(|s| s.as_bytes().to_vec()),
            manufacturer: manufacturer.map(|s| s.as_bytes().to_vec()),
        },
    }
}

fn other(name: &str) -> PortCandidate {
    PortCandidate {
        name: name.to_string(),
        kind: PortKind::Other,
    }
}

#[test]
fn keyword_product_selected_first_position() {
    let cands = vec![
        usb("/dev/ttyUSB0", Some("CH340 serial converter"), None),
        usb("/dev/ttyUSB1", Some("Some modem"), Some("Acme")),
        other("/dev/ttyS0"),
    ];
    assert_eq!(select(&cands).unwrap(), 0);
}

#[test]
fn keyword_product_selected_middle_position() {
    let cands = vec![
        other("/dev/ttyS0"),
        usb("/dev/ttyUSB0", Some("Some modem"), Some("Acme")),
        usb("/dev/ttyUSB1", Some("CH340 serial converter"), None),
        usb("/dev/ttyUSB2", None, None),
    ];
    assert_eq!(select(&cands).unwrap(), 2);
}

#[test]
fn keyword_product_selected_last_position() {
    let cands = vec![
        other("/dev/ttyS0"),
        usb("/dev/ttyUSB0", None, Some("Acme")),
        usb("/dev/ttyUSB1", Some("CH340 serial converter"), None),
    ];
    assert_eq!(select(&cands).unwrap(), 2);
}

#[test]
fn keyword_in_manufacturer_selected() {
    let cands = vec![
        usb("/dev/ttyUSB0", Some("Generic adapter"), None),
        usb("/dev/ttyUSB1", None, Some("QinHeng CH341A")),
    ];
    assert_eq!(select(&cands).unwrap(), 1);
}

#[test]
fn keyword_match_is_case_insensitive() {
    let cands = vec![
        usb("/dev/ttyUSB0", Some("plain modem"), None),
        usb("/dev/ttyUSB1", Some("usb-serial adapter"), None),
    ];
    assert_eq!(select(&cands).unwrap(), 1);
}

#[test]
fn keyword_beats_earlier_plain_usb() {
    let cands = vec![
        usb("/dev/ttyUSB0", Some("Some modem"), None),
        usb("/dev/ttyUSB1", Some("CH341 converter"), None),
    ];
    assert_eq!(select(&cands).unwrap(), 1);
}

#[test]
fn keyword_on_non_usb_port_does_not_match() {
    // The keywords are only searched on USB-kind candidates; a matching
    // name on another kind is not consulted, so the first USB port wins.
    let cands = vec![
        other("/dev/ttyS0"),
        usb("/dev/ttyUSB0", Some("plain modem"), None),
    ];
    assert_eq!(select(&cands).unwrap(), 1);
}

#[test]
fn fallback_first_usb_of_any_description() {
    let cands = vec![
        other("/dev/ttyS0"),
        usb("/dev/ttyUSB0", Some("Some modem"), Some("Acme")),
        usb("/dev/ttyUSB1", None, None),
    ];
    assert_eq!(select(&cands).unwrap(), 1);
}

#[test]
fn fallback_usb_without_descriptor_strings() {
    let cands = vec![other("/dev/ttyS0"), usb("/dev/ttyUSB0", None, None)];
    assert_eq!(select(&cands).unwrap(), 1);
}

#[test]
fn keyword_embedded_in_longer_description_matches() {
    let cands = vec![
        usb("/dev/ttyUSB0", Some("plain modem"), None),
        usb("/dev/ttyUSB1", Some("wchCH341converter"), None),
    ];
    assert_eq!(select(&cands).unwrap(), 1);
}

#[test]
fn keyword_does_not_span_the_separator() {
    // Product and manufacturer are joined with a space, so "USB" and
    // "SERIAL" in separate strings do not form "USB-SERIAL"; the later
    // candidate with a real keyword match wins pass one.
    let cands = vec![
        usb("/dev/ttyUSB0", Some("USB"), Some("SERIAL")),
        usb("/dev/ttyUSB1", Some("USB-SERIAL converter"), None),
    ];
    assert_eq!(select(&cands).unwrap(), 1);
}

#[test]
fn truncated_keyword_does_not_match() {
    let cands = vec![
        usb("/dev/ttyUSB0", Some("CH34 bridge"), None),
        usb("/dev/ttyUSB1", Some("CH340 bridge"), None),
    ];
    assert_eq!(select(&cands).unwrap(), 1);
}

#[test]
fn no_usb_candidates_fails() {
    let cands = vec![other("/dev/ttyS0"), other("/dev/ttyS1")];
    assert!(matches!(
        select(&cands),
        Err(RelayError::NoDeviceFound)
    ));
}

#[test]
fn empty_candidates_fails() {
    let cands: Vec<PortCandidate> = vec![];
    assert!(matches!(
        select(&cands),
        Err(RelayError::NoDeviceFound)
    ));
}
