use usb_ep0::driver::{DriverOp, Ep0In};
use usb_ep0::Error;

#[test]
fn start_copies_bytes_and_marks_in_flight() {
    let mut driver = Ep0In::new();
    assert!(!driver.in_flight());
    let bytes = [1u8, 2, 3, 4];
    assert_eq!(driver.start(&bytes), Ok(()));
    assert!(driver.in_flight());
    assert_eq!(driver.buffered().as_slice(), &bytes);
    assert_eq!(driver.ops().as_slice(), &[DriverOp::Start { len: 4 }]);
}

#[test]
fn second_start_without_complete_fails_and_keeps_first_transfer() {
    let mut driver = Ep0In::new();
    assert_eq!(driver.start(&[9u8, 8, 7]), Ok(()));
    assert_eq!(driver.start(&[1u8]), Err(Error::TransferAlreadyInFlight));
    // the first transfer's marker, bytes and log are intact
    assert!(driver.in_flight());
    assert_eq!(driver.buffered().as_slice(), &[9u8, 8, 7]);
    assert_eq!(driver.ops().as_slice(), &[DriverOp::Start { len: 3 }]);
}

#[test]
fn complete_clears_in_flight_and_is_logged() {
    let mut driver = Ep0In::new();
    driver.start(&[5u8; 18]).unwrap();
    driver.complete();
    assert!(!driver.in_flight());
    assert_eq!(
        driver.ops().as_slice(),
        &[DriverOp::Start { len: 18 }, DriverOp::Complete]
    );
}

#[test]
fn complete_is_idempotent_when_nothing_is_in_flight() {
    let mut driver = Ep0In::new();
    driver.complete();
    assert!(!driver.in_flight());
    assert!(driver.ops().is_empty());

    driver.start(&[1u8, 2]).unwrap();
    driver.complete();
    driver.complete();
    assert_eq!(
        driver.ops().as_slice(),
        &[DriverOp::Start { len: 2 }, DriverOp::Complete]
    );
}

#[test]
fn start_succeeds_again_after_complete() {
    let mut driver = Ep0In::new();
    driver.start(&[1u8]).unwrap();
    driver.complete();
    assert_eq!(driver.start(&[2u8, 3]), Ok(()));
    assert_eq!(driver.buffered().as_slice(), &[2u8, 3]);
}

#[test]
fn cancel_discards_transfer_without_logging() {
    let mut driver = Ep0In::new();
    driver.start(&[1u8, 2, 3]).unwrap();
    driver.cancel();
    assert!(!driver.in_flight());
    assert_eq!(driver.ops().as_slice(), &[DriverOp::Start { len: 3 }]);
    // a new transfer may start after the cancellation
    assert_eq!(driver.start(&[4u8]), Ok(()));
}
