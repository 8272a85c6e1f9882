use w25q::{Error, ErrorKind};

#[test]
fn misuse_keeps_its_kind() {
    assert_eq!(Error::<(), ()>::NotAligned.kind(), ErrorKind::NotAligned);
    assert_eq!(Error::<(), ()>::OutOfBounds.kind(), ErrorKind::OutOfBounds);
}

#[test]
fn every_other_error_is_of_kind_other() {
    assert_eq!(Error::<u8, ()>::SpiError(3).kind(), ErrorKind::Other);
    assert_eq!(Error::<(), u8>::PinError(4).kind(), ErrorKind::Other);
    assert_eq!(Error::<(), ()>::WriteEnableFail.kind(), ErrorKind::Other);
    assert_eq!(Error::<(), ()>::ReadbackFail.kind(), ErrorKind::Other);
}

#[test]
fn the_specific_error_stays_available() {
    let error: Error<&str, ()> = Error::SpiError("bus fault");
    assert_eq!(error.kind(), ErrorKind::Other);
    assert_eq!(error, Error::SpiError("bus fault"));
    assert_ne!(Error::<(), ()>::WriteEnableFail, Error::ReadbackFail);
}
