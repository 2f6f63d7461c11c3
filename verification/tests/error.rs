use hidapi::HidError;
use rs_co2mon::Error;

#[test]
fn transport_error_becomes_a_hid_error() {
    let error = Error::from(HidError::HidApiError {
        message: String::from("device not found"),
    });
    match error {
        Error::Hid(inner) => match *inner {
            HidError::HidApiError { message } => assert_eq!(message, "device not found"),
            _ => panic!("the transport error was changed on the way"),
        },
        _ => panic!("a transport error has to come out as Error::Hid"),
    }
}

#[test]
fn question_mark_converts_a_transport_error() {
    fn fails() -> Result<(), Error> {
        Err(HidError::InitializationError)?;
        Ok(())
    }
    assert!(matches!(fails(), Err(Error::Hid(_))));
}

#[test]
fn errors_can_be_told_apart_and_printed() {
    assert_eq!(format!("{:?}", Error::InvalidTimeout), "InvalidTimeout");
    assert_eq!(format!("{:?}", Error::InvalidMessage), "InvalidMessage");
    assert_eq!(format!("{:?}", Error::Checksum), "Checksum");
    assert_eq!(format!("{:?}", Error::Timeout), "Timeout");
    assert!(!matches!(Error::Timeout, Error::InvalidTimeout));
}
