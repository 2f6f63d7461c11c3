use rs_co2mon::options::OpenOptions;
use rs_co2mon::AirQulityEvent;
use std::time::Duration;

#[test]
fn new_options_hold_the_defaults() {
    let options = OpenOptions::new();
    assert!(matches!(options.native_timeout(), Ok(Some(5000))));
    let sensor = options.open(0x0100).unwrap();
    assert_eq!(sensor.feature_report(), [0u8; 9]);
    assert!(!sensor.debug());
    assert_eq!(sensor.timeout(), Some(5000));
}

#[test]
fn default_is_the_same_as_new() {
    let sensor = OpenOptions::default().open(0x0100).unwrap();
    assert_eq!(sensor.feature_report(), [0u8; 9]);
    assert!(!sensor.debug());
    assert_eq!(sensor.timeout(), Some(5000));
}

#[test]
fn last_timeout_wins() {
    let sensor = OpenOptions::new()
        .timeout(Some(Duration::from_secs(7)))
        .timeout(Some(Duration::from_secs(2)))
        .open(0x0100)
        .unwrap();
    assert_eq!(sensor.timeout(), Some(2000));

    let sensor = OpenOptions::new()
        .timeout(None)
        .timeout(Some(Duration::from_millis(10)))
        .open(0x0100)
        .unwrap();
    assert_eq!(sensor.timeout(), Some(10));

    let sensor = OpenOptions::new()
        .timeout(Some(Duration::from_millis(10)))
        .timeout(None)
        .open(0x0100)
        .unwrap();
    assert_eq!(sensor.timeout(), None);
}

#[test]
fn invalid_timeout_can_be_set_right_again() {
    let mut options = OpenOptions::new();
    options.timeout(Some(Duration::MAX));
    assert!(options.open(0x0100).is_err());
    options.timeout(Some(Duration::from_secs(1)));
    assert_eq!(options.open(0x0100).unwrap().timeout(), Some(1000));
}

#[test]
fn last_key_and_last_debug_flag_win() {
    let sensor = OpenOptions::new()
        .with_key([1; 8])
        .with_key([2, 3, 4, 5, 6, 7, 8, 9])
        .debug(true)
        .debug(false)
        .open(0x0100)
        .unwrap();
    assert_eq!(sensor.feature_report(), [0, 2, 3, 4, 5, 6, 7, 8, 9]);
    assert!(!sensor.debug());
}

#[test]
fn setters_leave_the_other_fields_alone() {
    let sensor = OpenOptions::new().timeout(None).open(0x0100).unwrap();
    assert_eq!(sensor.feature_report(), [0u8; 9]);
    assert!(!sensor.debug());

    let sensor = OpenOptions::new().with_key([9; 8]).open(0x0100).unwrap();
    assert_eq!(sensor.timeout(), Some(5000));
    assert!(!sensor.debug());

    let sensor = OpenOptions::new().debug(true).open(0x0100).unwrap();
    assert!(sensor.debug());
    assert_eq!(sensor.timeout(), Some(5000));
    assert_eq!(sensor.feature_report(), [0u8; 9]);
}

#[test]
fn options_can_be_cloned_and_open_more_than_once() {
    let mut options = OpenOptions::new();
    options.with_key([7; 8]).timeout(Some(Duration::from_secs(3)));
    let copy = options.clone();
    options.with_key([8; 8]);
    let first = copy.open(0x0100).unwrap();
    let second = copy.open(0x0300).unwrap();
    assert_eq!(first.feature_report(), [0, 7, 7, 7, 7, 7, 7, 7, 7]);
    assert_eq!(second.feature_report(), first.feature_report());
    assert_eq!(first.timeout(), Some(3000));
    assert!(first.decodes());
    assert!(!second.decodes());
    assert_eq!(options.open(0x0100).unwrap().feature_report()[1], 8);
}

#[test]
fn session_with_default_key_reads_plain_frames_of_new_firmware() {
    let mut sensor = OpenOptions::new().open(0x0110).unwrap();
    assert_eq!(
        sensor.read(Some(8), [0x50, 0x01, 0x90, 0xe1, 0x0d, 0, 0, 0]),
        Some(AirQulityEvent::RelativeConcentration { value: 400 })
    );
}
