use rs_co2mon::event::{checksum, classify, MEASUREMENT};
use rs_co2mon::AirQulityEvent;

fn frame(code: u8, value: u16) -> [u8; 8] {
    let high = (value >> 8) as u8;
    let low = (value & 0xff) as u8;
    let sum = code.wrapping_add(high).wrapping_add(low);
    [code, high, low, sum, 0x0d, 0, 0, 0]
}

#[test]
fn concentration_of_exactly_3000_is_a_reading() {
    assert_eq!(
        classify([0x50, 0x0b, 0xb8, 0x13, 0x0d, 0, 0, 0]),
        AirQulityEvent::RelativeConcentration { value: 3000 }
    );
}

#[test]
fn concentration_of_3001_is_uninitialized_data() {
    assert_eq!(
        classify([0x50, 0x0b, 0xb9, 0x14, 0x0d, 0, 0, 0]),
        AirQulityEvent::UninitializeData
    );
}

#[test]
fn concentration_limit_holds_for_every_value() {
    for value in 0..=u16::MAX {
        let event = classify(frame(0x50, value));
        if value <= 3000 {
            assert_eq!(event, AirQulityEvent::RelativeConcentration { value });
        } else {
            assert_eq!(event, AirQulityEvent::UninitializeData);
        }
    }
}

#[test]
fn humidity_carries_the_word_in_hundredths_of_a_percent() {
    assert_eq!(
        classify([0x41, 0x11, 0xab, 0xfd, 0x0d, 0, 0, 0]),
        AirQulityEvent::Humidity { value: 4523 }
    );
    // 4523 hundredths of a percent are 45.23 %.
    assert!((4523 as f64 / 100.0 - 45.23).abs() < 1e-9);
}

#[test]
fn temperature_carries_the_word_in_sixteenths_of_a_kelvin() {
    assert_eq!(
        classify([0x42, 0x12, 0x69, 0xbd, 0x0d, 0, 0, 0]),
        AirQulityEvent::AmbientTemperature { temp: 0x1269 }
    );
}

#[test]
fn value_is_read_big_endian() {
    assert_eq!(
        classify(frame(0x41, 0x0102)),
        AirQulityEvent::Humidity { value: 258 }
    );
    assert_eq!(
        classify(frame(0x42, 0xff00)),
        AirQulityEvent::AmbientTemperature { temp: 65280 }
    );
}

#[test]
fn unknown_code_hands_the_frame_back() {
    let f = [0x6d, 0x01, 0x02, 0x70, 0x0d, 0xaa, 0xbb, 0xcc];
    assert_eq!(classify(f), AirQulityEvent::UnknownCode(f));
}

#[test]
fn wrong_checksum_is_a_checksum_error() {
    assert_eq!(
        classify([0x42, 0x10, 0x64, 0x76, 0x0d, 0, 0, 0]),
        AirQulityEvent::ChecksumError
    );
    assert_eq!(
        classify([0x50, 0x0b, 0xb8, 0x14, 0x0d, 0, 0, 0]),
        AirQulityEvent::ChecksumError
    );
}

#[test]
fn checksum_wraps_at_256() {
    let f = [0xf0, 0xf0, 0xf0, 0xd0, 0x0d, 0, 0, 0];
    assert_eq!(checksum(&f), 0xd0);
    assert_eq!(classify(f), AirQulityEvent::UnknownCode(f));
    assert_eq!(checksum(&[0x42, 0x10, 0x64, 0, 0, 0, 0, 0]), 0xb6);
    assert_eq!(checksum(&[0xff, 0xff, 0xff, 0, 0, 0, 0, 0]), 0xfd);
}

#[test]
fn missing_marker_wins_over_a_valid_checksum() {
    let f = [0x42, 0x10, 0x64, 0xb6, 0x0c, 0, 0, 0];
    assert_eq!(classify(f), AirQulityEvent::UnexpectedData(f));
}

#[test]
fn missing_marker_wins_over_a_wrong_checksum() {
    let f = [0x42, 0x10, 0x64, 0x00, 0x00, 0, 0, 0];
    assert_eq!(classify(f), AirQulityEvent::UnexpectedData(f));
}

#[test]
fn valid_frames_are_never_turned_away() {
    for code in 0..=u8::MAX {
        for step in 0..=255u16 {
            let value = step.wrapping_mul(257).wrapping_add(code as u16);
            let event = classify(frame(code, value));
            assert_ne!(event, AirQulityEvent::ChecksumError);
            assert!(!matches!(event, AirQulityEvent::UnexpectedData(_)));
        }
    }
}

#[test]
fn trailing_bytes_do_not_matter_to_a_reading() {
    assert_eq!(
        classify([0x50, 0x01, 0xf4, 0x45, 0x0d, 0x12, 0x34, 0x56]),
        AirQulityEvent::RelativeConcentration { value: 500 }
    );
}

#[test]
fn readings_have_a_field_name_and_other_events_have_none() {
    assert_eq!(MEASUREMENT, "co2monitor");
    assert_eq!(
        AirQulityEvent::AmbientTemperature { temp: 4196 }.field_name(),
        Some("ambient_temperature")
    );
    assert_eq!(
        AirQulityEvent::RelativeConcentration { value: 400 }.field_name(),
        Some("relative_concentration")
    );
    assert_eq!(
        AirQulityEvent::Humidity { value: 4523 }.field_name(),
        Some("humidity")
    );
    assert_eq!(AirQulityEvent::WrongPacket.field_name(), None);
    assert_eq!(AirQulityEvent::ChecksumError.field_name(), None);
    assert_eq!(AirQulityEvent::UninitializeData.field_name(), None);
    assert_eq!(AirQulityEvent::UnexpectedData([0; 8]).field_name(), None);
    assert_eq!(AirQulityEvent::UnknownCode([0; 8]).field_name(), None);
}
