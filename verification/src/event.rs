//! Validation of a decoded frame and its classification into an event.

use vstd::prelude::*;

verus! {

/// Measurement code of a relative humidity reading.
pub const CODE_HUMD: u8 = 0x41;

/// Measurement code of an ambient temperature reading.
pub const CODE_TAMB: u8 = 0x42;

/// Measurement code of a CO2 concentration reading.
pub const CODE_CNTR: u8 = 0x50;

/// The value that byte 4 of every valid decoded frame holds.
pub const FRAME_MARKER: u8 = 0x0d;

/// Largest CO2 concentration that is taken as a reading; the device sends
/// larger values while it warms up.
pub const CNTR_LIMIT: u16 = 3000;

/// What one report of the device turned out to be.
///
/// Temperature and humidity carry the 16-bit word of the frame as the device
/// sent it: `temp` counts sixteenths of a kelvin, so the temperature is
/// `temp / 16 - 273.15` degrees Celsius, and the `value` of `Humidity` counts
/// hundredths of a percent.
#[derive(Debug, Clone, Copy, PartialEq, Eq)]
pub enum AirQulityEvent {
    AmbientTemperature { temp: u16 },
    RelativeConcentration { value: u16 },
    Humidity { value: u16 },
    UnexpectedData([u8; 8]),
    WrongPacket,
    ChecksumError,
    UninitializeData,
    UnknownCode([u8; 8]),
}

/// Name of the measurement under which readings go to a metrics sink.
pub const MEASUREMENT: &'static str = "co2monitor";

impl AirQulityEvent {
    /// The field of the measurement that this event fills. Only the three
    /// kinds of reading have one; the other events are not forwarded.
    pub fn field_name(&self) -> (name: Option<&'static str>)
        ensures
            match *self {
                AirQulityEvent::AmbientTemperature { .. } => name matches Some(s) && s@
                    == "ambient_temperature"@,
                AirQulityEvent::RelativeConcentration { .. } => name matches Some(s) && s@
                    == "relative_concentration"@,
                AirQulityEvent::Humidity { .. } => name matches Some(s) && s@ == "humidity"@,
                _ => name is None,
            },
    {
        match self {
            AirQulityEvent::AmbientTemperature { .. } => Some("ambient_temperature"),
            AirQulityEvent::RelativeConcentration { .. } => Some("relative_concentration"),
            AirQulityEvent::Humidity { .. } => Some("humidity"),
            _ => None,
        }
    }
}

/// Sum of the first three bytes of a frame, modulo 256.
pub open spec fn checksum_of(frame: [u8; 8]) -> u8 {
    ((frame[0] + frame[1] + frame[2]) % 256) as u8
}

/// The measurement value of a frame: bytes 1 and 2, big-endian.
pub open spec fn value_of(frame: [u8; 8]) -> u16 {
    (frame[1] * 256 + frame[2]) as u16
}

/// A frame is valid protocol data when it carries the marker and its
/// checksum byte matches.
pub open spec fn frame_is_valid(frame: [u8; 8]) -> bool {
    frame[4] == FRAME_MARKER && frame[3] == checksum_of(frame)
}

/// The event that a valid frame stands for, by its measurement code.
pub open spec fn measurement_of(frame: [u8; 8]) -> AirQulityEvent {
    let value = value_of(frame);
    if frame[0] == CODE_HUMD {
        AirQulityEvent::Humidity { value }
    } else if frame[0] == CODE_TAMB {
        AirQulityEvent::AmbientTemperature { temp: value }
    } else if frame[0] == CODE_CNTR {
        if value > CNTR_LIMIT {
            AirQulityEvent::UninitializeData
        } else {
            AirQulityEvent::RelativeConcentration { value }
        }
    } else {
        AirQulityEvent::UnknownCode(frame)
    }
}

/// The event of a decoded frame: the marker is looked at first, then the
/// checksum, then the measurement code.
pub open spec fn spec_classify(frame: [u8; 8]) -> AirQulityEvent {
    if frame[4] != FRAME_MARKER {
        AirQulityEvent::UnexpectedData(frame)
    } else if frame[3] != checksum_of(frame) {
        AirQulityEvent::ChecksumError
    } else {
        measurement_of(frame)
    }
}

/// Computes the checksum that byte 3 of a frame has to hold.
pub fn checksum(frame: &[u8; 8]) -> (sum: u8)
    ensures
        sum == checksum_of(*frame),
{
    0u8.wrapping_add(frame[0]).wrapping_add(frame[1]).wrapping_add(frame[2])
}

/// Validates a decoded frame and turns it into an event.
pub fn classify(frame: [u8; 8]) -> (event: AirQulityEvent)
    ensures
        event == spec_classify(frame),
{
    if frame[4] != FRAME_MARKER {
        return AirQulityEvent::UnexpectedData(frame);
    }
    if checksum(&frame) != frame[3] {
        return AirQulityEvent::ChecksumError;
    }
    let high: u8 = frame[1];
    let low: u8 = frame[2];
    assert((high as u16) << 8 == (high as u16) * 256) by (bit_vector);
    let w: u16 = ((high as u16) << 8) + low as u16;
    if frame[0] == CODE_HUMD {
        AirQulityEvent::Humidity { value: w }
    } else if frame[0] == CODE_TAMB {
        AirQulityEvent::AmbientTemperature { temp: w }
    } else if frame[0] == CODE_CNTR {
        if w > CNTR_LIMIT {
            AirQulityEvent::UninitializeData
        } else {
            AirQulityEvent::RelativeConcentration { value: w }
        }
    } else {
        AirQulityEvent::UnknownCode(frame)
    }
}

/// A frame that carries the marker and a matching checksum is never turned
/// away: its event is neither `ChecksumError` nor `UnexpectedData`.
pub proof fn lemma_valid_frame_is_accepted(frame: [u8; 8])
    requires
        frame_is_valid(frame),
    ensures
        spec_classify(frame) == measurement_of(frame),
        !(spec_classify(frame) is ChecksumError),
        !(spec_classify(frame) is UnexpectedData),
{
}

/// The marker comes first: a frame without it is `UnexpectedData`, and is
/// handed back whole, whatever its checksum byte holds.
pub proof fn lemma_marker_precedes_checksum(frame: [u8; 8])
    requires
        frame[4] != FRAME_MARKER,
    ensures
        spec_classify(frame) == AirQulityEvent::UnexpectedData(frame),
{
}

/// A CO2 frame gives its value as a reading up to the limit of 3000, and
/// `UninitializeData` above it.
pub proof fn lemma_concentration_limit(frame: [u8; 8])
    requires
        frame_is_valid(frame),
        frame[0] == CODE_CNTR,
    ensures
        value_of(frame) <= 3000 ==> spec_classify(frame) == (AirQulityEvent::RelativeConcentration {
            value: value_of(frame),
        }),
        value_of(frame) > 3000 ==> spec_classify(frame) == AirQulityEvent::UninitializeData,
{
}

} // verus!
