//! The session with one device: what it was opened with, and the way of one
//! report from the bytes read to the event.

use crate::error::Error;
use crate::event::{classify, spec_classify, AirQulityEvent};
use crate::frame::{decrypt, spec_decrypt};
use crate::options::{native_timeout_of, timeout_fits, OpenOptions, OpenOptionsView};
use vstd::prelude::*;

verus! {

/// USB vendor identifier of the monitor.
pub const VENDOR_ID: u16 = 0x04d9;

/// USB product identifier of the monitor.
pub const PRODUCT_ID: u16 = 0xa052;

/// Devices up to this firmware release send obfuscated reports; later ones
/// send them decoded.
pub const LAST_OBFUSCATING_RELEASE: u16 = 0x0100;

/// What a session holds.
pub struct SensorView {
    pub key: [u8; 8],
    pub debug: bool,
    pub decode: bool,
    pub timeout: Option<i32>,
}

/// A session with one monitor.
#[derive(Debug)]
pub struct Sensor {
    debug: bool,
    decode: bool,
    key: [u8; 8],
    timeout: Option<i32>,
}

impl View for Sensor {
    type V = SensorView;

    closed spec fn view(&self) -> SensorView {
        SensorView { key: self.key, debug: self.debug, decode: self.decode, timeout: self.timeout }
    }
}

/// The feature report that seeds the device with a key: a zero byte for the
/// report number, then the eight bytes of the key.
pub open spec fn spec_feature_report(key: [u8; 8]) -> [u8; 9] {
    [0u8, key[0], key[1], key[2], key[3], key[4], key[5], key[6], key[7]]
}

/// The session that comes of a set of options and the firmware release
/// number that the device reports.
pub open spec fn session_of(options: OpenOptionsView, release_number: u16) -> SensorView {
    SensorView {
        key: options.key,
        debug: options.debug,
        decode: release_number <= LAST_OBFUSCATING_RELEASE,
        timeout: native_timeout_of(options.timeout),
    }
}

/// The frame that a session classifies: the decrypted report where the
/// session decodes, else the report as it came.
pub open spec fn spec_decode(session: SensorView, data: [u8; 8]) -> [u8; 8] {
    if session.decode {
        spec_decrypt(data, session.key)
    } else {
        data
    }
}

/// The outcome of one read cycle. `received` is the number of bytes that the
/// transport read into `data`, or `None` where the read failed.
pub open spec fn spec_read(session: SensorView, received: Option<usize>, data: [u8; 8]) -> Option<
    AirQulityEvent,
> {
    match received {
        None => None,
        Some(size) => if size != 8 {
            Some(AirQulityEvent::WrongPacket)
        } else {
            Some(spec_classify(spec_decode(session, data)))
        },
    }
}

/// The frame that is surfaced for inspection beside the event of a read
/// cycle: with the debug flag set, every frame that was read whole, as it is
/// classified.
pub open spec fn spec_inspect(session: SensorView, received: Option<usize>, data: [u8; 8]) -> Option<
    [u8; 8],
> {
    if session.debug && received == Some(8usize) {
        Some(spec_decode(session, data))
    } else {
        None
    }
}

impl OpenOptions {
    /// Makes the session for a device that was opened and reports the given
    /// firmware release number.
    pub fn open(&self, release_number: u16) -> (r: Result<Sensor, Error>)
        ensures
            match r {
                Ok(sensor) => timeout_fits(self@.timeout) && sensor@ == session_of(self@, release_number),
                Err(e) => !timeout_fits(self@.timeout) && e == Error::InvalidTimeout,
            },
    {
        Sensor::open(self, release_number)
    }
}

impl Sensor {
    #[verifier::type_invariant]
    spec fn timeout_is_not_negative(self) -> bool {
        self.timeout matches Some(t) ==> t >= 0
    }

    /// Makes the session from the options and the firmware release number
    /// of the opened device: devices up to release 0x0100 obfuscate their
    /// reports, later ones do not.
    pub(crate) fn open(options: &OpenOptions, release_number: u16) -> (r: Result<Sensor, Error>)
        ensures
            match r {
                Ok(sensor) => timeout_fits(options@.timeout) && sensor@ == session_of(options@, release_number),
                Err(e) => !timeout_fits(options@.timeout) && e == Error::InvalidTimeout,
            },
    {
        let timeout = match options.native_timeout() {
            Ok(t) => t,
            Err(e) => {
                return Err(e);
            },
        };
        let decode = if release_number > LAST_OBFUSCATING_RELEASE {
            false
        } else {
            true
        };
        Ok(Sensor { debug: options.debug_value(), decode, key: options.key_value(), timeout })
    }

    /// The nine bytes to send to the device as a feature report once it is
    /// open. The session stands whether or not the device takes them.
    pub fn feature_report(&self) -> (report: [u8; 9])
        ensures
            report == spec_feature_report(self@.key),
    {
        let mut report: [u8; 9] = [0; 9];
        let mut i: usize = 0;
        while i < 8
            invariant
                i <= 8,
                report[0] == 0,
                forall|j: int| 0 <= j < i ==> report[j + 1] == self.key[j],
            decreases 8 - i,
        {
            report[i + 1] = self.key[i];
            i += 1;
        }
        assert(report =~= spec_feature_report(self@.key));
        report
    }

    /// The timeout of a read in milliseconds, never negative; `None` stands
    /// for the blocking read of the transport.
    pub fn timeout(&self) -> (timeout: Option<i32>)
        ensures
            timeout == self@.timeout,
            timeout matches Some(t) ==> t >= 0,
    {
        proof {
            use_type_invariant(self);
        }
        self.timeout
    }

    /// Whether frames are surfaced for inspection beside the events.
    pub fn debug(&self) -> (debug: bool)
        ensures
            debug == self@.debug,
    {
        self.debug
    }

    /// Whether the session decrypts the reports that it reads.
    pub fn decodes(&self) -> (decode: bool)
        ensures
            decode == self@.decode,
    {
        self.decode
    }

    /// The frame to classify for a report that was read whole.
    pub fn decode(&self, data: [u8; 8]) -> (frame: [u8; 8])
        ensures
            frame == spec_decode(self@, data),
    {
        if self.decode {
            decrypt(data, self.key)
        } else {
            data
        }
    }

    /// The frame to surface for inspection beside the event that `read`
    /// gives for the same arguments, if there is one.
    pub fn inspect(&self, received: Option<usize>, data: [u8; 8]) -> (frame: Option<[u8; 8]>)
        ensures
            frame == spec_inspect(self@, received, data),
    {
        match received {
            Some(size) => {
                if self.debug && size == 8 {
                    Some(self.decode(data))
                } else {
                    None
                }
            },
            None => None,
        }
    }

    /// Takes the result of one read of the transport to its event.
    ///
    /// `received` is the number of bytes read into `data`, or `None` where
    /// the read failed, which ends the sequence of events. The session
    /// itself stays as it is.
    pub fn read(&mut self, received: Option<usize>, data: [u8; 8]) -> (event: Option<AirQulityEvent>)
        ensures
            event == spec_read(old(self)@, received, data),
            *final(self) == *old(self),
    {
        match received {
            None => None,
            Some(size) => {
                if size == 8 {
                    Some(classify(self.decode(data)))
                } else {
                    Some(AirQulityEvent::WrongPacket)
                }
            },
        }
    }
}

/// A read that failed ends the sequence of events, and a read of any
/// number of bytes but eight is a `WrongPacket`: nothing is decoded, so
/// neither the bytes nor the session make a difference.
pub proof fn lemma_short_read_is_wrong_packet(
    session: SensorView,
    received: Option<usize>,
    data: [u8; 8],
)
    requires
        received != Some(8usize),
    ensures
        received is None ==> spec_read(session, received, data) is None,
        received is Some ==> spec_read(session, received, data) == Some(AirQulityEvent::WrongPacket),
{
}

/// A report that was read whole always gives an event, the one of the
/// frame that `decode` makes of it.
pub proof fn lemma_whole_read_is_classified(session: SensorView, data: [u8; 8])
    ensures
        spec_read(session, Some(8usize), data) == Some(spec_classify(spec_decode(session, data))),
        session.decode ==> spec_decode(session, data) == spec_decrypt(data, session.key),
        !session.decode ==> spec_decode(session, data) == data,
{
}

/// The debug flag opens a side channel and nothing else: the event of a
/// read cycle is the same with and without it.
pub proof fn lemma_debug_keeps_the_event(
    session: SensorView,
    debug: bool,
    received: Option<usize>,
    data: [u8; 8],
)
    ensures
        spec_read(SensorView { debug: debug, ..session }, received, data) == spec_read(
            session,
            received,
            data,
        ),
{
}

} // verus!
