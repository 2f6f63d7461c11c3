//! Configuration of a session, in builder style.

use crate::error::Error;
use std::time::Duration;
use vstd::prelude::*;

verus! {

/// What `Duration::as_millis` of std returns for a duration: the number of
/// whole milliseconds in it.
pub uninterp spec fn duration_millis(d: Duration) -> u128;

/// `Duration::as_millis` of std: the total number of whole milliseconds
/// that the duration holds.
pub assume_specification[ Duration::as_millis ](d: &Duration) -> (millis: u128)
    ensures
        millis == duration_millis(*d),
;

/// `Duration::from_secs` of std: a duration of that many whole seconds,
/// which holds a thousand milliseconds for each of them.
pub assume_specification[ Duration::from_secs ](secs: u64) -> (d: Duration)
    ensures
        duration_millis(d) == secs * 1000,
;

/// Longest read timeout that the transport can take, in milliseconds.
pub const MAX_TIMEOUT_MILLIS: i32 = 0x7fff_ffff;

/// Whether a timeout can be handed to the transport: it has to fit its
/// count of milliseconds.
pub open spec fn timeout_fits(timeout: Option<Duration>) -> bool {
    timeout matches Some(d) ==> duration_millis(d) <= MAX_TIMEOUT_MILLIS
}

/// A timeout in the unit of the transport; `None` stands for its blocking
/// read.
pub open spec fn native_timeout_of(timeout: Option<Duration>) -> Option<i32> {
    match timeout {
        Some(d) => Some(duration_millis(d) as i32),
        None => None,
    }
}

/// Turns a count of milliseconds into the timeout of the transport, or
/// rejects it where it does not fit.
pub fn millis_to_native(millis: u128) -> (r: Result<i32, Error>)
    ensures
        millis <= MAX_TIMEOUT_MILLIS ==> r == Ok::<i32, Error>(millis as i32),
        millis > MAX_TIMEOUT_MILLIS ==> r == Err::<i32, Error>(Error::InvalidTimeout),
{
    if millis <= MAX_TIMEOUT_MILLIS as u128 {
        Ok(millis as i32)
    } else {
        Err(Error::InvalidTimeout)
    }
}

/// What a set of options holds.
pub struct OpenOptionsView {
    pub key: [u8; 8],
    pub debug: bool,
    pub timeout: Option<Duration>,
}

impl OpenOptionsView {
    /// These options with another debug flag.
    pub open spec fn set_debug(self, yesno: bool) -> OpenOptionsView {
        OpenOptionsView { debug: yesno, ..self }
    }

    /// These options with another key.
    pub open spec fn set_key(self, key: [u8; 8]) -> OpenOptionsView {
        OpenOptionsView { key: key, ..self }
    }

    /// These options with another timeout.
    pub open spec fn set_timeout(self, timeout: Option<Duration>) -> OpenOptionsView {
        OpenOptionsView { timeout: timeout, ..self }
    }
}

/// Options for opening the sensor.
#[derive(Debug, Clone)]
pub struct OpenOptions {
    key: [u8; 8],
    debug: bool,
    timeout: Option<Duration>,
}

impl View for OpenOptions {
    type V = OpenOptionsView;

    closed spec fn view(&self) -> OpenOptionsView {
        OpenOptionsView { key: self.key, debug: self.debug, timeout: self.timeout }
    }
}

/// The options that `OpenOptions::new` gives: an all-zero key, no debug
/// output and a timeout of five seconds.
pub open spec fn is_default(v: OpenOptionsView) -> bool {
    &&& forall|i: int| 0 <= i < 8 ==> v.key[i] == 0
    &&& !v.debug
    &&& v.timeout matches Some(d)
    &&& duration_millis(d) == 5000
}

impl OpenOptions {
    /// Creates a new set of options with the defaults.
    pub fn new() -> (options: OpenOptions)
        ensures
            is_default(options@),
    {
        OpenOptions { key: [0; 8], debug: false, timeout: Some(Duration::from_secs(5)) }
    }

    /// Sets whether raw and decoded frames are surfaced beside the events.
    pub fn debug(&mut self, yesno: bool) -> (chained: &mut OpenOptions)
        ensures
            chained@ == old(self)@.set_debug(yesno),
            *final(self) == *final(chained),
    {
        self.debug = yesno;
        self
    }

    /// Sets the obfuscation key.
    pub fn with_key(&mut self, key: [u8; 8]) -> (chained: &mut OpenOptions)
        ensures
            chained@ == old(self)@.set_key(key),
            *final(self) == *final(chained),
    {
        self.key = key;
        self
    }

    /// Sets the read timeout; `None` asks for the blocking read of the
    /// transport.
    pub fn timeout(&mut self, timeout: Option<Duration>) -> (chained: &mut OpenOptions)
        ensures
            chained@ == old(self)@.set_timeout(timeout),
            *final(self) == *final(chained),
    {
        self.timeout = timeout;
        self
    }

    /// The configured timeout in the unit of the transport. Fails with
    /// `InvalidTimeout` where it does not fit; this needs no device.
    pub fn native_timeout(&self) -> (r: Result<Option<i32>, Error>)
        ensures
            timeout_fits(self@.timeout) ==> r == Ok::<Option<i32>, Error>(
                native_timeout_of(self@.timeout),
            ),
            !timeout_fits(self@.timeout) ==> r == Err::<Option<i32>, Error>(Error::InvalidTimeout),
    {
        match self.timeout {
            None => Ok(None),
            Some(d) => match millis_to_native(d.as_millis()) {
                Ok(millis) => Ok(Some(millis)),
                Err(e) => Err(e),
            },
        }
    }
}

impl OpenOptions {
    pub(crate) fn key_value(&self) -> (key: [u8; 8])
        ensures
            key == self@.key,
    {
        self.key
    }

    pub(crate) fn debug_value(&self) -> (debug: bool)
        ensures
            debug == self@.debug,
    {
        self.debug
    }
}

impl Default for OpenOptions {
    fn default() -> (options: OpenOptions)
        ensures
            is_default(options@),
    {
        OpenOptions::new()
    }
}

/// Of two calls of a setter only the last one counts: what the first one
/// set is gone, whichever of the three setters it is.
pub proof fn lemma_last_setting_wins(
    v: OpenOptionsView,
    first: Option<Duration>,
    last: Option<Duration>,
    first_key: [u8; 8],
    last_key: [u8; 8],
    first_debug: bool,
    last_debug: bool,
)
    ensures
        v.set_timeout(first).set_timeout(last) == v.set_timeout(last),
        v.set_key(first_key).set_key(last_key) == v.set_key(last_key),
        v.set_debug(first_debug).set_debug(last_debug) == v.set_debug(last_debug),
{
}

/// A setter changes its own field and no other.
pub proof fn lemma_setters_keep_other_fields(
    v: OpenOptionsView,
    timeout: Option<Duration>,
    key: [u8; 8],
    debug: bool,
)
    ensures
        v.set_timeout(timeout).timeout == timeout,
        v.set_timeout(timeout).key == v.key,
        v.set_timeout(timeout).debug == v.debug,
        v.set_key(key).key == key,
        v.set_key(key).timeout == v.timeout,
        v.set_key(key).debug == v.debug,
        v.set_debug(debug).debug == debug,
        v.set_debug(debug).key == v.key,
        v.set_debug(debug).timeout == v.timeout,
{
}

/// A field that no call set holds its default: after any setter, the
/// other two fields of new options are what `new` gave them.
pub proof fn lemma_unset_fields_keep_defaults(
    v: OpenOptionsView,
    timeout: Option<Duration>,
    key: [u8; 8],
    debug: bool,
)
    requires
        is_default(v),
    ensures
        forall|i: int| 0 <= i < 8 ==> v.set_timeout(timeout).set_debug(debug).key[i] == 0,
        !v.set_timeout(timeout).set_key(key).debug,
        v.set_key(key).set_debug(debug).timeout matches Some(d) && duration_millis(d) == 5000,
        native_timeout_of(v.set_key(key).set_debug(debug).timeout) == Some(5000i32),
{
}

} // verus!
