//! Decoding of the obfuscated 8-byte reports of a USB CO2 monitor.
//!
//! The library holds the frame pipeline of the device: the report decryptor,
//! the validation of a decoded frame and its classification into a typed
//! event, together with the session state that drives one report through
//! them. Talking to the device itself is left to the caller.

pub mod dump;
pub mod error;
pub mod event;
pub mod frame;
pub mod options;
pub mod sensor;

pub use error::Error;
pub use event::AirQulityEvent;
pub use frame::decrypt;
pub use options::OpenOptions;
pub use sensor::Sensor;
