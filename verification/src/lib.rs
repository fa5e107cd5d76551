//! Client library for Viessmann "Optolink" heating-controller interfaces.
//!
//! The library covers the protocol and codec core: the two wire protocols
//! (the KW-style polling protocol and the framed P300 telegram protocol),
//! modelled as explicit state machines that a transport driver feeds with
//! events, and the typed `Command`/`Unit`/`Value` model that turns raw byte
//! ranges of a device register into domain values and back.
//!
//! All I/O (serial line or TCP socket) lives outside this crate: a driver
//! performs the `Io` actions that the protocol state machines request and
//! hands the observed bytes back as events.

use vstd::prelude::*;

mod error;
pub use crate::error::{Error, IoError, IoErrorKind};

mod common;
pub use crate::common::{hex_to_u8, string_to_u8, u8_to_hex};

pub mod types;

mod value;
pub use crate::value::Value;

mod unit;
pub use crate::unit::{EnumMapping, Unit};

mod command;
pub use crate::command::{AccessMode, Command};

pub mod protocol;

pub mod device;
pub use crate::device::{Device, ProtocolKind};

mod vcontrol;
pub use crate::vcontrol::{GetExchange, NegotiateExchange, SetExchange, VControl};

verus! {

} // verus!
