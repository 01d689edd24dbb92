//! Check-ins for the Tissue webhook.
//!
//! A [`CheckinBuilder`] takes the fields of a check-in one by one and
//! refuses each that breaks a rule, so that the [`Checkin`] it builds keeps
//! every rule. An [`IncomingEndpoint`] says where and what to post for a
//! check-in, and [`parse_response`] tells the answers of the service apart:
//! accepted, refused for listed reasons, or refused with a message.
//!
//! The library sends nothing itself. JSON is plain data here ([`Json`]), and
//! so is time ([`Timestamp`]); a transport turns both into what it sends and
//! receives.
//!
//! Every function is proved against its contract. What is taken from
//! outside is believed as stated where it is declared: how `chrono` writes
//! and reads RFC 3339 and what it returns for the current time (in
//! [`timestamp`]), and what `char::is_whitespace` and `str::trim` of the
//! standard library do (in [`text`]).

pub mod checkin;
pub mod error;
pub mod json;
pub mod text;
pub mod timestamp;
pub mod tissue;

pub use crate::checkin::{Checkin, CheckinBuilder};
pub use crate::error::{CheckinError, ResponseError};
pub use crate::json::{Json, Number};
pub use crate::timestamp::Timestamp;
pub use crate::tissue::{
    classify_response, parse_response, CheckinRequest, CheckinResponse, IncomingEndpoint,
    ReceivedCheckin,
};
