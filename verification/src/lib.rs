//! Verified core of a profile switcher for Wooting keyboards.
//!
//! The keyboard is driven through HID feature reports. This crate holds the
//! wire format (packets, response layout), the profile numbering rules and
//! the decision logic of each keyboard operation; the actual HID transport
//! lives with the caller.

pub mod command;
pub mod protocol;
pub mod error;
pub mod profile;
pub mod response;
pub mod text;
pub mod listing;
pub mod keyboard;
