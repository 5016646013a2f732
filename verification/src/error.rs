use vstd::prelude::*;

use crate::profile::ProfileNumber;

verus! {

/// Why a keyboard operation was refused.
#[derive(Clone, Copy, Debug, PartialEq, Eq, Structural)]
pub enum KeyboardError {
    /// Profile numbers are 1-based; 0 names no profile.
    ProfileNumberZero,
    /// The requested profile lies beyond the keyboard's profile count.
    ProfileDoesNotExist { profile: ProfileNumber, count: u8 },
    /// The `GetCurrentKeyboardProfileIndex` response ended before the byte
    /// that holds the runtime-active profile.
    ActiveProfileResponseTooShort,
}

} // verus!
