use vstd::prelude::*;

use crate::error::KeyboardError;
use crate::text::{decimal, push_decimal};

verus! {

/// 0-based profile slot as used internally by the firmware.
#[derive(Clone, Copy, Debug, PartialEq, Eq, PartialOrd, Ord, Structural)]
pub struct ProfileIndex {
    slot: u8,
}

/// 1-based profile number as shown to the user.
///
/// Construct via `From<u8>`. The raw number is intentionally not exposed;
/// use `display_string` to print it.
#[derive(Clone, Copy, Debug, PartialEq, Eq, PartialOrd, Ord, Structural)]
pub struct ProfileNumber {
    number: u8,
}

impl View for ProfileIndex {
    type V = u8;

    closed spec fn view(&self) -> u8 {
        self.slot
    }
}

impl View for ProfileNumber {
    type V = u8;

    closed spec fn view(&self) -> u8 {
        self.number
    }
}

/// Profile numbers with the same number are the same value.
pub proof fn lemma_number_view_injective(a: ProfileNumber, b: ProfileNumber)
    ensures
        a@ == b@ ==> a == b,
{
}

/// Slots with the same number are the same value.
pub proof fn lemma_index_view_injective(a: ProfileIndex, b: ProfileIndex)
    ensures
        a@ == b@ ==> a == b,
{
}

/// The number following `number` in the cycle 1, 2, ..., count, 1, ...
/// (numbers above `count` are first reduced modulo `count`).
pub open spec fn next_in_cycle(number: u8, count: u8) -> u8
    recommends
        count >= 1,
{
    ((number % count) + 1) as u8
}

/// The number preceding `number` in the cycle count, ..., 2, 1, count, ...
pub open spec fn prev_in_cycle(number: u8, count: u8) -> u8
    recommends
        number >= 1,
{
    if number == 1 {
        count
    } else {
        (number - 1) as u8
    }
}

impl ProfileIndex {
    /// The slot selected by a 0-based firmware index.
    pub(crate) fn from_slot(slot: u8) -> (index: ProfileIndex)
        ensures
            index@ == slot,
    {
        ProfileIndex { slot }
    }

    /// The 0-based firmware slot.
    pub fn slot(self) -> (slot: u8)
        ensures
            slot == self@,
    {
        self.slot
    }
}

impl From<u8> for ProfileNumber {
    fn from(number: u8) -> (profile: Self)
        ensures
            profile@ == number,
    {
        ProfileNumber { number }
    }
}

impl vstd::std_specs::convert::FromSpecImpl<u8> for ProfileNumber {
    open spec fn obeys_from_spec() -> bool {
        true
    }

    closed spec fn from_spec(number: u8) -> Self {
        ProfileNumber { number }
    }
}

impl ProfileNumber {
    /// Returns the next profile, wrapping from the last back to the first.
    pub fn wrapping_next(self, count: u8) -> (next: ProfileNumber)
        requires
            count >= 1,
        ensures
            next@ == next_in_cycle(self@, count),
    {
        ProfileNumber { number: (self.number % count) + 1 }
    }

    /// Returns the previous profile, wrapping from the first back to the last.
    pub fn wrapping_prev(self, count: u8) -> (prev: ProfileNumber)
        requires
            self@ >= 1,
        ensures
            prev@ == prev_in_cycle(self@, count),
    {
        let number = if self.number == 1 {
            count
        } else {
            self.number - 1
        };
        ProfileNumber { number }
    }

    /// The user-facing number of a firmware slot: slot + 1.
    pub fn from_index(index: ProfileIndex) -> (profile: ProfileNumber)
        requires
            index@ < 255,
        ensures
            profile@ == index@ + 1,
    {
        ProfileNumber { number: index.slot + 1 }
    }

    /// The number in decimal, as shown to the user.
    pub fn display_string(&self) -> (text: String)
        ensures
            text@ == decimal(self@ as nat),
    {
        let mut text = String::new();
        push_decimal(&mut text, self.number);
        text
    }
}

impl TryFrom<ProfileNumber> for ProfileIndex {
    type Error = KeyboardError;

    fn try_from(profile: ProfileNumber) -> (res: Result<Self, KeyboardError>)
        ensures
            profile@ == 0 ==> res == Err::<ProfileIndex, KeyboardError>(KeyboardError::ProfileNumberZero),
            profile@ != 0 ==> (res matches Ok(index) && index@ == profile@ - 1),
    {
        if profile.number == 0 {
            return Err(KeyboardError::ProfileNumberZero);
        }
        let index = ProfileIndex { slot: profile.number - 1 };
        Ok(index)
    }
}

impl vstd::std_specs::convert::TryFromSpecImpl<ProfileNumber> for ProfileIndex {
    open spec fn obeys_try_from_spec() -> bool {
        true
    }

    closed spec fn try_from_spec(profile: ProfileNumber) -> Result<Self, KeyboardError> {
        if profile.number == 0 {
            Err(KeyboardError::ProfileNumberZero)
        } else {
            Ok(ProfileIndex { slot: (profile.number - 1) as u8 })
        }
    }
}

/// Stepping forward through `count` profiles always lands on a profile
/// numbered 1 to `count`; stepping back from a profile numbered 1 to `count`
/// does too.
pub proof fn lemma_wrapping_stays_in_range(number: u8, count: u8)
    requires
        count >= 1,
    ensures
        1 <= next_in_cycle(number, count) <= count,
        1 <= number <= count ==> 1 <= prev_in_cycle(number, count) <= count,
{
    assert(number % count < count) by (nonlinear_arith)
        requires
            count >= 1,
    ;
}

/// Among profiles numbered 1 to `count`, stepping back undoes stepping
/// forward and stepping forward undoes stepping back.
pub proof fn lemma_wrapping_inverse(number: u8, count: u8)
    requires
        1 <= number <= count,
    ensures
        prev_in_cycle(next_in_cycle(number, count), count) == number,
        next_in_cycle(prev_in_cycle(number, count), count) == number,
        number == count ==> next_in_cycle(number, count) == 1,
        number == 1 ==> prev_in_cycle(number, count) == count,
{
    vstd::arithmetic::div_mod::lemma_mod_self_0(count as int);
    if number < count {
        vstd::arithmetic::div_mod::lemma_small_mod(number as nat, count as nat);
    }
    let p = prev_in_cycle(number, count);
    if p < count {
        vstd::arithmetic::div_mod::lemma_small_mod(p as nat, count as nat);
    }
}

/// A slot and the profile number one above it correspond in both directions:
/// `ProfileIndex::try_from` maps the number back to the slot, and every
/// non-zero profile number is one above the slot it maps to.
pub proof fn lemma_index_number_round_trip(index: ProfileIndex, profile: ProfileNumber)
    ensures
        profile@ == index@ + 1 ==>
            <ProfileIndex as vstd::std_specs::convert::TryFromSpec<ProfileNumber>>::try_from_spec(profile)
                == Ok::<ProfileIndex, KeyboardError>(index),
        profile@ != 0 ==> (
            <ProfileIndex as vstd::std_specs::convert::TryFromSpec<ProfileNumber>>::try_from_spec(profile)
                matches Ok(i) && i@ < 255 && i@ + 1 == profile@),
{
}

} // verus!
