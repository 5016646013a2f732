use vstd::prelude::*;

use crate::command::Command;
use crate::error::KeyboardError;
use crate::listing::{name_or_empty, Profile, ProfileView};
use crate::profile::{ProfileIndex, ProfileNumber};
use crate::protocol::{protocol_of_usage_page, Protocol, WOOTING_VID};
use crate::response::{metadata_holds_profile, payload, reported_count, Response, MAX_PROFILES};

verus! {

/// Fallback profile count when the firmware does not report one (ARM devices)
/// and no slot answers the metadata probe.
pub const DEFAULT_PROFILE_COUNT: u8 = 4;

/// Delay after activating and after reloading a profile, in milliseconds.
pub const PROFILE_SWITCH_SETTLE_MS: u64 = 100;

/// Name shown for a keyboard whose HID interface reports no product string.
pub const UNKNOWN_MODEL: &'static str = "Unknown Wooting";

/// The identifying fields of one HID interface found on the bus.
#[derive(Clone, Copy, Debug)]
pub struct HidInterface {
    pub vendor_id: u16,
    pub usage_page: u16,
}

/// An interface that accepts Wooting configuration commands.
pub open spec fn is_config_interface(interface: HidInterface) -> bool {
    interface.vendor_id == WOOTING_VID && protocol_of_usage_page(interface.usage_page) is Some
}

/// Picks the keyboard's configuration interface among the interfaces on the
/// bus: the first one with Wooting's vendor ID and a configuration usage page,
/// together with the protocol that usage page selects.
pub fn find_config_interface(interfaces: &[HidInterface]) -> (found: Option<(usize, Protocol)>)
    ensures
        match found {
            Some((k, protocol)) => {
                &&& k < interfaces@.len()
                &&& is_config_interface(interfaces@[k as int])
                &&& protocol_of_usage_page(interfaces@[k as int].usage_page) == Some(protocol)
                &&& forall|j: int| 0 <= j < k ==> !is_config_interface(#[trigger] interfaces@[j])
            },
            None => forall|j: int| 0 <= j < interfaces@.len() ==> !is_config_interface(#[trigger] interfaces@[j]),
        },
{
    let mut k: usize = 0;
    while k < interfaces.len()
        invariant
            k <= interfaces@.len(),
            forall|j: int| 0 <= j < k ==> !is_config_interface(#[trigger] interfaces@[j]),
        decreases interfaces@.len() - k,
    {
        let interface = interfaces[k];
        if interface.vendor_id == WOOTING_VID {
            match Protocol::try_from(interface.usage_page) {
                Ok(protocol) => {
                    return Some((k, protocol));
                },
                Err(_) => {},
            }
        }
        k = k + 1;
    }
    None
}

/// The model name shown for a keyboard: its HID product string, or
/// "Unknown Wooting" when it has none.
pub fn model_name(product: Option<&str>) -> (name: String)
    ensures
        name@ == match product {
            Some(p) => p@,
            None => UNKNOWN_MODEL@,
        },
{
    match product {
        Some(p) => p.to_owned(),
        None => String::from_str(UNKNOWN_MODEL),
    }
}

/// Progress of working out how many profiles a keyboard has.
///
/// The count comes from `GetDigitalProfilesCount` when the firmware carries it
/// out and reports a valid one. Otherwise (ARM firmware answers that command
/// with status 0x66, unsupported) the slots 0, 1, 2, ... are probed with
/// `GetProfileMetadata` until one reports payload length 0 (or cannot be
/// read) or all 8 answered; the count is the number of slots that hold a
/// profile, or 4 when none does.
#[derive(Clone, Copy, Debug, PartialEq, Eq, Structural)]
pub enum ProfileCountProbe {
    /// The next slot to probe.
    Probing { slot: u8 },
    /// The profile count is known.
    Counted { count: u8 },
}

/// The probe after learning whether its pending slot holds a profile.
pub open spec fn probe_step(probe: ProfileCountProbe, present: bool) -> ProfileCountProbe {
    match probe {
        ProfileCountProbe::Probing { slot } => if !present {
            ProfileCountProbe::Counted { count: if slot == 0 { DEFAULT_PROFILE_COUNT } else { slot } }
        } else if slot + 1 >= MAX_PROFILES {
            ProfileCountProbe::Counted { count: MAX_PROFILES }
        } else {
            ProfileCountProbe::Probing { slot: (slot + 1) as u8 }
        },
        ProfileCountProbe::Counted { .. } => probe,
    }
}

/// The profile count found by probing from `slot`, when the metadata response
/// for slot `i` reports a profile exactly when `present[i]`: the number of
/// consecutive slots from 0 that hold a profile (at most 8), or 4 when slot 0
/// does not.
pub open spec fn probed_count_from(slot: nat, present: Seq<bool>) -> u8
    decreases MAX_PROFILES - slot,
{
    if slot >= MAX_PROFILES {
        MAX_PROFILES
    } else if slot < present.len() && present[slot as int] {
        probed_count_from(slot + 1, present)
    } else if slot == 0 {
        DEFAULT_PROFILE_COUNT
    } else {
        slot as u8
    }
}

/// The probe after `steps` metadata responses, slot `i` holding a profile
/// exactly when `present[i]`.
pub open spec fn run_probe(probe: ProfileCountProbe, present: Seq<bool>, steps: nat) -> ProfileCountProbe
    decreases steps,
{
    if steps == 0 {
        probe
    } else {
        match probe {
            ProfileCountProbe::Probing { slot } => run_probe(
                probe_step(probe, slot < present.len() && present[slot as int]),
                present,
                (steps - 1) as nat,
            ),
            ProfileCountProbe::Counted { .. } => probe,
        }
    }
}

/// A probe state that the probe can reach: a slot still to probe, or a count
/// between 1 and 8.
pub open spec fn probe_valid(probe: ProfileCountProbe) -> bool {
    match probe {
        ProfileCountProbe::Probing { slot } => slot < MAX_PROFILES,
        ProfileCountProbe::Counted { count } => 1 <= count <= MAX_PROFILES,
    }
}

impl ProfileCountProbe {
    /// Starts from the `GetDigitalProfilesCount` response: done when it
    /// reports a valid count, otherwise probing from slot 0.
    pub fn start(response: &Response) -> (probe: ProfileCountProbe)
        ensures
            match reported_count(response@) {
                Some(count) => probe == ProfileCountProbe::Counted { count },
                None => probe == ProfileCountProbe::Probing { slot: 0 },
            },
            probe_valid(probe),
    {
        match response.reported_profile_count() {
            Some(count) => ProfileCountProbe::Counted { count },
            None => ProfileCountProbe::Probing { slot: 0 },
        }
    }

    /// The slot whose metadata is to be requested next, or `None` once the
    /// count is known.
    pub fn pending_slot(&self) -> (slot: Option<ProfileIndex>)
        ensures
            match *self {
                ProfileCountProbe::Probing { slot: s } => slot matches Some(index) && index@ == s,
                ProfileCountProbe::Counted { .. } => slot is None,
            },
    {
        match *self {
            ProfileCountProbe::Probing { slot } => Some(ProfileIndex::from_slot(slot)),
            ProfileCountProbe::Counted { .. } => None,
        }
    }

    /// Records the `GetProfileMetadata` response for the pending slot (`None`
    /// when it could not be obtained): the slot holds a profile exactly when
    /// the response's payload length byte is present and not 0.
    pub fn record(self, metadata: Option<&Response>) -> (next: ProfileCountProbe)
        ensures
            next == probe_step(self, match metadata {
                Some(response) => metadata_holds_profile(payload(response@)),
                None => false,
            }),
            probe_valid(self) ==> probe_valid(next),
    {
        let present = match metadata {
            Some(response) => response.holds_profile(),
            None => false,
        };
        match self {
            ProfileCountProbe::Probing { slot } => if !present {
                ProfileCountProbe::Counted { count: if slot == 0 { DEFAULT_PROFILE_COUNT } else { slot } }
            } else if slot >= MAX_PROFILES - 1 {
                ProfileCountProbe::Counted { count: MAX_PROFILES }
            } else {
                ProfileCountProbe::Probing { slot: slot + 1 }
            },
            ProfileCountProbe::Counted { .. } => self,
        }
    }

    /// The profile count, once known.
    pub fn count(&self) -> (count: Option<u8>)
        ensures
            probe_valid(*self) && count is Some ==> 1 <= count.unwrap() <= MAX_PROFILES,
            match *self {
                ProfileCountProbe::Counted { count: c } => count == Some(c),
                ProfileCountProbe::Probing { .. } => count is None,
            },
    {
        match *self {
            ProfileCountProbe::Counted { count } => Some(count),
            ProfileCountProbe::Probing { .. } => None,
        }
    }
}

/// Probing from `slot` onwards ends, within the slots left, with the count
/// that the answers give.
proof fn lemma_run_probe_from(slot: u8, present: Seq<bool>)
    requires
        slot < MAX_PROFILES,
    ensures
        run_probe(ProfileCountProbe::Probing { slot }, present, (MAX_PROFILES - slot) as nat)
            == (ProfileCountProbe::Counted { count: probed_count_from(slot as nat, present) }),
    decreases MAX_PROFILES - slot,
{
    let probe = ProfileCountProbe::Probing { slot };
    let steps = (MAX_PROFILES - slot) as nat;
    let answer = slot < present.len() && present[slot as int];
    let next = probe_step(probe, answer);
    assert(run_probe(probe, present, steps) == run_probe(next, present, (steps - 1) as nat));
    if answer && slot + 1 < MAX_PROFILES {
        lemma_run_probe_from((slot + 1) as u8, present);
    } else {
        assert(next is Counted);
        assert(run_probe(next, present, (steps - 1) as nat) == next);
        if slot + 1 >= MAX_PROFILES {
            assert(probed_count_from((slot + 1) as nat, present) == MAX_PROFILES);
        }
    }
}

/// Probing a keyboard whose metadata response for slot `i` reports a profile
/// (payload length not 0) exactly when `present[i]` ends after at most 8
/// metadata requests, with a count between 1 and 8: the number of consecutive
/// slots from 0 that hold a profile, or 4 when slot 0 does not.
pub proof fn lemma_probe_finds_count(present: Seq<bool>)
    ensures
        run_probe(ProfileCountProbe::Probing { slot: 0 }, present, MAX_PROFILES as nat)
            == (ProfileCountProbe::Counted { count: probed_count_from(0, present) }),
        1 <= probed_count_from(0, present) <= MAX_PROFILES,
{
    lemma_run_probe_from(0, present);
    lemma_probed_count_bounds(0, present);
}

/// The count found by probing from `slot` is between 1 and 8, and at least
/// `slot` once slot 0 answered.
proof fn lemma_probed_count_bounds(slot: nat, present: Seq<bool>)
    ensures
        1 <= probed_count_from(slot, present) <= MAX_PROFILES,
        slot > 0 && slot <= MAX_PROFILES ==> probed_count_from(slot, present) >= slot,
    decreases MAX_PROFILES - slot,
{
    if slot < MAX_PROFILES {
        lemma_probed_count_bounds(slot + 1, present);
    }
}

/// One step of switching profiles, for the caller to carry out in order.
#[derive(Clone, Copy, Debug)]
pub enum SwitchStep {
    /// Send a command without arguments.
    Send { command: Command },
    /// Send a command whose argument is a profile slot.
    SendForProfile { command: Command, index: ProfileIndex },
    /// Wait for the firmware to settle.
    Settle { millis: u64 },
    /// Read the name of the profile in the slot, then finish the plan.
    ReadName { index: ProfileIndex },
}

/// A checked request to switch to a profile: initialise, activate, settle,
/// reload, settle, then read the profile's name.
#[derive(Clone, Copy, Debug)]
pub struct SwitchPlan {
    profile: ProfileNumber,
    index: ProfileIndex,
}

/// What a `SwitchPlan` holds: the profile switched to and its slot.
pub struct SwitchPlanView {
    pub profile: u8,
    pub slot: u8,
}

impl View for SwitchPlan {
    type V = SwitchPlanView;

    closed spec fn view(&self) -> SwitchPlanView {
        SwitchPlanView { profile: self.profile@, slot: self.index@ }
    }
}

/// The steps that switch to the profile in `slot`, in order.
pub open spec fn switch_steps_match(steps: Seq<SwitchStep>, slot: u8) -> bool {
    &&& steps.len() == 6
    &&& steps[0] == SwitchStep::Send { command: Command::WootDevInit }
    &&& steps[1] matches SwitchStep::SendForProfile { command, index }
        && command == Command::ActivateProfile && index@ == slot
    &&& steps[2] == SwitchStep::Settle { millis: PROFILE_SWITCH_SETTLE_MS }
    &&& steps[3] matches SwitchStep::SendForProfile { command, index }
        && command == Command::ReloadProfile && index@ == slot
    &&& steps[4] == SwitchStep::Settle { millis: PROFILE_SWITCH_SETTLE_MS }
    &&& steps[5] matches SwitchStep::ReadName { index } && index@ == slot
}

impl SwitchPlan {
    /// Checks a request to switch to `profile` on a keyboard with `count`
    /// profiles: profile 0 and profiles above `count` are refused.
    pub fn new(profile: ProfileNumber, count: u8) -> (plan: Result<SwitchPlan, KeyboardError>)
        ensures
            profile@ == 0 ==> plan == Err::<SwitchPlan, KeyboardError>(KeyboardError::ProfileNumberZero),
            profile@ > count ==> plan == Err::<SwitchPlan, KeyboardError>(
                KeyboardError::ProfileDoesNotExist { profile, count },
            ),
            1 <= profile@ <= count ==> (plan matches Ok(p) && p@ == (SwitchPlanView {
                profile: profile@,
                slot: (profile@ - 1) as u8,
            })),
    {
        let index = match ProfileIndex::try_from(profile) {
            Ok(index) => index,
            Err(e) => {
                return Err(e);
            },
        };
        proof {
            crate::profile::lemma_index_number_round_trip(index, profile);
        }
        if index.slot() >= count {
            return Err(KeyboardError::ProfileDoesNotExist { profile, count });
        }
        Ok(SwitchPlan { profile, index })
    }

    /// The steps to carry out, in order.
    pub fn steps(&self) -> (steps: Vec<SwitchStep>)
        ensures
            switch_steps_match(steps@, self@.slot),
    {
        let index = self.index;
        let steps = vec![
            SwitchStep::Send { command: Command::WootDevInit },
            SwitchStep::SendForProfile { command: Command::ActivateProfile, index },
            SwitchStep::Settle { millis: PROFILE_SWITCH_SETTLE_MS },
            SwitchStep::SendForProfile { command: Command::ReloadProfile, index },
            SwitchStep::Settle { millis: PROFILE_SWITCH_SETTLE_MS },
            SwitchStep::ReadName { index },
        ];
        steps
    }

    /// The profile switched to, now current, under the name read for it
    /// (empty when none could be read).
    pub fn finish(&self, name: Option<String>) -> (profile: Profile)
        ensures
            profile@ == (ProfileView { number: self@.profile, current: true, name: name_or_empty(name) }),
            name matches Some(s) ==> profile@.name == s@,
            name is None ==> profile@.name.len() == 0,
            profile@.number == self@.profile,
            profile@.current,
    {
        let name = match name {
            Some(n) => n,
            None => String::new(),
        };
        Profile::new(self.profile, true, name)
    }
}

} // verus!
