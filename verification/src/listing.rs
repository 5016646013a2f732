use vstd::prelude::*;

use crate::profile::{ProfileIndex, ProfileNumber};
use crate::response::MAX_PROFILES;
use crate::text::decimal;

verus! {

/// A keyboard profile: its number, name, and whether it is currently active.
#[derive(Debug)]
pub struct Profile {
    number: ProfileNumber,
    current: bool,
    name: String,
}

/// What a `Profile` holds.
pub struct ProfileView {
    pub number: u8,
    pub current: bool,
    pub name: Seq<char>,
}

/// All profiles on the keyboard along with which one is currently active.
/// A keyboard has 1 to 8 profiles, numbered 1 upwards in slot order.
#[derive(Debug)]
pub struct ProfileListing {
    profiles: Vec<Profile>,
    current: Option<ProfileNumber>,
}

impl ProfileListing {
    /// Every listing holds 1 to 8 profiles, the profile in slot `i` numbered
    /// `i + 1` and marked current exactly when the active profile has that
    /// number.
    #[verifier::type_invariant]
    spec fn well_formed(self) -> bool {
        &&& 1 <= self.profiles@.len() <= MAX_PROFILES
        &&& forall|i: int| 0 <= i < self.profiles@.len() ==> #[trigger] self.profiles@[i]@.number == i + 1
        &&& forall|i: int| 0 <= i < self.profiles@.len() ==>
            (#[trigger] self.profiles@[i]@.current <==> current_number(self.current) == Some((i + 1) as u8))
    }
}

/// What a `ProfileListing` holds.
pub struct ListingView {
    pub profiles: Seq<ProfileView>,
    pub current: Option<u8>,
}

impl View for Profile {
    type V = ProfileView;

    closed spec fn view(&self) -> ProfileView {
        ProfileView { number: self.number@, current: self.current, name: self.name@ }
    }
}

impl View for ProfileListing {
    type V = ListingView;

    closed spec fn view(&self) -> ListingView {
        ListingView {
            profiles: self.profiles@.map_values(|p: Profile| p@),
            current: match self.current {
                Some(n) => Some(n@),
                None => None,
            },
        }
    }
}

/// The name a profile is listed under: the name read from the keyboard, or
/// the empty string when none could be read.
pub open spec fn name_or_empty(name: Option<String>) -> Seq<char> {
    match name {
        Some(s) => s@,
        None => Seq::empty(),
    }
}

/// The profile number a listing marks as current, as a plain number.
pub open spec fn current_number(current: Option<ProfileNumber>) -> Option<u8> {
    match current {
        Some(n) => Some(n@),
        None => None,
    }
}

/// The listing of the profiles in slots 0 to `names.len() - 1`, slot `i`
/// named `names[i]`, given the number of the active profile (if it is known).
pub open spec fn listing_of(current: Option<u8>, names: Seq<Seq<char>>) -> ListingView {
    ListingView {
        profiles: Seq::new(
            names.len(),
            |i: int|
                ProfileView {
                    number: (i + 1) as u8,
                    current: current == Some((i + 1) as u8),
                    name: names[i],
                },
        ),
        current,
    }
}

/// How a profile is shown: `Profile <number> — <name>`.
pub open spec fn profile_label(profile: ProfileView) -> Seq<char> {
    "Profile "@ + decimal(profile.number as nat) + " — "@ + profile.name
}

/// The slots 0 to `count - 1`, in order: the slots whose names a listing of
/// `count` profiles needs.
pub fn profile_slots(count: u8) -> (slots: Vec<ProfileIndex>)
    ensures
        slots@.len() == count,
        forall|i: int| 0 <= i < count ==> #[trigger] slots@[i]@ == i,
{
    let mut slots: Vec<ProfileIndex> = Vec::new();
    let mut slot: u8 = 0;
    while slot < count
        invariant
            slot <= count,
            slots@.len() == slot,
            forall|i: int| 0 <= i < slot ==> #[trigger] slots@[i]@ == i,
        decreases count - slot,
    {
        slots.push(ProfileIndex::from_slot(slot));
        slot = slot + 1;
    }
    slots
}

impl Profile {
    /// A profile with the given number, active flag and name.
    pub(crate) fn new(number: ProfileNumber, current: bool, name: String) -> (profile: Profile)
        ensures
            profile@ == (ProfileView { number: number@, current, name: name@ }),
    {
        Profile { number, current, name }
    }

    /// The profile's number.
    pub fn number(&self) -> (number: ProfileNumber)
        ensures
            number@ == self@.number,
    {
        self.number
    }

    /// Whether the profile is the active one.
    pub fn is_current(&self) -> (current: bool)
        ensures
            current == self@.current,
    {
        self.current
    }

    /// The profile's name.
    pub fn name(&self) -> (name: &str)
        ensures
            name@ == self@.name,
    {
        self.name.as_str()
    }

    /// The profile as shown to the user: `Profile <number> — <name>`.
    pub fn display_string(&self) -> (text: String)
        ensures
            text@ == profile_label(self@),
    {
        proof {
            reveal_strlit("Profile ");
            reveal_strlit(" — ");
        }
        let mut text = String::from_str("Profile ");
        text.append(self.number.display_string().as_str());
        text.append(" — ");
        text.append(self.name.as_str());
        text
    }
}

impl ProfileListing {
    /// The listing of the profiles in slots 0 to `names.len() - 1`, where
    /// `names[i]` is the name read for slot `i` (`None` when it could not be
    /// read) and `current` is the active profile, if it could be read.
    pub fn from_names(current: Option<ProfileNumber>, names: &Vec<Option<String>>) -> (listing: ProfileListing)
        requires
            1 <= names@.len() <= MAX_PROFILES,
        ensures
            listing@ == listing_of(current_number(current), names@.map_values(|n: Option<String>| name_or_empty(n))),
            listing@.profiles.len() == names@.len(),
            forall|i: int| #![trigger listing@.profiles[i]] 0 <= i < names@.len() ==> {
                &&& listing@.profiles[i].number == i + 1
                &&& (names@[i] matches Some(s) ==> listing@.profiles[i].name == s@)
                &&& (names@[i] is None ==> listing@.profiles[i].name.len() == 0)
                &&& (listing@.profiles[i].current <==> (current matches Some(c) && c@ == i + 1))
            },
    {
        let ghost names_view = names@.map_values(|n: Option<String>| name_or_empty(n));
        let ghost target = listing_of(current_number(current), names_view);
        let mut profiles: Vec<Profile> = Vec::new();
        let mut i: usize = 0;
        while i < names.len()
            invariant
                i <= names@.len() <= MAX_PROFILES,
                names_view == names@.map_values(|n: Option<String>| name_or_empty(n)),
                target == listing_of(current_number(current), names_view),
                profiles@.len() == i,
                forall|j: int| 0 <= j < i ==> #[trigger] profiles@[j]@ == target.profiles[j],
            decreases names@.len() - i,
        {
            let number = ProfileNumber::from_index(ProfileIndex::from_slot(i as u8));
            let is_current = match current {
                Some(c) => c == number,
                None => false,
            };
            let name = match &names[i] {
                Some(n) => n.clone(),
                None => String::new(),
            };
            let profile = Profile { number, current: is_current, name };
            proof {
                if current is Some {
                    crate::profile::lemma_number_view_injective(number, current.unwrap());
                }
            }
            profiles.push(profile);
            i = i + 1;
        }
        let listing = ProfileListing { profiles, current };
        assert(listing@.profiles =~= target.profiles);
        listing
    }

    /// All profiles, in slot order: 1 to 8 of them, numbered 1 upwards.
    pub fn profiles(&self) -> (profiles: &[Profile])
        ensures
            profiles@.map_values(|p: Profile| p@) == self@.profiles,
            1 <= profiles@.len() <= MAX_PROFILES,
            forall|i: int| 0 <= i < profiles@.len() ==> #[trigger] profiles@[i]@.number == i + 1,
            forall|i: int| 0 <= i < profiles@.len() ==>
                (#[trigger] profiles@[i]@.current <==> self@.current == Some((i + 1) as u8)),
    {
        proof {
            use_type_invariant(self);
        }
        self.profiles.as_slice()
    }

    /// The profile marked current: the one numbered as the active profile,
    /// when that number is among the listed profiles.
    pub fn current_profile(&self) -> (profile: Option<&Profile>)
        ensures
            match profile {
                Some(p) => self@.current == Some(p@.number) && p@.current
                    && 1 <= p@.number <= self@.profiles.len() && self@.profiles[p@.number - 1] == p@,
                None => !(self@.current is Some && 1 <= self@.current.unwrap() <= self@.profiles.len()),
            },
            match profile {
                Some(p) => exists|i: int| {
                    &&& 0 <= i < self@.profiles.len()
                    &&& #[trigger] self@.profiles[i] == p@
                    &&& p@.current
                    &&& forall|j: int| 0 <= j < i ==> !(#[trigger] self@.profiles[j]).current
                },
                None => forall|j: int| 0 <= j < self@.profiles.len() ==> !(#[trigger] self@.profiles[j]).current,
            },
    {
        proof {
            use_type_invariant(self);
        }
        let profiles = self.profiles.as_slice();
        let ghost listing = self@;
        assert(forall|k: int| 0 <= k < listing.profiles.len() ==> #[trigger] listing.profiles[k] == self.profiles@[k]@);
        let mut i: usize = 0;
        while i < profiles.len()
            invariant
                i <= profiles@.len(),
                profiles@ == self.profiles@,
                listing == self@,
                listing.profiles.len() == profiles@.len(),
                forall|k: int| 0 <= k < listing.profiles.len() ==> #[trigger] listing.profiles[k] == profiles@[k]@,
                forall|k: int| 0 <= k < listing.profiles.len() ==> #[trigger] listing.profiles[k].number == k + 1,
                forall|k: int| 0 <= k < listing.profiles.len() ==>
                    (#[trigger] listing.profiles[k].current <==> listing.current == Some((k + 1) as u8)),
                forall|j: int| 0 <= j < i ==> !(#[trigger] self@.profiles[j]).current,
            decreases profiles@.len() - i,
        {
            if profiles[i].is_current() {
                assert(self@.profiles[i as int] == profiles@[i as int]@);
                return Some(&profiles[i]);
            }
            i = i + 1;
        }
        proof {
            if listing.current is Some && 1 <= listing.current.unwrap() <= listing.profiles.len() {
                let k = listing.current.unwrap() - 1;
                assert(listing.profiles[k].current);
            }
        }
        None
    }

    /// The active profile, if it could be read.
    pub fn current(&self) -> (current: Option<ProfileNumber>)
        ensures
            current_number(current) == self@.current,
    {
        self.current
    }
}

/// In any listing, at most one profile is marked current, and one is marked
/// exactly when the active profile's number lies between 1 and the number of
/// profiles listed; that profile is the one with the active profile's number.
pub proof fn lemma_listing_marks_one_current(current: Option<u8>, names: Seq<Seq<char>>, i: int, j: int)
    requires
        names.len() < 256,
    ensures
        ({
            let listing = listing_of(current, names);
            &&& (0 <= i < names.len() && 0 <= j < names.len() && listing.profiles[i].current
                && listing.profiles[j].current) ==> i == j
            &&& (0 <= i < names.len() && listing.profiles[i].current) ==> current == Some(listing.profiles[i].number)
            &&& (current is Some && 1 <= current.unwrap() <= names.len()) ==> ({
                let k = current.unwrap() - 1;
                listing.profiles[k].current && listing.profiles[k].number == current.unwrap()
            })
        }),
{
}

/// A name read from the keyboard is listed unchanged; a name that could not
/// be read is listed as the empty string.
pub proof fn lemma_name_or_empty_keeps_name(name: Option<String>)
    ensures
        name matches Some(s) ==> name_or_empty(name) == s@,
        name is None ==> name_or_empty(name).len() == 0,
{
}

/// The listing of `names` lists, for each slot `i`, exactly the name given for
/// it, numbered `i + 1`, and nothing else.
pub proof fn lemma_listing_keeps_names(current: Option<u8>, names: Seq<Seq<char>>, i: int)
    ensures
        listing_of(current, names).profiles.len() == names.len(),
        listing_of(current, names).current == current,
        0 <= i < names.len() ==> listing_of(current, names).profiles[i].name == names[i],
        0 <= i < names.len() < 256 ==> listing_of(current, names).profiles[i].number == i + 1,
{
}

} // verus!
