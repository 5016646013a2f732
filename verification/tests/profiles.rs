use wootswitch::error::KeyboardError;
use wootswitch::listing::{profile_slots, ProfileListing};
use wootswitch::profile::{ProfileIndex, ProfileNumber};

fn number(n: u8) -> ProfileNumber {
    ProfileNumber::from(n)
}

#[test]
fn wrapping_next_cycles() {
    assert_eq!(number(1).wrapping_next(3), number(2));
    assert_eq!(number(2).wrapping_next(3), number(3));
    assert_eq!(number(3).wrapping_next(3), number(1));
    assert_eq!(number(1).wrapping_next(1), number(1));
    assert_eq!(number(9).wrapping_next(4), number(2));
}

#[test]
fn wrapping_prev_cycles() {
    assert_eq!(number(3).wrapping_prev(3), number(2));
    assert_eq!(number(2).wrapping_prev(3), number(1));
    assert_eq!(number(1).wrapping_prev(3), number(3));
    assert_eq!(number(1).wrapping_prev(8), number(8));
}

#[test]
fn wrapping_prev_undoes_wrapping_next() {
    for count in 1..=8u8 {
        for n in 1..=count {
            assert_eq!(number(n).wrapping_next(count).wrapping_prev(count), number(n));
            assert_eq!(number(n).wrapping_prev(count).wrapping_next(count), number(n));
        }
    }
}

#[test]
fn profile_number_zero_has_no_slot() {
    assert_eq!(ProfileIndex::try_from(number(0)), Err(KeyboardError::ProfileNumberZero));
}

#[test]
fn slot_and_number_round_trip() {
    for n in 1..=255u8 {
        let index = ProfileIndex::try_from(number(n)).unwrap();
        assert_eq!(index.slot(), n - 1);
        assert_eq!(ProfileNumber::from_index(index), number(n));
    }
}

#[test]
fn number_display() {
    assert_eq!(number(0).display_string(), "0");
    assert_eq!(number(7).display_string(), "7");
    assert_eq!(number(42).display_string(), "42");
    assert_eq!(number(100).display_string(), "100");
    assert_eq!(number(255).display_string(), "255");
}

#[test]
fn slots_to_list() {
    let slots = profile_slots(3);
    let raw: Vec<u8> = slots.iter().map(|s| s.slot()).collect();
    assert_eq!(raw, vec![0, 1, 2]);
    assert!(profile_slots(0).is_empty());
}

#[test]
fn listing_marks_current_profile() {
    let names = vec![Some("Coding".to_string()), None, Some("CS2".to_string())];
    let listing = ProfileListing::from_names(Some(number(3)), &names);
    assert_eq!(listing.current(), Some(number(3)));
    let profiles = listing.profiles();
    assert_eq!(profiles.len(), 3);
    assert_eq!(profiles[0].number(), number(1));
    assert_eq!(profiles[0].name(), "Coding");
    assert!(!profiles[0].is_current());
    assert_eq!(profiles[1].number(), number(2));
    assert_eq!(profiles[1].name(), "");
    assert!(!profiles[1].is_current());
    assert_eq!(profiles[2].number(), number(3));
    assert_eq!(profiles[2].name(), "CS2");
    assert!(profiles[2].is_current());
}

#[test]
fn listing_without_known_current() {
    let names = vec![Some("Coding".to_string()), Some("CS2".to_string())];
    let listing = ProfileListing::from_names(None, &names);
    assert_eq!(listing.current(), None);
    assert!(listing.profiles().iter().all(|p| !p.is_current()));
}

#[test]
fn listing_current_beyond_count() {
    let names = vec![Some("Coding".to_string()), Some("CS2".to_string())];
    let listing = ProfileListing::from_names(Some(number(5)), &names);
    assert_eq!(listing.current(), Some(number(5)));
    assert_eq!(listing.profiles().iter().filter(|p| p.is_current()).count(), 0);
}

#[test]
fn current_profile_is_found() {
    let names = vec![Some("Coding".to_string()), Some("CS2".to_string())];
    let listing = ProfileListing::from_names(Some(number(2)), &names);
    let current = listing.current_profile().unwrap();
    assert_eq!(current.name(), "CS2");
    assert_eq!(current.number(), number(2));
    let none = ProfileListing::from_names(None, &names);
    assert!(none.current_profile().is_none());
    let beyond = ProfileListing::from_names(Some(number(3)), &names);
    assert!(beyond.current_profile().is_none());
}

#[test]
fn profile_display() {
    let names = vec![Some("Coding".to_string()), Some("CS2".to_string())];
    let listing = ProfileListing::from_names(Some(number(1)), &names);
    assert_eq!(listing.profiles()[0].display_string(), "Profile 1 — Coding");
    assert_eq!(listing.profiles()[1].display_string(), "Profile 2 — CS2");
}
