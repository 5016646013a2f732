use wootswitch::error::KeyboardError;
use wootswitch::keyboard::{ProfileCountProbe, SwitchPlan, SwitchStep};
use wootswitch::command::Command;
use wootswitch::profile::ProfileNumber;
use wootswitch::protocol::Protocol;
use wootswitch::response::Response;

const HEADER: [u8; 5] = [0x01, 0xD1, 0xDA, 0x00, 0x88];

fn response(payload: &[u8]) -> Response {
    let mut bytes = HEADER.to_vec();
    bytes.extend_from_slice(payload);
    let len = bytes.len();
    Response::from_read(bytes, len)
}

#[test]
fn read_is_truncated_to_bytes_read() {
    let buffer = vec![1, 2, 3, 4, 5, 6, 7, 8, 9, 10];
    let r = Response::from_read(buffer.clone(), 7);
    assert_eq!(r.raw(), &[1, 2, 3, 4, 5, 6, 7]);
    assert_eq!(r.data(), &[6, 7]);
    let whole = Response::from_read(buffer, 20);
    assert_eq!(whole.raw().len(), 10);
}

#[test]
fn data_of_short_response_is_empty() {
    let r = Response::from_read(vec![1, 2, 3, 4, 5, 6], 3);
    assert_eq!(r.raw(), &[1, 2, 3]);
    assert!(r.data().is_empty());
    let exact = Response::from_read(vec![1, 2, 3, 4, 5], 5);
    assert!(exact.data().is_empty());
}

#[test]
fn runtime_slot_standard_reads_first_byte() {
    let r = response(&[2, 9, 5]);
    assert_eq!(r.runtime_profile_slot(Protocol::Standard).unwrap().slot(), 2);
}

#[test]
fn runtime_slot_arm_reads_third_byte() {
    let r = response(&[0, 9, 3]);
    assert_eq!(r.runtime_profile_slot(Protocol::Arm).unwrap().slot(), 3);
}

#[test]
fn runtime_slot_too_short() {
    let r = response(&[0, 9]);
    assert_eq!(
        r.runtime_profile_slot(Protocol::Arm).unwrap_err(),
        KeyboardError::ActiveProfileResponseTooShort
    );
    assert_eq!(
        response(&[]).runtime_profile_slot(Protocol::Standard).unwrap_err(),
        KeyboardError::ActiveProfileResponseTooShort
    );
}

#[test]
fn reported_count() {
    assert_eq!(response(&[5]).reported_profile_count(), Some(5));
    assert_eq!(response(&[1]).reported_profile_count(), Some(1));
    assert_eq!(response(&[8]).reported_profile_count(), Some(8));
    assert_eq!(response(&[0]).reported_profile_count(), None);
    assert_eq!(response(&[9]).reported_profile_count(), None);
    assert_eq!(response(&[]).reported_profile_count(), None);
}

fn response_with_status(status: u8, payload: &[u8]) -> Response {
    let mut bytes = vec![0x01, 0xD1, 0xDA, 9, status];
    bytes.extend_from_slice(payload);
    let len = bytes.len();
    Response::from_read(bytes, len)
}

#[test]
fn unsupported_count_command_reports_no_count() {
    assert_eq!(response_with_status(0x66, &[3]).reported_profile_count(), None);
    assert_eq!(response_with_status(0x88, &[3]).reported_profile_count(), Some(3));
    assert_eq!(Response::from_read(vec![0x01, 0xD1, 0xDA, 9], 4).reported_profile_count(), None);
}

#[test]
fn unsupported_count_command_starts_probe() {
    let start = ProfileCountProbe::start(&response_with_status(0x66, &[3]));
    assert_eq!(start, ProfileCountProbe::Probing { slot: 0 });
}

#[test]
fn metadata_presence_follows_payload_length() {
    assert!(response(&[6, 0, 0x0a, 4, b'G', b'a', b'm', b'e']).holds_profile());
    assert!(!response(&[0, 0, 0x0a, 4, b'G', b'a', b'm', b'e']).holds_profile());
    assert!(!response(&[]).holds_profile());
    // a profile whose name cannot be decoded still counts as present
    assert!(response(&[4, 0, 0x0a, 2, 0xC3, 0x28]).holds_profile());
}

#[test]
fn metadata_name() {
    let r = response(&[6, 0, 0x0a, 4, b'G', b'a', b'm', b'e', 0, 0]);
    assert_eq!(r.profile_name(), Some("Game".to_string()));
}

#[test]
fn metadata_name_utf8() {
    let name = "Süß";
    let mut payload = vec![8, 0, 0x0a, name.len() as u8];
    payload.extend_from_slice(name.as_bytes());
    assert_eq!(response(&payload).profile_name(), Some(name.to_string()));
}

#[test]
fn metadata_empty_name() {
    assert_eq!(response(&[2, 0, 0x0a, 0]).profile_name(), Some(String::new()));
}

#[test]
fn metadata_absent_slot() {
    assert_eq!(response(&[0, 0, 0x0a, 4, b'G', b'a', b'm', b'e']).profile_name(), None);
}

#[test]
fn metadata_wrong_tag() {
    assert_eq!(response(&[6, 0, 0x12, 4, b'G', b'a', b'm', b'e']).profile_name(), None);
}

#[test]
fn metadata_truncated() {
    assert_eq!(response(&[6, 0, 0x0a, 4, b'G', b'a']).profile_name(), None);
    assert_eq!(response(&[6, 0, 0x0a]).profile_name(), None);
    assert_eq!(response(&[6]).profile_name(), None);
    assert_eq!(response(&[]).profile_name(), None);
}

#[test]
fn metadata_invalid_utf8() {
    assert_eq!(response(&[4, 0, 0x0a, 2, 0xC3, 0x28]).profile_name(), None);
}

fn metadata(present: bool) -> Response {
    if present {
        response(&[6, 0, 0x0a, 4, b'G', b'a', b'm', b'e'])
    } else {
        response(&[0, 0])
    }
}

fn probe(answers: &[Option<bool>], start: ProfileCountProbe) -> (u8, usize) {
    let mut probe = start;
    let mut asked = 0;
    while let Some(index) = probe.pending_slot() {
        assert_eq!(index.slot() as usize, asked);
        let reply = answers[asked].map(metadata);
        probe = probe.record(reply.as_ref());
        asked += 1;
    }
    (probe.count().unwrap(), asked)
}

#[test]
fn reported_count_needs_no_probe() {
    let start = ProfileCountProbe::start(&response(&[3]));
    assert_eq!(start, ProfileCountProbe::Counted { count: 3 });
    assert_eq!(probe(&[], start), (3, 0));
}

#[test]
fn probe_counts_leading_slots() {
    let start = ProfileCountProbe::start(&response(&[0]));
    assert_eq!(start, ProfileCountProbe::Probing { slot: 0 });
    assert_eq!(probe(&[Some(true), Some(true), Some(true), Some(false), Some(true)], start), (3, 4));
}

#[test]
fn probe_defaults_to_four() {
    let start = ProfileCountProbe::start(&response(&[]));
    assert_eq!(probe(&[Some(false)], start), (4, 1));
}

#[test]
fn probe_stops_at_eight() {
    let start = ProfileCountProbe::start(&response_with_status(0x66, &[]));
    assert_eq!(probe(&[Some(true); 8], start), (8, 8));
}

#[test]
fn probe_stops_at_unreadable_slot() {
    let start = ProfileCountProbe::start(&response(&[0]));
    assert_eq!(probe(&[Some(true), Some(true), None], start), (2, 3));
}

#[test]
fn switch_refuses_profile_zero() {
    assert_eq!(
        SwitchPlan::new(ProfileNumber::from(0), 4).unwrap_err(),
        KeyboardError::ProfileNumberZero
    );
}

#[test]
fn switch_refuses_missing_profile() {
    assert_eq!(
        SwitchPlan::new(ProfileNumber::from(5), 4).unwrap_err(),
        KeyboardError::ProfileDoesNotExist { profile: ProfileNumber::from(5), count: 4 }
    );
}

#[test]
fn switch_steps() {
    let plan = SwitchPlan::new(ProfileNumber::from(4), 4).unwrap();
    let steps = plan.steps();
    assert_eq!(steps.len(), 6);
    assert!(matches!(steps[0], SwitchStep::Send { command: Command::WootDevInit }));
    assert!(matches!(steps[1], SwitchStep::SendForProfile { command: Command::ActivateProfile, index } if index.slot() == 3));
    assert!(matches!(steps[2], SwitchStep::Settle { millis: 100 }));
    assert!(matches!(steps[3], SwitchStep::SendForProfile { command: Command::ReloadProfile, index } if index.slot() == 3));
    assert!(matches!(steps[4], SwitchStep::Settle { millis: 100 }));
    assert!(matches!(steps[5], SwitchStep::ReadName { index } if index.slot() == 3));
}

#[test]
fn switch_finishes_with_current_profile() {
    let plan = SwitchPlan::new(ProfileNumber::from(2), 3).unwrap();
    let profile = plan.finish(Some("CS2".to_string()));
    assert_eq!(profile.number(), ProfileNumber::from(2));
    assert!(profile.is_current());
    assert_eq!(profile.name(), "CS2");
    assert_eq!(profile.display_string(), "Profile 2 — CS2");
    let unnamed = plan.finish(None);
    assert_eq!(unnamed.name(), "");
}
