use wootswitch::command::Command;
use wootswitch::keyboard::{find_config_interface, model_name, HidInterface};
use wootswitch::profile::{ProfileIndex, ProfileNumber};
use wootswitch::protocol::Protocol;

fn index(number: u8) -> ProfileIndex {
    ProfileIndex::try_from(ProfileNumber::from(number)).unwrap()
}

#[test]
fn command_ids_follow_declaration_order() {
    assert_eq!(u8::from(Command::Ping), 0);
    assert_eq!(u8::from(Command::GetDigitalProfilesCount), 9);
    assert_eq!(u8::from(Command::GetCurrentKeyboardProfileIndex), 11);
    assert_eq!(u8::from(Command::ActivateProfile), 23);
    assert_eq!(u8::from(Command::WootDevInit), 33);
    assert_eq!(u8::from(Command::ReloadProfile), 38);
    assert_eq!(u8::from(Command::GetProfileMetadata), 55);
    assert_eq!(u8::from(Command::GetRgbBins), 59);
}

#[test]
fn usage_page_selects_protocol() {
    assert_eq!(Protocol::try_from(0x1337u16), Ok(Protocol::Standard));
    assert_eq!(Protocol::try_from(0xFF55u16), Ok(Protocol::Arm));
    assert_eq!(Protocol::try_from(0x0001u16), Err(()));
    assert_eq!(Protocol::try_from(0xFF54u16), Err(()));
}

#[test]
fn protocol_constants() {
    assert_eq!(Protocol::Standard.report_id(), 0);
    assert_eq!(Protocol::Arm.report_id(), 1);
    assert_eq!(Protocol::Standard.protocol_byte(), 0xD0);
    assert_eq!(Protocol::Arm.protocol_byte(), 0xD1);
    assert_eq!(Protocol::Standard.response_size(), 256);
    assert_eq!(Protocol::Arm.response_size(), 33);
}

#[test]
fn packet_without_argument() {
    assert_eq!(
        Protocol::Standard.build_packet(Command::WootDevInit),
        [0x00, 0xD0, 0xDA, 33, 0, 0, 0, 0]
    );
    assert_eq!(
        Protocol::Arm.build_packet(Command::GetCurrentKeyboardProfileIndex),
        [0x01, 0xD1, 0xDA, 11, 0, 0, 0, 0]
    );
}

#[test]
fn profile_slot_goes_to_byte_seven_on_standard() {
    assert_eq!(
        Protocol::Standard.build_packet_for_profile(Command::ActivateProfile, index(3)),
        [0x00, 0xD0, 0xDA, 23, 0, 0, 0, 2]
    );
}

#[test]
fn profile_slot_goes_to_byte_four_on_arm() {
    assert_eq!(
        Protocol::Arm.build_packet_for_profile(Command::GetProfileMetadata, index(5)),
        [0x01, 0xD1, 0xDA, 55, 4, 0, 0, 0]
    );
}

#[test]
fn finds_first_wooting_config_interface() {
    let interfaces = vec![
        HidInterface { vendor_id: 0x046D, usage_page: 0x1337 },
        HidInterface { vendor_id: 0x31E3, usage_page: 0x0001 },
        HidInterface { vendor_id: 0x31E3, usage_page: 0xFF54 },
        HidInterface { vendor_id: 0x31E3, usage_page: 0xFF55 },
        HidInterface { vendor_id: 0x31E3, usage_page: 0x1337 },
    ];
    assert_eq!(find_config_interface(&interfaces), Some((3, Protocol::Arm)));
}

#[test]
fn finds_standard_config_interface() {
    let interfaces = vec![
        HidInterface { vendor_id: 0x31E3, usage_page: 0x000C },
        HidInterface { vendor_id: 0x31E3, usage_page: 0x1337 },
    ];
    assert_eq!(find_config_interface(&interfaces), Some((1, Protocol::Standard)));
}

#[test]
fn no_wooting_keyboard() {
    let interfaces = vec![
        HidInterface { vendor_id: 0x046D, usage_page: 0xFF55 },
        HidInterface { vendor_id: 0x31E3, usage_page: 0x0001 },
    ];
    assert_eq!(find_config_interface(&interfaces), None);
    assert_eq!(find_config_interface(&[]), None);
}

#[test]
fn model_name_defaults() {
    assert_eq!(model_name(Some("Wooting 60HE+")), "Wooting 60HE+");
    assert_eq!(model_name(None), "Unknown Wooting");
}

#[test]
fn slot_zero_packet_is_plain_packet() {
    for protocol in [Protocol::Standard, Protocol::Arm] {
        assert_eq!(
            protocol.build_packet_for_profile(Command::ReloadProfile, index(1)),
            protocol.build_packet(Command::ReloadProfile)
        );
    }
}

#[test]
fn distinct_slots_give_distinct_packets() {
    for protocol in [Protocol::Standard, Protocol::Arm] {
        let a = protocol.build_packet_for_profile(Command::ActivateProfile, index(255));
        let b = protocol.build_packet_for_profile(Command::ActivateProfile, index(2));
        assert_ne!(a, b);
        assert_eq!(a[5], 0);
        assert_eq!(a[6], 0);
    }
}
