use vstd::prelude::*;

use crate::command::{command_id, Command};
use crate::profile::{lemma_index_view_injective, ProfileIndex};

verus! {

/// USB vendor ID shared by all Wooting devices.
pub const WOOTING_VID: u16 = 0x31E3;
/// HID usage page of the configuration interface on standard firmware.
pub const CFG_USAGE_PAGE: u16 = 0x1337;
/// HID usage page of the configuration interface on ARM firmware.
pub const CFG_V3_USAGE_PAGE: u16 = 0xFF55;

/// Third byte in every command packet: fixed framing marker of the command channel.
pub const WOOTING_COMMAND_MAGIC: u8 = 0xDA;

/// Protocol identifier bytes: second byte of every command packet.
pub const STANDARD_PROTOCOL_BYTE: u8 = 0xD0;
pub const ARM_PROTOCOL_BYTE: u8 = 0xD1;

/// HID report IDs: 0 for standard (no explicit report ID), 1 for ARM.
pub const STANDARD_REPORT_ID: u8 = 0;
pub const ARM_REPORT_ID: u8 = 1;

/// Full response buffer sizes including the report ID byte.
pub const STANDARD_RESPONSE_SIZE: usize = 256;
/// ARM response: 1 report ID byte + 32 data bytes.
pub const ARM_RESPONSE_SIZE: usize = 33;

/// Byte positions within the 8-byte command packet for the profile slot argument.
/// ARM firmware reads the slot from byte 4; standard firmware from byte 7.
pub const PROFILE_SLOT_BYTE_ARM: usize = 4;
pub const PROFILE_SLOT_BYTE_STANDARD: usize = 7;

/// Length of every command packet.
pub const PACKET_LEN: usize = 8;

/// Wire-protocol variant: encapsulates every per-device HID difference.
#[derive(Clone, Copy, Debug, PartialEq, Eq, Structural)]
pub enum Protocol {
    /// Older/standard devices (usage_page 0x1337)
    Standard,
    /// ARM-based devices: 60HE+, Two HE ARM, ... (usage_page 0xFF55)
    Arm,
}

/// The protocol spoken by the configuration interface with the given usage page,
/// if that usage page is one of the two configuration pages.
pub open spec fn protocol_of_usage_page(usage_page: u16) -> Option<Protocol> {
    if usage_page == CFG_USAGE_PAGE {
        Some(Protocol::Standard)
    } else if usage_page == CFG_V3_USAGE_PAGE {
        Some(Protocol::Arm)
    } else {
        None
    }
}

impl TryFrom<u16> for Protocol {
    type Error = ();

    fn try_from(usage_page: u16) -> (res: Result<Self, ()>)
        ensures
            match protocol_of_usage_page(usage_page) {
                Some(p) => res == Ok::<Protocol, ()>(p),
                None => res == Err::<Protocol, ()>(()),
            },
    {
        if usage_page == CFG_USAGE_PAGE {
            Ok(Self::Standard)
        } else if usage_page == CFG_V3_USAGE_PAGE {
            Ok(Self::Arm)
        } else {
            Err(())
        }
    }
}

impl vstd::std_specs::convert::TryFromSpecImpl<u16> for Protocol {
    open spec fn obeys_try_from_spec() -> bool {
        true
    }

    open spec fn try_from_spec(usage_page: u16) -> Result<Self, ()> {
        match protocol_of_usage_page(usage_page) {
            Some(p) => Ok(p),
            None => Err(()),
        }
    }
}

impl Protocol {
    pub open spec fn spec_report_id(self) -> u8 {
        match self {
            Protocol::Standard => STANDARD_REPORT_ID,
            Protocol::Arm => ARM_REPORT_ID,
        }
    }

    pub open spec fn spec_protocol_byte(self) -> u8 {
        match self {
            Protocol::Standard => STANDARD_PROTOCOL_BYTE,
            Protocol::Arm => ARM_PROTOCOL_BYTE,
        }
    }

    pub open spec fn spec_response_size(self) -> usize {
        match self {
            Protocol::Standard => STANDARD_RESPONSE_SIZE,
            Protocol::Arm => ARM_RESPONSE_SIZE,
        }
    }

    /// Position of the profile slot argument within a command packet.
    pub open spec fn slot_byte(self) -> int {
        match self {
            Protocol::Standard => PROFILE_SLOT_BYTE_STANDARD as int,
            Protocol::Arm => PROFILE_SLOT_BYTE_ARM as int,
        }
    }

    /// The 8-byte packet for a command without arguments.
    pub open spec fn packet(self, command: Command) -> Seq<u8> {
        seq![
            self.spec_report_id(),
            self.spec_protocol_byte(),
            WOOTING_COMMAND_MAGIC,
            command_id(command),
            0u8,
            0u8,
            0u8,
            0u8,
        ]
    }

    /// The 8-byte packet for a command whose argument is a profile slot.
    pub open spec fn profile_packet(self, command: Command, slot: u8) -> Seq<u8> {
        self.packet(command).update(self.slot_byte(), slot)
    }

    /// HID report ID that prefixes every packet of this protocol.
    pub fn report_id(self) -> (id: u8)
        ensures
            id == self.spec_report_id(),
    {
        match self {
            Self::Standard => STANDARD_REPORT_ID,
            Self::Arm => ARM_REPORT_ID,
        }
    }

    /// Protocol identifier byte: second byte of every packet.
    pub fn protocol_byte(self) -> (b: u8)
        ensures
            b == self.spec_protocol_byte(),
    {
        match self {
            Self::Standard => STANDARD_PROTOCOL_BYTE,
            Self::Arm => ARM_PROTOCOL_BYTE,
        }
    }

    /// Size of the buffer a response of this protocol is read into.
    pub fn response_size(self) -> (size: usize)
        ensures
            size == self.spec_response_size(),
    {
        match self {
            Self::Standard => STANDARD_RESPONSE_SIZE,
            Self::Arm => ARM_RESPONSE_SIZE,
        }
    }

    /// Builds the packet `[report_id, protocol_byte, 0xDA, command, 0, 0, 0, 0]`.
    pub fn build_packet(self, command: Command) -> (packet: [u8; 8])
        ensures
            packet@ == self.packet(command),
    {
        let packet = [
            self.report_id(),
            self.protocol_byte(),
            WOOTING_COMMAND_MAGIC,
            u8::from(command),
            0,
            0,
            0,
            0,
        ];
        assert(packet@ =~= self.packet(command));
        packet
    }

    /// Builds a command packet carrying a profile slot: ARM firmware reads the
    /// slot from byte 4, standard firmware from byte 7.
    pub fn build_packet_for_profile(self, command: Command, index: ProfileIndex) -> (packet: [u8; 8])
        ensures
            packet@ == self.profile_packet(command, index@),
    {
        let slot = index.slot();
        let mut packet = self.build_packet(command);
        match self {
            Self::Standard => packet[PROFILE_SLOT_BYTE_STANDARD] = slot,
            Self::Arm => packet[PROFILE_SLOT_BYTE_ARM] = slot,
        }
        assert(packet@ =~= self.profile_packet(command, slot));
        packet
    }
}

/// A packet that carries a profile slot is the plain packet of the same
/// command with the slot written at the protocol's slot byte (byte 7 on
/// standard firmware, byte 4 on ARM): every packet is 8 bytes, starts with the
/// report ID, protocol byte, 0xDA and the command ID, and leaves the argument
/// bytes 4 to 7 zero except for the slot.
pub proof fn lemma_packet_layout(protocol: Protocol, command: Command, slot: u8, i: int)
    requires
        0 <= i < PACKET_LEN,
    ensures
        protocol.packet(command).len() == PACKET_LEN,
        protocol.profile_packet(command, slot).len() == PACKET_LEN,
        protocol.packet(command)[0] == protocol.spec_report_id(),
        protocol.packet(command)[1] == protocol.spec_protocol_byte(),
        protocol.packet(command)[2] == WOOTING_COMMAND_MAGIC,
        protocol.packet(command)[3] == command_id(command),
        4 <= i ==> protocol.packet(command)[i] == 0,
        protocol.profile_packet(command, slot)[protocol.slot_byte()] == slot,
        i != protocol.slot_byte() ==> protocol.profile_packet(command, slot)[i] == protocol.packet(command)[i],
        4 <= protocol.slot_byte() < PACKET_LEN,
{
}

/// Slot 0 is written as a zero, so its packet is the plain packet; different
/// slots give different packets for the same command; and bytes 5 and 6 of a
/// profile packet are always 0.
pub proof fn lemma_profile_packet_distinguishes_slots(
    protocol: Protocol,
    command: Command,
    i: ProfileIndex,
    j: ProfileIndex,
)
    ensures
        protocol.profile_packet(command, 0) == protocol.packet(command),
        protocol.profile_packet(command, i@) == protocol.profile_packet(command, j@) <==> i == j,
        protocol.profile_packet(command, i@)[5] == 0,
        protocol.profile_packet(command, i@)[6] == 0,
{
    assert(protocol.profile_packet(command, 0) =~= protocol.packet(command));
    lemma_index_view_injective(i, j);
    if protocol.profile_packet(command, i@) == protocol.profile_packet(command, j@) {
        assert(protocol.profile_packet(command, i@)[protocol.slot_byte()] == i@);
        assert(protocol.profile_packet(command, j@)[protocol.slot_byte()] == j@);
    }
}

} // verus!
