use vstd::prelude::*;
use vstd::slice::{slice_subrange, slice_to_vec};
use vstd::utf8::{decode_utf8, valid_utf8};

use crate::error::KeyboardError;
use crate::profile::ProfileIndex;
use crate::protocol::Protocol;

verus! {

/// All responses share a 5-byte header: `[report_id][protocol_byte][0xDA][cmd_echo][status]`
pub const DATA_OFFSET: usize = 5;

/// `GetCurrentKeyboardProfileIndex` (cmd 11) response offsets into the data payload.
/// Standard: `data[0]` = runtime-active profile.
/// ARM: `data[0]` = flash-stored default (never changes via software);
///      `data[2]` = runtime-active profile (updated by `ActivateProfile`).
pub const STANDARD_RUNTIME_PROFILE_OFFSET: usize = 0;
pub const ARM_RUNTIME_PROFILE_OFFSET: usize = 2;

/// `GetProfileMetadata` (cmd 55) response layout after `DATA_OFFSET`:
///   `data[0]` = payload_length (`METADATA_ABSENT_PAYLOAD_LENGTH` = no profile at this slot)
///   `data[1]` = 0x00 padding
///   `data[2..]` = protobuf bytes (field 1, wire type 2 = length-delimited string)
pub const METADATA_PROTOBUF_START: usize = 2;
/// Payload length value returned by the firmware when no profile exists at the requested slot.
pub const METADATA_ABSENT_PAYLOAD_LENGTH: u8 = 0;

/// Within the protobuf bytes: `[tag][length][utf8 bytes]`
pub const PROTOBUF_FIELD_TAG: usize = 0;
pub const PROTOBUF_FIELD_LENGTH: usize = 1;
pub const PROTOBUF_FIELD_DATA: usize = 2;

/// Protobuf field-1 wire-type-2 tag: identifies the profile name string field.
pub const METADATA_NAME_TAG: u8 = 0x0a;

/// Position of the status byte within a response header.
pub const STATUS_OFFSET: usize = 4;
/// Status byte of a command the firmware carried out.
pub const STATUS_SUCCESS: u8 = 0x88;
/// Status byte of a command the firmware does not support.
pub const STATUS_UNSUPPORTED: u8 = 0x66;

/// Largest profile count a keyboard reports.
pub const MAX_PROFILES: u8 = 8;
/// Smallest profile count a keyboard reports.
pub const MIN_VALID_PROFILE_COUNT: u8 = 1;

#[verifier::external_type_specification]
#[verifier::external_body]
pub struct ExFromUtf8Error(std::string::FromUtf8Error);

/// `String::from_utf8`: by its documentation it fails exactly when the bytes
/// are not valid UTF-8, and otherwise returns the string those bytes encode.
#[verifier::external_body]
fn string_from_utf8(bytes: Vec<u8>) -> (res: Result<String, std::string::FromUtf8Error>)
    ensures
        res is Ok <==> valid_utf8(bytes@),
        res matches Ok(s) ==> s@ == decode_utf8(bytes@),
{
    String::from_utf8(bytes)
}

/// A raw HID response from the keyboard.
pub struct Response {
    bytes: Vec<u8>,
}

/// The payload of a response: everything after the 5-byte header, or nothing
/// when the response is shorter than the header.
pub open spec fn payload(bytes: Seq<u8>) -> Seq<u8> {
    if bytes.len() >= DATA_OFFSET {
        bytes.skip(DATA_OFFSET as int)
    } else {
        Seq::empty()
    }
}

/// Offset of the runtime-active profile slot within a
/// `GetCurrentKeyboardProfileIndex` payload.
pub open spec fn runtime_profile_offset(protocol: Protocol) -> int {
    match protocol {
        Protocol::Arm => ARM_RUNTIME_PROFILE_OFFSET as int,
        Protocol::Standard => STANDARD_RUNTIME_PROFILE_OFFSET as int,
    }
}

/// The runtime-active slot that a `GetCurrentKeyboardProfileIndex` payload
/// reports, if the payload reaches that far.
pub open spec fn runtime_slot(protocol: Protocol, data: Seq<u8>) -> Option<u8> {
    let offset = runtime_profile_offset(protocol);
    if offset < data.len() {
        Some(data[offset])
    } else {
        None
    }
}

/// Whether a response's status byte says the command succeeded.
pub open spec fn succeeded(bytes: Seq<u8>) -> bool {
    bytes.len() > STATUS_OFFSET && bytes[STATUS_OFFSET as int] == STATUS_SUCCESS
}

/// The profile count that a `GetDigitalProfilesCount` response reports: only a
/// successful response (status 0x88) reports one, and only when the first
/// payload byte is a valid count (1 to 8). A missing first byte reads as 0.
/// ARM firmware answers this command with status 0x66 (unsupported), and then
/// there is no count.
pub open spec fn reported_count(bytes: Seq<u8>) -> Option<u8> {
    let data = payload(bytes);
    let count: u8 = if data.len() > 0 { data[0] } else { 0 };
    if succeeded(bytes) && MIN_VALID_PROFILE_COUNT <= count <= MAX_PROFILES {
        Some(count)
    } else {
        None
    }
}

/// Whether a `GetProfileMetadata` payload says a profile exists at the slot:
/// its payload length byte is present and not 0.
pub open spec fn metadata_holds_profile(data: Seq<u8>) -> bool {
    data.len() > 0 && data[0] != METADATA_ABSENT_PAYLOAD_LENGTH
}

/// The UTF-8 bytes of the profile name in a `GetProfileMetadata` payload:
/// absent when the payload length byte is 0, when the protobuf does not start
/// with the name tag, or when the payload ends before the name does.
pub open spec fn metadata_name_bytes(data: Seq<u8>) -> Option<Seq<u8>> {
    if data.len() > 0 && data[0] == METADATA_ABSENT_PAYLOAD_LENGTH {
        None
    } else if data.len() < METADATA_PROTOBUF_START + PROTOBUF_FIELD_DATA {
        None
    } else {
        let protobuf = data.skip(METADATA_PROTOBUF_START as int);
        let name_length = protobuf[PROTOBUF_FIELD_LENGTH as int] as int;
        if protobuf[PROTOBUF_FIELD_TAG as int] != METADATA_NAME_TAG {
            None
        } else if protobuf.len() < PROTOBUF_FIELD_DATA + name_length {
            None
        } else {
            Some(protobuf.subrange(PROTOBUF_FIELD_DATA as int, PROTOBUF_FIELD_DATA + name_length))
        }
    }
}

/// The profile name in a `GetProfileMetadata` payload: its name bytes, when
/// present and valid UTF-8, decoded.
pub open spec fn metadata_name(data: Seq<u8>) -> Option<Seq<char>> {
    match metadata_name_bytes(data) {
        Some(bytes) => if valid_utf8(bytes) {
            Some(decode_utf8(bytes))
        } else {
            None
        },
        None => None,
    }
}

impl View for Response {
    type V = Seq<u8>;

    closed spec fn view(&self) -> Seq<u8> {
        self.bytes@
    }
}

impl Response {
    /// The response read into `buffer`, of which the read filled the first
    /// `bytes_read` bytes.
    pub fn from_read(buffer: Vec<u8>, bytes_read: usize) -> (response: Response)
        ensures
            bytes_read <= buffer@.len() ==> response@ == buffer@.take(bytes_read as int),
            bytes_read > buffer@.len() ==> response@ == buffer@,
    {
        let mut bytes = buffer;
        bytes.truncate(bytes_read);
        Response { bytes }
    }

    /// The full raw bytes, including the response header.
    pub fn raw(&self) -> (raw: &[u8])
        ensures
            raw@ == self@,
    {
        self.bytes.as_slice()
    }

    /// The payload bytes after the 5-byte response header.
    pub fn data(&self) -> (data: &[u8])
        ensures
            data@ == payload(self@),
            data@.len() == if self@.len() >= DATA_OFFSET { self@.len() - DATA_OFFSET } else { 0 },
            forall|i: int| 0 <= i < data@.len() ==> #[trigger] data@[i] == self@[i + DATA_OFFSET],
    {
        let bytes = self.bytes.as_slice();
        let len = bytes.len();
        if len >= DATA_OFFSET {
            slice_subrange(bytes, DATA_OFFSET, len)
        } else {
            slice_subrange(bytes, len, len)
        }
    }

    /// The runtime-active profile slot in a `GetCurrentKeyboardProfileIndex`
    /// response. On ARM firmware that is `data[2]`, not the flash-stored
    /// default at `data[0]`.
    pub fn runtime_profile_slot(&self, protocol: Protocol) -> (res: Result<ProfileIndex, KeyboardError>)
        ensures
            match runtime_slot(protocol, payload(self@)) {
                Some(slot) => res matches Ok(index) && index@ == slot,
                None => res == Err::<ProfileIndex, KeyboardError>(KeyboardError::ActiveProfileResponseTooShort),
            },
            protocol == Protocol::Arm && self@.len() > 7 ==> (res matches Ok(index) && index@ == self@[7]),
            protocol == Protocol::Standard && self@.len() > 5 ==> (res matches Ok(index) && index@ == self@[5]),
            protocol == Protocol::Arm && self@.len() <= 7 ==> res is Err,
            protocol == Protocol::Standard && self@.len() <= 5 ==> res is Err,
    {
        let data = self.data();
        let runtime_offset = match protocol {
            Protocol::Arm => ARM_RUNTIME_PROFILE_OFFSET,
            Protocol::Standard => STANDARD_RUNTIME_PROFILE_OFFSET,
        };
        if runtime_offset < data.len() {
            Ok(ProfileIndex::from_slot(data[runtime_offset]))
        } else {
            Err(KeyboardError::ActiveProfileResponseTooShort)
        }
    }

    /// The profile count in a `GetDigitalProfilesCount` response, when the
    /// firmware carried out the command (status 0x88) and reports a valid
    /// count (1 to 8). ARM firmware answers this command with status 0x66,
    /// and then there is none.
    pub fn reported_profile_count(&self) -> (count: Option<u8>)
        ensures
            count == reported_count(self@),
    {
        let bytes = self.bytes.as_slice();
        if bytes.len() <= STATUS_OFFSET || bytes[STATUS_OFFSET] != STATUS_SUCCESS {
            return None;
        }
        let data = self.data();
        let count = if data.len() > 0 { data[0] } else { 0 };
        if MIN_VALID_PROFILE_COUNT <= count && count <= MAX_PROFILES {
            Some(count)
        } else {
            None
        }
    }

    /// Whether a `GetProfileMetadata` response says a profile exists at the
    /// requested slot (its payload length byte is not 0).
    pub fn holds_profile(&self) -> (present: bool)
        ensures
            present == metadata_holds_profile(payload(self@)),
            present == (self@.len() > DATA_OFFSET && self@[DATA_OFFSET as int] != 0),
    {
        let data = self.data();
        data.len() > 0 && data[0] != METADATA_ABSENT_PAYLOAD_LENGTH
    }

    /// The bytes of the profile name in a `GetProfileMetadata` response.
    fn metadata_name_slice(&self) -> (name: Option<&[u8]>)
        ensures
            match metadata_name_bytes(payload(self@)) {
                Some(bytes) => name matches Some(n) && n@ == bytes,
                None => name is None,
            },
    {
        let data = self.data();
        if data.len() > 0 && data[0] == METADATA_ABSENT_PAYLOAD_LENGTH {
            return None;
        }
        if data.len() < METADATA_PROTOBUF_START + PROTOBUF_FIELD_DATA {
            return None;
        }
        let protobuf = slice_subrange(data, METADATA_PROTOBUF_START, data.len());
        if protobuf[PROTOBUF_FIELD_TAG] != METADATA_NAME_TAG {
            return None;
        }
        let name_length = protobuf[PROTOBUF_FIELD_LENGTH] as usize;
        if protobuf.len() - PROTOBUF_FIELD_DATA < name_length {
            return None;
        }
        Some(slice_subrange(protobuf, PROTOBUF_FIELD_DATA, PROTOBUF_FIELD_DATA + name_length))
    }

    /// The name of the profile in a `GetProfileMetadata` response, or `None`
    /// when the slot is absent, the metadata is malformed or the name is not
    /// valid UTF-8.
    pub fn profile_name(&self) -> (name: Option<String>)
        ensures
            match metadata_name(payload(self@)) {
                Some(chars) => name matches Some(s) && s@ == chars,
                None => name is None,
            },
    {
        match self.metadata_name_slice() {
            Some(bytes) => match string_from_utf8(slice_to_vec(bytes)) {
                Ok(name) => Some(name),
                Err(_) => None,
            },
            None => None,
        }
    }
}

/// The payload is exactly the bytes after the 5-byte header: byte `i` of the
/// payload is byte `5 + i` of the response.
pub proof fn lemma_payload_is_after_header(bytes: Seq<u8>)
    ensures
        payload(bytes).len() == if bytes.len() >= 5 { bytes.len() - 5 } else { 0 },
        forall|i: int| 0 <= i < payload(bytes).len() ==> #[trigger] payload(bytes)[i] == bytes[i + 5],
{
}

/// The runtime-active slot is payload byte 2 on ARM and payload byte 0 on
/// standard firmware, whatever the other bytes hold (in particular, on ARM the
/// flash default at byte 0 never matters); it is absent exactly when the
/// payload is too short to hold that byte.
pub proof fn lemma_runtime_slot_reads_fixed_byte(data: Seq<u8>)
    ensures
        data.len() > 2 ==> runtime_slot(Protocol::Arm, data) == Some(data[2]),
        data.len() <= 2 ==> runtime_slot(Protocol::Arm, data) is None,
        data.len() > 0 ==> runtime_slot(Protocol::Standard, data) == Some(data[0]),
        data.len() == 0 ==> runtime_slot(Protocol::Standard, data) is None,
{
}

/// A metadata payload holds a profile exactly when its payload length byte is
/// present and is any value other than 0.
pub proof fn lemma_metadata_presence_is_nonzero_length(data: Seq<u8>)
    ensures
        data.len() == 0 ==> !metadata_holds_profile(data),
        data.len() > 0 ==> (metadata_holds_profile(data) <==> data[0] != 0),
{
}

/// The name field is found exactly when the payload length byte is not 0,
/// byte 2 is the name tag 0x0a and the payload holds the `data[3]` name bytes
/// that follow; the name is then exactly those bytes, `data[4 .. 4 + data[3]]`,
/// of length `data[3]`, whatever values they have.
pub proof fn lemma_metadata_name_is_length_prefixed(data: Seq<u8>)
    ensures
        metadata_name_bytes(data) is Some <==> (
            data.len() >= 4
            && data[0] != 0
            && data[2] == 0x0a
            && data.len() >= 4 + data[3]),
        metadata_name_bytes(data) matches Some(name) ==> (
            name.len() == data[3]
            && forall|i: int| 0 <= i < name.len() ==> #[trigger] name[i] == data[4 + i]),
        metadata_name(data) is Some <==> (
            metadata_name_bytes(data) is Some && valid_utf8(data.subrange(4, 4 + data[3]))),
        metadata_name(data) matches Some(chars) ==> chars == decode_utf8(data.subrange(4, 4 + data[3])),
{
    if metadata_name_bytes(data) is Some {
        assert(metadata_name_bytes(data).unwrap() =~= data.subrange(4, 4 + data[3]));
    }
}

} // verus!
