use vstd::prelude::*;

verus! {

/// HID feature-report command IDs.
///
/// All 60 IDs (0-59) are present and sequential, in declaration order.
/// Variants prefixed `Removed` existed in older firmware and are now no-ops or
/// absent, but their IDs are still reserved in the wire protocol.
#[derive(Clone, Copy, Debug, PartialEq, Eq, Structural)]
pub enum Command {
    Ping,
    GetVersion,
    ResetToBootloader,
    GetSerial,
    GetRgbProfileCount,
    RemovedGetCurrentRgbProfileIndex,
    RemovedGetRgbMainProfile,
    ReloadProfile0,
    SaveRgbProfile,
    GetDigitalProfilesCount,
    GetAnalogProfilesCount,
    GetCurrentKeyboardProfileIndex,
    GetDigitalProfile,
    GetAnalogProfileMainPart,
    GetAnalogProfileCurveChangeMapPart1,
    GetAnalogProfileCurveChangeMapPart2,
    GetNumberOfKeys,
    GetMainMappingProfile,
    GetFunctionMappingProfile,
    GetDeviceConfig,
    GetAnalogValues,
    KeysOff,
    KeysOn,
    ActivateProfile,
    GetDksProfile,
    DoSoftReset,
    RemovedGetRgbColorsPart1,
    RemovedGetRgbColorsPart2,
    RemovedGetRgbEffects,
    RefreshRgbColors,
    WootDevSingleColor,
    WootDevResetColor,
    WootDevResetAll,
    WootDevInit,
    RemovedGetRgbProfileBase,
    GetRgbProfileColorsPart1,
    GetRgbProfileColorsPart2,
    RemovedGetRgbProfileEffect,
    ReloadProfile,
    GetKeyboardProfile,
    GetGamepadMapping,
    GetGamepadProfile,
    SaveKeyboardProfile,
    ResetSettings,
    SetRawScanning,
    StartXinputDetection,
    StopXinputDetection,
    SaveDksProfile,
    GetMappingProfile,
    GetActuationProfile,
    GetRgbProfileCore,
    GetGlobalSettings,
    GetAkcProfile,
    SaveAkcProfile,
    GetRapidTriggerProfile,
    GetProfileMetadata,
    IsFlashChipConnected,
    GetRgbLayer,
    GetFlashStats,
    GetRgbBins,
}

/// Number of command IDs of the wire protocol.
pub const COMMAND_COUNT: u8 = 60;

/// The wire ID of a command: its position in the declaration order.
pub open spec fn command_id(command: Command) -> u8 {
    match command {
        Command::Ping => 0,
        Command::GetVersion => 1,
        Command::ResetToBootloader => 2,
        Command::GetSerial => 3,
        Command::GetRgbProfileCount => 4,
        Command::RemovedGetCurrentRgbProfileIndex => 5,
        Command::RemovedGetRgbMainProfile => 6,
        Command::ReloadProfile0 => 7,
        Command::SaveRgbProfile => 8,
        Command::GetDigitalProfilesCount => 9,
        Command::GetAnalogProfilesCount => 10,
        Command::GetCurrentKeyboardProfileIndex => 11,
        Command::GetDigitalProfile => 12,
        Command::GetAnalogProfileMainPart => 13,
        Command::GetAnalogProfileCurveChangeMapPart1 => 14,
        Command::GetAnalogProfileCurveChangeMapPart2 => 15,
        Command::GetNumberOfKeys => 16,
        Command::GetMainMappingProfile => 17,
        Command::GetFunctionMappingProfile => 18,
        Command::GetDeviceConfig => 19,
        Command::GetAnalogValues => 20,
        Command::KeysOff => 21,
        Command::KeysOn => 22,
        Command::ActivateProfile => 23,
        Command::GetDksProfile => 24,
        Command::DoSoftReset => 25,
        Command::RemovedGetRgbColorsPart1 => 26,
        Command::RemovedGetRgbColorsPart2 => 27,
        Command::RemovedGetRgbEffects => 28,
        Command::RefreshRgbColors => 29,
        Command::WootDevSingleColor => 30,
        Command::WootDevResetColor => 31,
        Command::WootDevResetAll => 32,
        Command::WootDevInit => 33,
        Command::RemovedGetRgbProfileBase => 34,
        Command::GetRgbProfileColorsPart1 => 35,
        Command::GetRgbProfileColorsPart2 => 36,
        Command::RemovedGetRgbProfileEffect => 37,
        Command::ReloadProfile => 38,
        Command::GetKeyboardProfile => 39,
        Command::GetGamepadMapping => 40,
        Command::GetGamepadProfile => 41,
        Command::SaveKeyboardProfile => 42,
        Command::ResetSettings => 43,
        Command::SetRawScanning => 44,
        Command::StartXinputDetection => 45,
        Command::StopXinputDetection => 46,
        Command::SaveDksProfile => 47,
        Command::GetMappingProfile => 48,
        Command::GetActuationProfile => 49,
        Command::GetRgbProfileCore => 50,
        Command::GetGlobalSettings => 51,
        Command::GetAkcProfile => 52,
        Command::SaveAkcProfile => 53,
        Command::GetRapidTriggerProfile => 54,
        Command::GetProfileMetadata => 55,
        Command::IsFlashChipConnected => 56,
        Command::GetRgbLayer => 57,
        Command::GetFlashStats => 58,
        Command::GetRgbBins => 59,
    }
}

/// The command whose wire ID is `id`, for the IDs that the protocol assigns.
pub open spec fn command_with_id(id: u8) -> Option<Command> {
    if id == 0 { Some(Command::Ping) }
    else if id == 1 { Some(Command::GetVersion) }
    else if id == 2 { Some(Command::ResetToBootloader) }
    else if id == 3 { Some(Command::GetSerial) }
    else if id == 4 { Some(Command::GetRgbProfileCount) }
    else if id == 5 { Some(Command::RemovedGetCurrentRgbProfileIndex) }
    else if id == 6 { Some(Command::RemovedGetRgbMainProfile) }
    else if id == 7 { Some(Command::ReloadProfile0) }
    else if id == 8 { Some(Command::SaveRgbProfile) }
    else if id == 9 { Some(Command::GetDigitalProfilesCount) }
    else if id == 10 { Some(Command::GetAnalogProfilesCount) }
    else if id == 11 { Some(Command::GetCurrentKeyboardProfileIndex) }
    else if id == 12 { Some(Command::GetDigitalProfile) }
    else if id == 13 { Some(Command::GetAnalogProfileMainPart) }
    else if id == 14 { Some(Command::GetAnalogProfileCurveChangeMapPart1) }
    else if id == 15 { Some(Command::GetAnalogProfileCurveChangeMapPart2) }
    else if id == 16 { Some(Command::GetNumberOfKeys) }
    else if id == 17 { Some(Command::GetMainMappingProfile) }
    else if id == 18 { Some(Command::GetFunctionMappingProfile) }
    else if id == 19 { Some(Command::GetDeviceConfig) }
    else if id == 20 { Some(Command::GetAnalogValues) }
    else if id == 21 { Some(Command::KeysOff) }
    else if id == 22 { Some(Command::KeysOn) }
    else if id == 23 { Some(Command::ActivateProfile) }
    else if id == 24 { Some(Command::GetDksProfile) }
    else if id == 25 { Some(Command::DoSoftReset) }
    else if id == 26 { Some(Command::RemovedGetRgbColorsPart1) }
    else if id == 27 { Some(Command::RemovedGetRgbColorsPart2) }
    else if id == 28 { Some(Command::RemovedGetRgbEffects) }
    else if id == 29 { Some(Command::RefreshRgbColors) }
    else if id == 30 { Some(Command::WootDevSingleColor) }
    else if id == 31 { Some(Command::WootDevResetColor) }
    else if id == 32 { Some(Command::WootDevResetAll) }
    else if id == 33 { Some(Command::WootDevInit) }
    else if id == 34 { Some(Command::RemovedGetRgbProfileBase) }
    else if id == 35 { Some(Command::GetRgbProfileColorsPart1) }
    else if id == 36 { Some(Command::GetRgbProfileColorsPart2) }
    else if id == 37 { Some(Command::RemovedGetRgbProfileEffect) }
    else if id == 38 { Some(Command::ReloadProfile) }
    else if id == 39 { Some(Command::GetKeyboardProfile) }
    else if id == 40 { Some(Command::GetGamepadMapping) }
    else if id == 41 { Some(Command::GetGamepadProfile) }
    else if id == 42 { Some(Command::SaveKeyboardProfile) }
    else if id == 43 { Some(Command::ResetSettings) }
    else if id == 44 { Some(Command::SetRawScanning) }
    else if id == 45 { Some(Command::StartXinputDetection) }
    else if id == 46 { Some(Command::StopXinputDetection) }
    else if id == 47 { Some(Command::SaveDksProfile) }
    else if id == 48 { Some(Command::GetMappingProfile) }
    else if id == 49 { Some(Command::GetActuationProfile) }
    else if id == 50 { Some(Command::GetRgbProfileCore) }
    else if id == 51 { Some(Command::GetGlobalSettings) }
    else if id == 52 { Some(Command::GetAkcProfile) }
    else if id == 53 { Some(Command::SaveAkcProfile) }
    else if id == 54 { Some(Command::GetRapidTriggerProfile) }
    else if id == 55 { Some(Command::GetProfileMetadata) }
    else if id == 56 { Some(Command::IsFlashChipConnected) }
    else if id == 57 { Some(Command::GetRgbLayer) }
    else if id == 58 { Some(Command::GetFlashStats) }
    else if id == 59 { Some(Command::GetRgbBins) }
    else { None }
}

/// The command IDs are exactly 0 to 59, each one used by exactly one command:
/// every command's ID is below 60 and names that command back, and every ID
/// below 60 belongs to a command.
pub proof fn lemma_command_ids_sequential(command: Command, id: u8)
    ensures
        command_id(command) < COMMAND_COUNT,
        command_with_id(command_id(command)) == Some(command),
        id < COMMAND_COUNT <==> command_with_id(id) is Some,
        command_with_id(id) matches Some(c) ==> command_id(c) == id,
{
}

/// Two commands with the same wire ID are the same command.
pub proof fn lemma_command_id_injective(a: Command, b: Command)
    ensures
        command_id(a) == command_id(b) ==> a == b,
{
    lemma_command_ids_sequential(a, 0);
    lemma_command_ids_sequential(b, 0);
}

impl From<Command> for u8 {
    fn from(command: Command) -> (id: u8)
        ensures
            id == command_id(command),
    {
        match command {
            Command::Ping => 0,
            Command::GetVersion => 1,
            Command::ResetToBootloader => 2,
            Command::GetSerial => 3,
            Command::GetRgbProfileCount => 4,
            Command::RemovedGetCurrentRgbProfileIndex => 5,
            Command::RemovedGetRgbMainProfile => 6,
            Command::ReloadProfile0 => 7,
            Command::SaveRgbProfile => 8,
            Command::GetDigitalProfilesCount => 9,
            Command::GetAnalogProfilesCount => 10,
            Command::GetCurrentKeyboardProfileIndex => 11,
            Command::GetDigitalProfile => 12,
            Command::GetAnalogProfileMainPart => 13,
            Command::GetAnalogProfileCurveChangeMapPart1 => 14,
            Command::GetAnalogProfileCurveChangeMapPart2 => 15,
            Command::GetNumberOfKeys => 16,
            Command::GetMainMappingProfile => 17,
            Command::GetFunctionMappingProfile => 18,
            Command::GetDeviceConfig => 19,
            Command::GetAnalogValues => 20,
            Command::KeysOff => 21,
            Command::KeysOn => 22,
            Command::ActivateProfile => 23,
            Command::GetDksProfile => 24,
            Command::DoSoftReset => 25,
            Command::RemovedGetRgbColorsPart1 => 26,
            Command::RemovedGetRgbColorsPart2 => 27,
            Command::RemovedGetRgbEffects => 28,
            Command::RefreshRgbColors => 29,
            Command::WootDevSingleColor => 30,
            Command::WootDevResetColor => 31,
            Command::WootDevResetAll => 32,
            Command::WootDevInit => 33,
            Command::RemovedGetRgbProfileBase => 34,
            Command::GetRgbProfileColorsPart1 => 35,
            Command::GetRgbProfileColorsPart2 => 36,
            Command::RemovedGetRgbProfileEffect => 37,
            Command::ReloadProfile => 38,
            Command::GetKeyboardProfile => 39,
            Command::GetGamepadMapping => 40,
            Command::GetGamepadProfile => 41,
            Command::SaveKeyboardProfile => 42,
            Command::ResetSettings => 43,
            Command::SetRawScanning => 44,
            Command::StartXinputDetection => 45,
            Command::StopXinputDetection => 46,
            Command::SaveDksProfile => 47,
            Command::GetMappingProfile => 48,
            Command::GetActuationProfile => 49,
            Command::GetRgbProfileCore => 50,
            Command::GetGlobalSettings => 51,
            Command::GetAkcProfile => 52,
            Command::SaveAkcProfile => 53,
            Command::GetRapidTriggerProfile => 54,
            Command::GetProfileMetadata => 55,
            Command::IsFlashChipConnected => 56,
            Command::GetRgbLayer => 57,
            Command::GetFlashStats => 58,
            Command::GetRgbBins => 59,
        }
    }
}

impl vstd::std_specs::convert::FromSpecImpl<Command> for u8 {
    open spec fn obeys_from_spec() -> bool {
        true
    }

    open spec fn from_spec(command: Command) -> u8 {
        command_id(command)
    }
}

} // verus!
