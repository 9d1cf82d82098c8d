//! The serial protocol that the dial hub speaks.
use vstd::prelude::*;

verus! {

/// A command sent to the dial hub.
#[derive(Copy, Clone, Debug, PartialEq, Eq, Structural)]
pub enum HubCommand {
    SetDialRawSingle,
    SetDialRawMultiple,
    SetDialPercSingle,
    SetDialPercMultiple,
    SetDialCalibrateMax,
    SetDialCalibrateHalf,
    GetDevicesMap,
    ProvisionDevice,
    ResetAllDevices,
    DialPower,
    GetDeviceUid,
    RescanBus,
    DisplayClear,
    DisplayGotoXy,
    DisplayImgData,
    DisplayShowImg,
    RxBufferSize,
    ResetCfg,
    SetRgbBacklight,
    SetDialEasingStep,
    SetDialEasingPeriod,
    SetBacklightEasingStep,
    SetBacklightEasingPeriod,
    GetEasingConfig,
    GetBuildInfo,
    GetFwInfo,
    GetHwInfo,
    GetProtocolInfo,
    DebugI2cScan,
    HubBtlJumpToBootloader,
    DialBtlJumpToBootloader,
    DialBtlGetInfo,
    DialBtlGetCrc,
    DialBtlEraseApp,
    DialBtlFwupSendPackage,
    DialBtlFwupFinished,
    DialBtlExit,
    DialBtlRestartFwupload,
    DialBtlReadLastStatus,
}

impl HubCommand {
    pub open spec fn spec_code(self) -> u8 {
        match self {
            HubCommand::SetDialRawSingle => 0x01,
            HubCommand::SetDialRawMultiple => 0x02,
            HubCommand::SetDialPercSingle => 0x03,
            HubCommand::SetDialPercMultiple => 0x04,
            HubCommand::SetDialCalibrateMax => 0x05,
            HubCommand::SetDialCalibrateHalf => 0x06,
            HubCommand::GetDevicesMap => 0x07,
            HubCommand::ProvisionDevice => 0x08,
            HubCommand::ResetAllDevices => 0x09,
            HubCommand::DialPower => 0x0A,
            HubCommand::GetDeviceUid => 0x0B,
            HubCommand::RescanBus => 0x0C,
            HubCommand::DisplayClear => 0x0D,
            HubCommand::DisplayGotoXy => 0x0E,
            HubCommand::DisplayImgData => 0x0F,
            HubCommand::DisplayShowImg => 0x10,
            HubCommand::RxBufferSize => 0x11,
            HubCommand::ResetCfg => 0x12,
            HubCommand::SetRgbBacklight => 0x13,
            HubCommand::SetDialEasingStep => 0x14,
            HubCommand::SetDialEasingPeriod => 0x15,
            HubCommand::SetBacklightEasingStep => 0x16,
            HubCommand::SetBacklightEasingPeriod => 0x17,
            HubCommand::GetEasingConfig => 0x18,
            HubCommand::GetBuildInfo => 0x19,
            HubCommand::GetFwInfo => 0x20,
            HubCommand::GetHwInfo => 0x21,
            HubCommand::GetProtocolInfo => 0x22,
            HubCommand::DebugI2cScan => 0xF3,
            HubCommand::HubBtlJumpToBootloader => 0xF4,
            HubCommand::DialBtlJumpToBootloader => 0xF5,
            HubCommand::DialBtlGetInfo => 0xF6,
            HubCommand::DialBtlGetCrc => 0xF7,
            HubCommand::DialBtlEraseApp => 0xF8,
            HubCommand::DialBtlFwupSendPackage => 0xF9,
            HubCommand::DialBtlFwupFinished => 0xFA,
            HubCommand::DialBtlExit => 0xFB,
            HubCommand::DialBtlRestartFwupload => 0xFC,
            HubCommand::DialBtlReadLastStatus => 0xFD,
        }
    }

    /// The value that stands for this variant on the wire.
    pub fn code(&self) -> (r: u8)
        ensures
            r == self.spec_code(),
    {
        match self {
            HubCommand::SetDialRawSingle => 0x01,
            HubCommand::SetDialRawMultiple => 0x02,
            HubCommand::SetDialPercSingle => 0x03,
            HubCommand::SetDialPercMultiple => 0x04,
            HubCommand::SetDialCalibrateMax => 0x05,
            HubCommand::SetDialCalibrateHalf => 0x06,
            HubCommand::GetDevicesMap => 0x07,
            HubCommand::ProvisionDevice => 0x08,
            HubCommand::ResetAllDevices => 0x09,
            HubCommand::DialPower => 0x0A,
            HubCommand::GetDeviceUid => 0x0B,
            HubCommand::RescanBus => 0x0C,
            HubCommand::DisplayClear => 0x0D,
            HubCommand::DisplayGotoXy => 0x0E,
            HubCommand::DisplayImgData => 0x0F,
            HubCommand::DisplayShowImg => 0x10,
            HubCommand::RxBufferSize => 0x11,
            HubCommand::ResetCfg => 0x12,
            HubCommand::SetRgbBacklight => 0x13,
            HubCommand::SetDialEasingStep => 0x14,
            HubCommand::SetDialEasingPeriod => 0x15,
            HubCommand::SetBacklightEasingStep => 0x16,
            HubCommand::SetBacklightEasingPeriod => 0x17,
            HubCommand::GetEasingConfig => 0x18,
            HubCommand::GetBuildInfo => 0x19,
            HubCommand::GetFwInfo => 0x20,
            HubCommand::GetHwInfo => 0x21,
            HubCommand::GetProtocolInfo => 0x22,
            HubCommand::DebugI2cScan => 0xF3,
            HubCommand::HubBtlJumpToBootloader => 0xF4,
            HubCommand::DialBtlJumpToBootloader => 0xF5,
            HubCommand::DialBtlGetInfo => 0xF6,
            HubCommand::DialBtlGetCrc => 0xF7,
            HubCommand::DialBtlEraseApp => 0xF8,
            HubCommand::DialBtlFwupSendPackage => 0xF9,
            HubCommand::DialBtlFwupFinished => 0xFA,
            HubCommand::DialBtlExit => 0xFB,
            HubCommand::DialBtlRestartFwupload => 0xFC,
            HubCommand::DialBtlReadLastStatus => 0xFD,
        }
    }

    /// The command with this code, if any.
    pub fn from_code(code: u8) -> (r: Option<HubCommand>)
        ensures
            r matches Some(v) ==> v.spec_code() == code,
            r is None ==> forall|v: HubCommand| v.spec_code() != code,
    {
        match code {
            0x01 => Some(HubCommand::SetDialRawSingle),
            0x02 => Some(HubCommand::SetDialRawMultiple),
            0x03 => Some(HubCommand::SetDialPercSingle),
            0x04 => Some(HubCommand::SetDialPercMultiple),
            0x05 => Some(HubCommand::SetDialCalibrateMax),
            0x06 => Some(HubCommand::SetDialCalibrateHalf),
            0x07 => Some(HubCommand::GetDevicesMap),
            0x08 => Some(HubCommand::ProvisionDevice),
            0x09 => Some(HubCommand::ResetAllDevices),
            0x0A => Some(HubCommand::DialPower),
            0x0B => Some(HubCommand::GetDeviceUid),
            0x0C => Some(HubCommand::RescanBus),
            0x0D => Some(HubCommand::DisplayClear),
            0x0E => Some(HubCommand::DisplayGotoXy),
            0x0F => Some(HubCommand::DisplayImgData),
            0x10 => Some(HubCommand::DisplayShowImg),
            0x11 => Some(HubCommand::RxBufferSize),
            0x12 => Some(HubCommand::ResetCfg),
            0x13 => Some(HubCommand::SetRgbBacklight),
            0x14 => Some(HubCommand::SetDialEasingStep),
            0x15 => Some(HubCommand::SetDialEasingPeriod),
            0x16 => Some(HubCommand::SetBacklightEasingStep),
            0x17 => Some(HubCommand::SetBacklightEasingPeriod),
            0x18 => Some(HubCommand::GetEasingConfig),
            0x19 => Some(HubCommand::GetBuildInfo),
            0x20 => Some(HubCommand::GetFwInfo),
            0x21 => Some(HubCommand::GetHwInfo),
            0x22 => Some(HubCommand::GetProtocolInfo),
            0xF3 => Some(HubCommand::DebugI2cScan),
            0xF4 => Some(HubCommand::HubBtlJumpToBootloader),
            0xF5 => Some(HubCommand::DialBtlJumpToBootloader),
            0xF6 => Some(HubCommand::DialBtlGetInfo),
            0xF7 => Some(HubCommand::DialBtlGetCrc),
            0xF8 => Some(HubCommand::DialBtlEraseApp),
            0xF9 => Some(HubCommand::DialBtlFwupSendPackage),
            0xFA => Some(HubCommand::DialBtlFwupFinished),
            0xFB => Some(HubCommand::DialBtlExit),
            0xFC => Some(HubCommand::DialBtlRestartFwupload),
            0xFD => Some(HubCommand::DialBtlReadLastStatus),
            _ => None,
        }
    }
}

/// What terminates each command on the wire.
pub const COMMAND_SUFFIX: [u8; 2] = [13, 10];

/// The type of the data that follows a command.
#[derive(Copy, Clone, Debug, PartialEq, Eq, Structural)]
pub enum HubDataType {
    NoData,
    SingleValue,
    MultipleValue,
    KeyValuePair,
    StatusCode,
}

impl HubDataType {
    pub open spec fn spec_code(self) -> u8 {
        match self {
            HubDataType::NoData => 0x01,
            HubDataType::SingleValue => 0x02,
            HubDataType::MultipleValue => 0x03,
            HubDataType::KeyValuePair => 0x04,
            HubDataType::StatusCode => 0x05,
        }
    }

    /// The value that stands for this variant on the wire.
    pub fn code(&self) -> (r: u8)
        ensures
            r == self.spec_code(),
    {
        match self {
            HubDataType::NoData => 0x01,
            HubDataType::SingleValue => 0x02,
            HubDataType::MultipleValue => 0x03,
            HubDataType::KeyValuePair => 0x04,
            HubDataType::StatusCode => 0x05,
        }
    }

    /// The data type with this code, if any.
    pub fn from_code(code: u8) -> (r: Option<HubDataType>)
        ensures
            r matches Some(v) ==> v.spec_code() == code,
            r is None ==> forall|v: HubDataType| v.spec_code() != code,
    {
        match code {
            0x01 => Some(HubDataType::NoData),
            0x02 => Some(HubDataType::SingleValue),
            0x03 => Some(HubDataType::MultipleValue),
            0x04 => Some(HubDataType::KeyValuePair),
            0x05 => Some(HubDataType::StatusCode),
            _ => None,
        }
    }
}

/// The header of a command.
#[derive(Copy, Clone, Debug, PartialEq, Eq)]
pub struct CommandHeader {}

/// A status the hub answers with.
#[derive(Copy, Clone, Debug, PartialEq, Eq, Structural)]
pub enum HubStatusCode {
    Success,
    Fail,
    Busy,
    Timeout,
    BadData,
    ProtocolError,
    NoMemory,
    InvalidArgument,
    BadAddress,
    Forbidden,
    AlreadyExists,
    Unsupported,
    NotImplemented,
    MalformedPackage,
    RecursiveCall,
    DataMismatch,
    DeviceOffline,
    ModuleNotInit,
    I2cError,
    UsartError,
    SpiError,
    BootloaderNoDevice,
    BootloaderInvalidState,
    BootloaderInvalidRequest,
}

impl HubStatusCode {
    pub open spec fn spec_code(self) -> u16 {
        match self {
            HubStatusCode::Success => 0x00,
            HubStatusCode::Fail => 0x01,
            HubStatusCode::Busy => 0x02,
            HubStatusCode::Timeout => 0x03,
            HubStatusCode::BadData => 0x04,
            HubStatusCode::ProtocolError => 0x05,
            HubStatusCode::NoMemory => 0x06,
            HubStatusCode::InvalidArgument => 0x07,
            HubStatusCode::BadAddress => 0x08,
            HubStatusCode::Forbidden => 0x09,
            HubStatusCode::AlreadyExists => 0x0B,
            HubStatusCode::Unsupported => 0x0C,
            HubStatusCode::NotImplemented => 0x0D,
            HubStatusCode::MalformedPackage => 0x0E,
            HubStatusCode::RecursiveCall => 0x10,
            HubStatusCode::DataMismatch => 0x11,
            HubStatusCode::DeviceOffline => 0x12,
            HubStatusCode::ModuleNotInit => 0x13,
            HubStatusCode::I2cError => 0x14,
            HubStatusCode::UsartError => 0x15,
            HubStatusCode::SpiError => 0x16,
            HubStatusCode::BootloaderNoDevice => 0xE001,
            HubStatusCode::BootloaderInvalidState => 0xE002,
            HubStatusCode::BootloaderInvalidRequest => 0xE003,
        }
    }

    /// The value that stands for this variant on the wire.
    pub fn code(&self) -> (r: u16)
        ensures
            r == self.spec_code(),
    {
        match self {
            HubStatusCode::Success => 0x00,
            HubStatusCode::Fail => 0x01,
            HubStatusCode::Busy => 0x02,
            HubStatusCode::Timeout => 0x03,
            HubStatusCode::BadData => 0x04,
            HubStatusCode::ProtocolError => 0x05,
            HubStatusCode::NoMemory => 0x06,
            HubStatusCode::InvalidArgument => 0x07,
            HubStatusCode::BadAddress => 0x08,
            HubStatusCode::Forbidden => 0x09,
            HubStatusCode::AlreadyExists => 0x0B,
            HubStatusCode::Unsupported => 0x0C,
            HubStatusCode::NotImplemented => 0x0D,
            HubStatusCode::MalformedPackage => 0x0E,
            HubStatusCode::RecursiveCall => 0x10,
            HubStatusCode::DataMismatch => 0x11,
            HubStatusCode::DeviceOffline => 0x12,
            HubStatusCode::ModuleNotInit => 0x13,
            HubStatusCode::I2cError => 0x14,
            HubStatusCode::UsartError => 0x15,
            HubStatusCode::SpiError => 0x16,
            HubStatusCode::BootloaderNoDevice => 0xE001,
            HubStatusCode::BootloaderInvalidState => 0xE002,
            HubStatusCode::BootloaderInvalidRequest => 0xE003,
        }
    }

    /// The status with this code, if any.
    pub fn from_code(code: u16) -> (r: Option<HubStatusCode>)
        ensures
            r matches Some(v) ==> v.spec_code() == code,
            r is None ==> forall|v: HubStatusCode| v.spec_code() != code,
    {
        match code {
            0x00 => Some(HubStatusCode::Success),
            0x01 => Some(HubStatusCode::Fail),
            0x02 => Some(HubStatusCode::Busy),
            0x03 => Some(HubStatusCode::Timeout),
            0x04 => Some(HubStatusCode::BadData),
            0x05 => Some(HubStatusCode::ProtocolError),
            0x06 => Some(HubStatusCode::NoMemory),
            0x07 => Some(HubStatusCode::InvalidArgument),
            0x08 => Some(HubStatusCode::BadAddress),
            0x09 => Some(HubStatusCode::Forbidden),
            0x0B => Some(HubStatusCode::AlreadyExists),
            0x0C => Some(HubStatusCode::Unsupported),
            0x0D => Some(HubStatusCode::NotImplemented),
            0x0E => Some(HubStatusCode::MalformedPackage),
            0x10 => Some(HubStatusCode::RecursiveCall),
            0x11 => Some(HubStatusCode::DataMismatch),
            0x12 => Some(HubStatusCode::DeviceOffline),
            0x13 => Some(HubStatusCode::ModuleNotInit),
            0x14 => Some(HubStatusCode::I2cError),
            0x15 => Some(HubStatusCode::UsartError),
            0x16 => Some(HubStatusCode::SpiError),
            0xE001 => Some(HubStatusCode::BootloaderNoDevice),
            0xE002 => Some(HubStatusCode::BootloaderInvalidState),
            0xE003 => Some(HubStatusCode::BootloaderInvalidRequest),
            _ => None,
        }
    }
}

} // verus!
