//! The vocabulary of the generic-netlink family shared with the kernel driver: its
//! commands, its attributes, the values they carry and the requests they make up.

use vstd::prelude::*;

verus! {

/// A number that is none of the codes of the enum it was read for.
#[derive(PartialEq, Eq, Structural, Copy, Clone, Debug)]
pub struct TryFromPrimitiveError {
    pub number: u32,
}

/// The commands of the family.
#[derive(PartialEq, Eq, Structural, Copy, Clone, Debug)]
pub enum Command {
    Unspec,
    Exit,
    Init,
    Deinit,
    GetGpioValue,
    SetGpioValue,
    SetGpioConfig,
    SetGpioDirection,
    UnrecognizedConst(u8),
}

impl Command {
    /// The command that a byte stands for.
    pub open spec fn spec_from(number: u8) -> Command {
        if number == 0 {
            Command::Unspec
        } else if number == 1 {
            Command::Exit
        } else if number == 2 {
            Command::Init
        } else if number == 3 {
            Command::Deinit
        } else if number == 4 {
            Command::GetGpioValue
        } else if number == 5 {
            Command::SetGpioValue
        } else if number == 6 {
            Command::SetGpioConfig
        } else if number == 7 {
            Command::SetGpioDirection
        } else {
            Command::UnrecognizedConst(number)
        }
    }

    /// The byte that stands for the command.
    pub open spec fn spec_code(self) -> u8 {
        match self {
            Command::Unspec => 0,
            Command::Exit => 1,
            Command::Init => 2,
            Command::Deinit => 3,
            Command::GetGpioValue => 4,
            Command::SetGpioValue => 5,
            Command::SetGpioConfig => 6,
            Command::SetGpioDirection => 7,
            Command::UnrecognizedConst(number) => number,
        }
    }

    pub fn from_code(number: u8) -> (r: Command)
        ensures
            r == Self::spec_from(number),
    {
        match number {
            0 => Command::Unspec,
            1 => Command::Exit,
            2 => Command::Init,
            3 => Command::Deinit,
            4 => Command::GetGpioValue,
            5 => Command::SetGpioValue,
            6 => Command::SetGpioConfig,
            7 => Command::SetGpioDirection,
            _ => Command::UnrecognizedConst(number),
        }
    }

    #[verifier::when_used_as_spec(spec_code)]
    pub fn code(self) -> (r: u8)
        ensures
            r == self.spec_code(),
    {
        match self {
            Command::Unspec => 0,
            Command::Exit => 1,
            Command::Init => 2,
            Command::Deinit => 3,
            Command::GetGpioValue => 4,
            Command::SetGpioValue => 5,
            Command::SetGpioConfig => 6,
            Command::SetGpioDirection => 7,
            Command::UnrecognizedConst(number) => number,
        }
    }
}

/// The attributes of the family.
#[derive(PartialEq, Eq, Structural, Copy, Clone, Debug)]
pub enum Attribute {
    Unspec,
    Status,
    Message,
    VersionMajor,
    VersionMinor,
    VersionPatch,
    UniqueId,
    ChipLabel,
    GpioCount,
    GpioNames,
    GpioPin,
    GpioValue,
    GpioConfig,
    GpioDirection,
    UnrecognizedConst(u16),
}

impl Attribute {
    /// The attribute that a number stands for.
    pub open spec fn spec_from(number: u16) -> Attribute {
        if number == 0 {
            Attribute::Unspec
        } else if number == 1 {
            Attribute::Status
        } else if number == 2 {
            Attribute::Message
        } else if number == 3 {
            Attribute::VersionMajor
        } else if number == 4 {
            Attribute::VersionMinor
        } else if number == 5 {
            Attribute::VersionPatch
        } else if number == 6 {
            Attribute::UniqueId
        } else if number == 7 {
            Attribute::ChipLabel
        } else if number == 8 {
            Attribute::GpioCount
        } else if number == 9 {
            Attribute::GpioNames
        } else if number == 10 {
            Attribute::GpioPin
        } else if number == 11 {
            Attribute::GpioValue
        } else if number == 12 {
            Attribute::GpioConfig
        } else if number == 13 {
            Attribute::GpioDirection
        } else {
            Attribute::UnrecognizedConst(number)
        }
    }

    /// The number that stands for the attribute.
    pub open spec fn spec_code(self) -> u16 {
        match self {
            Attribute::Unspec => 0,
            Attribute::Status => 1,
            Attribute::Message => 2,
            Attribute::VersionMajor => 3,
            Attribute::VersionMinor => 4,
            Attribute::VersionPatch => 5,
            Attribute::UniqueId => 6,
            Attribute::ChipLabel => 7,
            Attribute::GpioCount => 8,
            Attribute::GpioNames => 9,
            Attribute::GpioPin => 10,
            Attribute::GpioValue => 11,
            Attribute::GpioConfig => 12,
            Attribute::GpioDirection => 13,
            Attribute::UnrecognizedConst(number) => number,
        }
    }

    /// What kind of value the attribute carries.
    pub open spec fn spec_kind(self) -> Kind {
        match self {
            Attribute::Status => Kind::U32,
            Attribute::Message => Kind::Text,
            Attribute::VersionMajor => Kind::U8,
            Attribute::VersionMinor => Kind::U8,
            Attribute::VersionPatch => Kind::U8,
            Attribute::UniqueId => Kind::U64,
            Attribute::ChipLabel => Kind::Text,
            Attribute::GpioCount => Kind::U32,
            Attribute::GpioNames => Kind::Texts,
            Attribute::GpioPin => Kind::U32,
            Attribute::GpioValue => Kind::U32,
            Attribute::GpioConfig => Kind::U32,
            Attribute::GpioDirection => Kind::U32,
            Attribute::Unspec => Kind::Opaque,
            Attribute::UnrecognizedConst(_) => Kind::Opaque,
        }
    }

    pub fn from_code(number: u16) -> (r: Attribute)
        ensures
            r == Self::spec_from(number),
    {
        match number {
            0 => Attribute::Unspec,
            1 => Attribute::Status,
            2 => Attribute::Message,
            3 => Attribute::VersionMajor,
            4 => Attribute::VersionMinor,
            5 => Attribute::VersionPatch,
            6 => Attribute::UniqueId,
            7 => Attribute::ChipLabel,
            8 => Attribute::GpioCount,
            9 => Attribute::GpioNames,
            10 => Attribute::GpioPin,
            11 => Attribute::GpioValue,
            12 => Attribute::GpioConfig,
            13 => Attribute::GpioDirection,
            _ => Attribute::UnrecognizedConst(number),
        }
    }

    #[verifier::when_used_as_spec(spec_code)]
    pub fn code(self) -> (r: u16)
        ensures
            r == self.spec_code(),
    {
        match self {
            Attribute::Unspec => 0,
            Attribute::Status => 1,
            Attribute::Message => 2,
            Attribute::VersionMajor => 3,
            Attribute::VersionMinor => 4,
            Attribute::VersionPatch => 5,
            Attribute::UniqueId => 6,
            Attribute::ChipLabel => 7,
            Attribute::GpioCount => 8,
            Attribute::GpioNames => 9,
            Attribute::GpioPin => 10,
            Attribute::GpioValue => 11,
            Attribute::GpioConfig => 12,
            Attribute::GpioDirection => 13,
            Attribute::UnrecognizedConst(number) => number,
        }
    }

    /// What kind of value the attribute carries.
    #[verifier::when_used_as_spec(spec_kind)]
    pub fn kind(self) -> (r: Kind)
        ensures
            r == self.spec_kind(),
    {
        match self {
            Attribute::Status => Kind::U32,
            Attribute::Message => Kind::Text,
            Attribute::VersionMajor => Kind::U8,
            Attribute::VersionMinor => Kind::U8,
            Attribute::VersionPatch => Kind::U8,
            Attribute::UniqueId => Kind::U64,
            Attribute::ChipLabel => Kind::Text,
            Attribute::GpioCount => Kind::U32,
            Attribute::GpioNames => Kind::Texts,
            Attribute::GpioPin => Kind::U32,
            Attribute::GpioValue => Kind::U32,
            Attribute::GpioConfig => Kind::U32,
            Attribute::GpioDirection => Kind::U32,
            Attribute::Unspec => Kind::Opaque,
            Attribute::UnrecognizedConst(_) => Kind::Opaque,
        }
    }
}

/// The kinds of value that an attribute can carry.
#[derive(PartialEq, Eq, Structural, Copy, Clone, Debug)]
pub enum Kind {
    U8,
    U32,
    U64,
    Text,
    Texts,
    /// Nothing that the bridge reads.
    Opaque,
}

/// A request of the kernel driver, as the router takes it.
#[derive(PartialEq, Eq, Debug)]
pub enum Packet {
    Exit(Exit),
    GetGpioValue(GetGpioValue),
    SetGpioValue(SetGpioValue),
    SetGpioConfig(SetGpioConfig),
    SetGpioDirection(SetGpioDirection),
    /// A request for the chip of another bridge: nothing is done and nothing said.
    Discard,
}

/// The driver is about to go.
#[derive(PartialEq, Eq, Debug)]
pub struct Exit {
    pub message: String,
}

#[derive(PartialEq, Eq, Structural, Copy, Clone, Debug)]
pub struct GetGpioValue {
    pub pin: u32,
}

#[derive(PartialEq, Eq, Structural, Copy, Clone, Debug)]
pub struct SetGpioValue {
    pub pin: u32,
    pub value: GpioValue,
}

#[derive(PartialEq, Eq, Structural, Copy, Clone, Debug)]
pub struct SetGpioConfig {
    pub pin: u32,
    pub config: GpioConfig,
}

#[derive(PartialEq, Eq, Structural, Copy, Clone, Debug)]
pub struct SetGpioDirection {
    pub pin: u32,
    pub direction: GpioDirection,
}

/// What the bridge tells the driver of a request.
#[derive(PartialEq, Eq, Structural, Copy, Clone, Debug)]
pub enum Status {
    Success,
    NotSupported,
    BrokenPipe,
    ProtocolError,
    Unknown,
}

impl Status {
    /// The number that stands for the status.
    pub open spec fn spec_code(self) -> u32 {
        match self {
            Status::Success => 0,
            Status::NotSupported => 1,
            Status::BrokenPipe => 2,
            Status::ProtocolError => 3,
            Status::Unknown => u32::MAX,
        }
    }

    /// The status that a number stands for, if any.
    pub open spec fn spec_try_from(number: u32) -> Option<Status> {
        if number == 0 {
            Some(Status::Success)
        } else if number == 1 {
            Some(Status::NotSupported)
        } else if number == 2 {
            Some(Status::BrokenPipe)
        } else if number == 3 {
            Some(Status::ProtocolError)
        } else if number == u32::MAX {
            Some(Status::Unknown)
        } else {
            None
        }
    }

    #[verifier::when_used_as_spec(spec_code)]
    pub fn code(self) -> (r: u32)
        ensures
            r == self.spec_code(),
    {
        match self {
            Status::Success => 0,
            Status::NotSupported => 1,
            Status::BrokenPipe => 2,
            Status::ProtocolError => 3,
            Status::Unknown => u32::MAX,
        }
    }

    pub fn try_from(number: u32) -> (r: Result<Status, TryFromPrimitiveError>)
        ensures
            match r {
                Ok(status) => Self::spec_try_from(number) == Some(status),
                Err(e) => Self::spec_try_from(number) is None && e.number == number,
            },
    {
        if number == 0 {
            Ok(Status::Success)
        } else if number == 1 {
            Ok(Status::NotSupported)
        } else if number == 2 {
            Ok(Status::BrokenPipe)
        } else if number == 3 {
            Ok(Status::ProtocolError)
        } else if number == u32::MAX {
            Ok(Status::Unknown)
        } else {
            Err(TryFromPrimitiveError { number })
        }
    }
}

/// The level of a line.
#[derive(PartialEq, Eq, Structural, Copy, Clone, Debug)]
pub enum GpioValue {
    Low,
    High,
}

impl GpioValue {
    /// The number that stands for the level.
    pub open spec fn spec_code(self) -> u32 {
        match self {
            GpioValue::Low => 0,
            GpioValue::High => 1,
        }
    }

    /// The level that a number stands for, if any.
    pub open spec fn spec_try_from(number: u32) -> Option<GpioValue> {
        if number == 0 {
            Some(GpioValue::Low)
        } else if number == 1 {
            Some(GpioValue::High)
        } else {
            None
        }
    }

    #[verifier::when_used_as_spec(spec_code)]
    pub fn code(self) -> (r: u32)
        ensures
            r == self.spec_code(),
    {
        match self {
            GpioValue::Low => 0,
            GpioValue::High => 1,
        }
    }

    pub fn try_from(number: u32) -> (r: Result<GpioValue, TryFromPrimitiveError>)
        ensures
            match r {
                Ok(value) => Self::spec_try_from(number) == Some(value),
                Err(e) => Self::spec_try_from(number) is None && e.number == number,
            },
    {
        match number {
            0 => Ok(GpioValue::Low),
            1 => Ok(GpioValue::High),
            _ => Err(TryFromPrimitiveError { number }),
        }
    }
}

/// The direction of a line.
#[derive(PartialEq, Eq, Structural, Copy, Clone, Debug)]
pub enum GpioDirection {
    Output,
    Input,
    Disabled,
}

impl GpioDirection {
    /// The number that stands for the direction.
    pub open spec fn spec_code(self) -> u32 {
        match self {
            GpioDirection::Output => 0,
            GpioDirection::Input => 1,
            GpioDirection::Disabled => 2,
        }
    }

    /// The direction that a number stands for, if any.
    pub open spec fn spec_try_from(number: u32) -> Option<GpioDirection> {
        if number == 0 {
            Some(GpioDirection::Output)
        } else if number == 1 {
            Some(GpioDirection::Input)
        } else if number == 2 {
            Some(GpioDirection::Disabled)
        } else {
            None
        }
    }

    #[verifier::when_used_as_spec(spec_code)]
    pub fn code(self) -> (r: u32)
        ensures
            r == self.spec_code(),
    {
        match self {
            GpioDirection::Output => 0,
            GpioDirection::Input => 1,
            GpioDirection::Disabled => 2,
        }
    }

    pub fn try_from(number: u32) -> (r: Result<GpioDirection, TryFromPrimitiveError>)
        ensures
            match r {
                Ok(direction) => Self::spec_try_from(number) == Some(direction),
                Err(e) => Self::spec_try_from(number) is None && e.number == number,
            },
    {
        match number {
            0 => Ok(GpioDirection::Output),
            1 => Ok(GpioDirection::Input),
            2 => Ok(GpioDirection::Disabled),
            _ => Err(TryFromPrimitiveError { number }),
        }
    }
}

/// The electrical configuration of a line, by the numbers that the kernel's
/// pin-control uses.
#[derive(PartialEq, Eq, Structural, Copy, Clone, Debug)]
pub enum GpioConfig {
    BiasDisable,
    BiasPullDown,
    BiasPullUp,
    DriveOpenDrain,
    DriveOpenSource,
    DrivePushPull,
}

impl GpioConfig {
    /// The number that stands for the configuration.
    pub open spec fn spec_code(self) -> u32 {
        match self {
            GpioConfig::BiasDisable => 1,
            GpioConfig::BiasPullDown => 3,
            GpioConfig::BiasPullUp => 5,
            GpioConfig::DriveOpenDrain => 6,
            GpioConfig::DriveOpenSource => 7,
            GpioConfig::DrivePushPull => 8,
        }
    }

    /// The configuration that a number stands for, if any.
    pub open spec fn spec_try_from(number: u32) -> Option<GpioConfig> {
        if number == 1 {
            Some(GpioConfig::BiasDisable)
        } else if number == 3 {
            Some(GpioConfig::BiasPullDown)
        } else if number == 5 {
            Some(GpioConfig::BiasPullUp)
        } else if number == 6 {
            Some(GpioConfig::DriveOpenDrain)
        } else if number == 7 {
            Some(GpioConfig::DriveOpenSource)
        } else if number == 8 {
            Some(GpioConfig::DrivePushPull)
        } else {
            None
        }
    }

    #[verifier::when_used_as_spec(spec_code)]
    pub fn code(self) -> (r: u32)
        ensures
            r == self.spec_code(),
    {
        match self {
            GpioConfig::BiasDisable => 1,
            GpioConfig::BiasPullDown => 3,
            GpioConfig::BiasPullUp => 5,
            GpioConfig::DriveOpenDrain => 6,
            GpioConfig::DriveOpenSource => 7,
            GpioConfig::DrivePushPull => 8,
        }
    }

    pub fn try_from(number: u32) -> (r: Result<GpioConfig, TryFromPrimitiveError>)
        ensures
            match r {
                Ok(config) => Self::spec_try_from(number) == Some(config),
                Err(e) => Self::spec_try_from(number) is None && e.number == number,
            },
    {
        match number {
            1 => Ok(GpioConfig::BiasDisable),
            3 => Ok(GpioConfig::BiasPullDown),
            5 => Ok(GpioConfig::BiasPullUp),
            6 => Ok(GpioConfig::DriveOpenDrain),
            7 => Ok(GpioConfig::DriveOpenSource),
            8 => Ok(GpioConfig::DrivePushPull),
            _ => Err(TryFromPrimitiveError { number }),
        }
    }
}

} // verus!
