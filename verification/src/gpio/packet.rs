//! The wire format of the link to the secondary.
//!
//! A packet is `cmd | len | payload`, one byte each for `cmd` and `len` and `len` bytes
//! of payload. Commands below 128 travel from the host to the secondary, the others
//! back. Every command but the exchange of versions carries a sequence number as the
//! first byte of its payload. Integers are little-endian, strings end with a NUL.

use core::str::from_utf8;
use crate::outside::number_le_u64;
use crate::outside::number_u8;
use crate::utils::Version;
use vstd::bytes::spec_u64_from_le_bytes;
use vstd::prelude::*;
use vstd::slice::slice_subrange;
use vstd::string::StringExecFns;
use vstd::utf8::decode_utf8;
use vstd::utf8::valid_utf8;

verus! {

/// Why a sequence of bytes is not the value it was read for.
#[derive(PartialEq, Eq, Structural, Copy, Clone, Debug)]
pub enum DecodeError {
    /// The bytes end inside a field.
    Eof,
    /// The length byte of the header differs from the number of bytes that follow it.
    Length,
    /// The byte is none of the codes of the enum it stands for.
    TryFromPrimitive(u8),
    /// A string holds a NUL before its last byte.
    InteriorNul,
    /// A string does not end with a NUL.
    NotNulTerminated,
    /// A string is not UTF-8.
    Utf8,
}

/// A byte that is none of the codes of the enum it was read for.
#[derive(PartialEq, Eq, Structural, Copy, Clone, Debug)]
pub struct TryFromPrimitiveError {
    pub number: u8,
}

/// The commands that the host sends.
#[derive(PartialEq, Eq, Structural, Copy, Clone, Debug)]
pub enum HostCmd {
    GetVersion,
    GetUniqueId,
    GetChipLabel,
    GetGpioCount,
    GetGpioName,
    GetGpioValue,
    SetGpioValue,
    SetGpioConfig,
    SetGpioDirection,
    UnknownCmd,
}

impl HostCmd {
    /// The byte that stands for the command on the wire.
    pub open spec fn spec_code(self) -> u8 {
        match self {
            HostCmd::GetVersion => 0,
            HostCmd::GetUniqueId => 1,
            HostCmd::GetChipLabel => 2,
            HostCmd::GetGpioCount => 3,
            HostCmd::GetGpioName => 4,
            HostCmd::GetGpioValue => 5,
            HostCmd::SetGpioValue => 6,
            HostCmd::SetGpioConfig => 7,
            HostCmd::SetGpioDirection => 8,
            HostCmd::UnknownCmd => 127,
        }
    }

    /// The command that a byte stands for, if any.
    pub open spec fn spec_try_from(number: u8) -> Option<HostCmd> {
        if number == 0 {
            Some(HostCmd::GetVersion)
        } else if number == 1 {
            Some(HostCmd::GetUniqueId)
        } else if number == 2 {
            Some(HostCmd::GetChipLabel)
        } else if number == 3 {
            Some(HostCmd::GetGpioCount)
        } else if number == 4 {
            Some(HostCmd::GetGpioName)
        } else if number == 5 {
            Some(HostCmd::GetGpioValue)
        } else if number == 6 {
            Some(HostCmd::SetGpioValue)
        } else if number == 7 {
            Some(HostCmd::SetGpioConfig)
        } else if number == 8 {
            Some(HostCmd::SetGpioDirection)
        } else if number == 127 {
            Some(HostCmd::UnknownCmd)
        } else {
            None
        }
    }

    /// The command that a byte stands for, with `UnknownCmd` for every other byte.
    pub open spec fn spec_from_code(number: u8) -> HostCmd {
        match Self::spec_try_from(number) {
            Some(cmd) => cmd,
            None => HostCmd::UnknownCmd,
        }
    }

    #[verifier::when_used_as_spec(spec_code)]
    pub fn code(self) -> (r: u8)
        ensures
            r == self.spec_code(),
    {
        match self {
            HostCmd::GetVersion => 0,
            HostCmd::GetUniqueId => 1,
            HostCmd::GetChipLabel => 2,
            HostCmd::GetGpioCount => 3,
            HostCmd::GetGpioName => 4,
            HostCmd::GetGpioValue => 5,
            HostCmd::SetGpioValue => 6,
            HostCmd::SetGpioConfig => 7,
            HostCmd::SetGpioDirection => 8,
            HostCmd::UnknownCmd => 127,
        }
    }

    pub fn try_from(number: u8) -> (r: Result<HostCmd, TryFromPrimitiveError>)
        ensures
            match r {
                Ok(cmd) => Self::spec_try_from(number) == Some(cmd),
                Err(e) => Self::spec_try_from(number) is None && e.number == number,
            },
    {
        match number {
            0 => Ok(HostCmd::GetVersion),
            1 => Ok(HostCmd::GetUniqueId),
            2 => Ok(HostCmd::GetChipLabel),
            3 => Ok(HostCmd::GetGpioCount),
            4 => Ok(HostCmd::GetGpioName),
            5 => Ok(HostCmd::GetGpioValue),
            6 => Ok(HostCmd::SetGpioValue),
            7 => Ok(HostCmd::SetGpioConfig),
            8 => Ok(HostCmd::SetGpioDirection),
            127 => Ok(HostCmd::UnknownCmd),
            _ => Err(TryFromPrimitiveError { number }),
        }
    }
}

/// The commands that the secondary sends.
#[derive(PartialEq, Eq, Structural, Copy, Clone, Debug)]
pub enum SecondaryCmd {
    VersionIs,
    StatusIs,
    UniqueIdIs,
    ChipLabelIs,
    GpioCountIs,
    GpioNameIs,
    GpioValueIs,
    UnsupportedCmdIs,
}

impl SecondaryCmd {
    /// The byte that stands for the command on the wire.
    pub open spec fn spec_code(self) -> u8 {
        match self {
            SecondaryCmd::VersionIs => 128,
            SecondaryCmd::StatusIs => 129,
            SecondaryCmd::UniqueIdIs => 130,
            SecondaryCmd::ChipLabelIs => 131,
            SecondaryCmd::GpioCountIs => 132,
            SecondaryCmd::GpioNameIs => 133,
            SecondaryCmd::GpioValueIs => 134,
            SecondaryCmd::UnsupportedCmdIs => 255,
        }
    }

    /// The command that a byte stands for, if any.
    pub open spec fn spec_try_from(number: u8) -> Option<SecondaryCmd> {
        if number == 128 {
            Some(SecondaryCmd::VersionIs)
        } else if number == 129 {
            Some(SecondaryCmd::StatusIs)
        } else if number == 130 {
            Some(SecondaryCmd::UniqueIdIs)
        } else if number == 131 {
            Some(SecondaryCmd::ChipLabelIs)
        } else if number == 132 {
            Some(SecondaryCmd::GpioCountIs)
        } else if number == 133 {
            Some(SecondaryCmd::GpioNameIs)
        } else if number == 134 {
            Some(SecondaryCmd::GpioValueIs)
        } else if number == 255 {
            Some(SecondaryCmd::UnsupportedCmdIs)
        } else {
            None
        }
    }

    /// The command that a byte stands for, with `UnsupportedCmdIs` for every other byte.
    pub open spec fn spec_from_code(number: u8) -> SecondaryCmd {
        match Self::spec_try_from(number) {
            Some(cmd) => cmd,
            None => SecondaryCmd::UnsupportedCmdIs,
        }
    }

    #[verifier::when_used_as_spec(spec_code)]
    pub fn code(self) -> (r: u8)
        ensures
            r == self.spec_code(),
    {
        match self {
            SecondaryCmd::VersionIs => 128,
            SecondaryCmd::StatusIs => 129,
            SecondaryCmd::UniqueIdIs => 130,
            SecondaryCmd::ChipLabelIs => 131,
            SecondaryCmd::GpioCountIs => 132,
            SecondaryCmd::GpioNameIs => 133,
            SecondaryCmd::GpioValueIs => 134,
            SecondaryCmd::UnsupportedCmdIs => 255,
        }
    }

    pub fn try_from(number: u8) -> (r: Result<SecondaryCmd, TryFromPrimitiveError>)
        ensures
            match r {
                Ok(cmd) => Self::spec_try_from(number) == Some(cmd),
                Err(e) => Self::spec_try_from(number) is None && e.number == number,
            },
    {
        match number {
            128 => Ok(SecondaryCmd::VersionIs),
            129 => Ok(SecondaryCmd::StatusIs),
            130 => Ok(SecondaryCmd::UniqueIdIs),
            131 => Ok(SecondaryCmd::ChipLabelIs),
            132 => Ok(SecondaryCmd::GpioCountIs),
            133 => Ok(SecondaryCmd::GpioNameIs),
            134 => Ok(SecondaryCmd::GpioValueIs),
            255 => Ok(SecondaryCmd::UnsupportedCmdIs),
            _ => Err(TryFromPrimitiveError { number }),
        }
    }
}

/// What the secondary says of a request that asks for no value.
#[derive(PartialEq, Eq, Structural, Copy, Clone, Debug)]
pub enum Status {
    Success,
    NotSupported,
    InvalidPin,
    Unknown,
}

impl Status {
    /// The byte that stands for the status on the wire.
    pub open spec fn spec_code(self) -> u8 {
        match self {
            Status::Success => 0,
            Status::NotSupported => 1,
            Status::InvalidPin => 2,
            Status::Unknown => 255,
        }
    }

    /// The status that a byte stands for, if any.
    pub open spec fn spec_try_from(number: u8) -> Option<Status> {
        if number == 0 {
            Some(Status::Success)
        } else if number == 1 {
            Some(Status::NotSupported)
        } else if number == 2 {
            Some(Status::InvalidPin)
        } else if number == 255 {
            Some(Status::Unknown)
        } else {
            None
        }
    }

    /// The status that a byte stands for, with `Unknown` for every other byte.
    pub open spec fn spec_from_code(number: u8) -> Status {
        match Self::spec_try_from(number) {
            Some(status) => status,
            None => Status::Unknown,
        }
    }

    #[verifier::when_used_as_spec(spec_code)]
    pub fn code(self) -> (r: u8)
        ensures
            r == self.spec_code(),
    {
        match self {
            Status::Success => 0,
            Status::NotSupported => 1,
            Status::InvalidPin => 2,
            Status::Unknown => 255,
        }
    }

    pub fn try_from(number: u8) -> (r: Result<Status, TryFromPrimitiveError>)
        ensures
            match r {
                Ok(status) => Self::spec_try_from(number) == Some(status),
                Err(e) => Self::spec_try_from(number) is None && e.number == number,
            },
    {
        match number {
            0 => Ok(Status::Success),
            1 => Ok(Status::NotSupported),
            2 => Ok(Status::InvalidPin),
            255 => Ok(Status::Unknown),
            _ => Err(TryFromPrimitiveError { number }),
        }
    }

    /// The name of the status, as it is logged.
    pub fn name(self) -> (r: &'static str)
        ensures
            r@ == match self {
                Status::Success => "Ok"@,
                Status::NotSupported => "NotSupported"@,
                Status::InvalidPin => "InvalidPin"@,
                Status::Unknown => "Unknown"@,
            },
    {
        match self {
            Status::Success => "Ok",
            Status::NotSupported => "NotSupported",
            Status::InvalidPin => "InvalidPin",
            Status::Unknown => "Unknown",
        }
    }
}

/// The level of a pin.
#[derive(PartialEq, Eq, Structural, Copy, Clone, Debug)]
pub enum GpioValue {
    Low,
    High,
}

impl GpioValue {
    /// The byte that stands for the level on the wire.
    pub open spec fn spec_code(self) -> u8 {
        match self {
            GpioValue::Low => 0,
            GpioValue::High => 1,
        }
    }

    /// The level that a byte stands for, if any.
    pub open spec fn spec_try_from(number: u8) -> Option<GpioValue> {
        if number == 0 {
            Some(GpioValue::Low)
        } else if number == 1 {
            Some(GpioValue::High)
        } else {
            None
        }
    }

    #[verifier::when_used_as_spec(spec_code)]
    pub fn code(self) -> (r: u8)
        ensures
            r == self.spec_code(),
    {
        match self {
            GpioValue::Low => 0,
            GpioValue::High => 1,
        }
    }

    pub fn try_from(number: u8) -> (r: Result<GpioValue, TryFromPrimitiveError>)
        ensures
            match r {
                Ok(value) => Self::spec_try_from(number) == Some(value),
                Err(e) => Self::spec_try_from(number) is None && e.number == number,
            },
    {
        match number {
            0 => Ok(GpioValue::Low),
            1 => Ok(GpioValue::High),
            _ => Err(TryFromPrimitiveError { number }),
        }
    }
}

/// The electrical configuration of a pin.
#[derive(PartialEq, Eq, Structural, Copy, Clone, Debug)]
pub enum GpioConfig {
    BiasDisable,
    BiasPullDown,
    BiasPullUp,
    DriveOpenDrain,
    DriveOpenSource,
    DrivePushPull,
}

impl GpioConfig {
    /// The byte that stands for the configuration on the wire.
    pub open spec fn spec_code(self) -> u8 {
        match self {
            GpioConfig::BiasDisable => 0,
            GpioConfig::BiasPullDown => 1,
            GpioConfig::BiasPullUp => 2,
            GpioConfig::DriveOpenDrain => 3,
            GpioConfig::DriveOpenSource => 4,
            GpioConfig::DrivePushPull => 5,
        }
    }

    /// The configuration that a byte stands for, if any.
    pub open spec fn spec_try_from(number: u8) -> Option<GpioConfig> {
        if number == 0 {
            Some(GpioConfig::BiasDisable)
        } else if number == 1 {
            Some(GpioConfig::BiasPullDown)
        } else if number == 2 {
            Some(GpioConfig::BiasPullUp)
        } else if number == 3 {
            Some(GpioConfig::DriveOpenDrain)
        } else if number == 4 {
            Some(GpioConfig::DriveOpenSource)
        } else if number == 5 {
            Some(GpioConfig::DrivePushPull)
        } else {
            None
        }
    }

    #[verifier::when_used_as_spec(spec_code)]
    pub fn code(self) -> (r: u8)
        ensures
            r == self.spec_code(),
    {
        match self {
            GpioConfig::BiasDisable => 0,
            GpioConfig::BiasPullDown => 1,
            GpioConfig::BiasPullUp => 2,
            GpioConfig::DriveOpenDrain => 3,
            GpioConfig::DriveOpenSource => 4,
            GpioConfig::DrivePushPull => 5,
        }
    }

    pub fn try_from(number: u8) -> (r: Result<GpioConfig, TryFromPrimitiveError>)
        ensures
            match r {
                Ok(config) => Self::spec_try_from(number) == Some(config),
                Err(e) => Self::spec_try_from(number) is None && e.number == number,
            },
    {
        match number {
            0 => Ok(GpioConfig::BiasDisable),
            1 => Ok(GpioConfig::BiasPullDown),
            2 => Ok(GpioConfig::BiasPullUp),
            3 => Ok(GpioConfig::DriveOpenDrain),
            4 => Ok(GpioConfig::DriveOpenSource),
            5 => Ok(GpioConfig::DrivePushPull),
            _ => Err(TryFromPrimitiveError { number }),
        }
    }
}

/// The direction of a pin.
#[derive(PartialEq, Eq, Structural, Copy, Clone, Debug)]
pub enum GpioDirection {
    Output,
    Input,
    Disabled,
}

impl GpioDirection {
    /// The byte that stands for the direction on the wire.
    pub open spec fn spec_code(self) -> u8 {
        match self {
            GpioDirection::Output => 0,
            GpioDirection::Input => 1,
            GpioDirection::Disabled => 2,
        }
    }

    /// The direction that a byte stands for, if any.
    pub open spec fn spec_try_from(number: u8) -> Option<GpioDirection> {
        if number == 0 {
            Some(GpioDirection::Output)
        } else if number == 1 {
            Some(GpioDirection::Input)
        } else if number == 2 {
            Some(GpioDirection::Disabled)
        } else {
            None
        }
    }

    #[verifier::when_used_as_spec(spec_code)]
    pub fn code(self) -> (r: u8)
        ensures
            r == self.spec_code(),
    {
        match self {
            GpioDirection::Output => 0,
            GpioDirection::Input => 1,
            GpioDirection::Disabled => 2,
        }
    }

    pub fn try_from(number: u8) -> (r: Result<GpioDirection, TryFromPrimitiveError>)
        ensures
            match r {
                Ok(direction) => Self::spec_try_from(number) == Some(direction),
                Err(e) => Self::spec_try_from(number) is None && e.number == number,
            },
    {
        match number {
            0 => Ok(GpioDirection::Output),
            1 => Ok(GpioDirection::Input),
            2 => Ok(GpioDirection::Disabled),
            _ => Err(TryFromPrimitiveError { number }),
        }
    }
}

/// The number of bytes of the `cmd | len` header.
pub const HEADER_SIZE: usize = 2;

/// The header of every packet: a command and the number of bytes that follow the
/// header.
#[derive(PartialEq, Eq, Copy, Clone, Debug)]
pub struct Header<T> {
    pub cmd: T,
    pub len: u8,
}

impl<T> Header<T> {
    pub fn new(cmd: T, len: u8) -> (r: Self)
        ensures
            r.cmd == cmd,
            r.len == len,
    {
        Self { cmd, len }
    }

    /// The length byte of a packet of `packet_len` bytes, header included.
    pub fn len(packet_len: usize) -> (r: u8)
        requires
            HEADER_SIZE <= packet_len <= HEADER_SIZE + u8::MAX,
        ensures
            r == packet_len - HEADER_SIZE,
    {
        (packet_len - HEADER_SIZE) as u8
    }
}

/// The sequence number that follows `seq`: the next one, and 0 after 255.
pub open spec fn next_seq(seq: u8) -> u8 {
    if seq == u8::MAX {
        0
    } else {
        (seq + 1) as u8
    }
}

/// The second header of a request: its sequence number.
#[derive(PartialEq, Eq, Structural, Copy, Clone, Debug)]
pub struct HostHeader {
    pub seq: u8,
}

impl HostHeader {
    /// Advances the counter and takes its new value as the request's number.
    pub fn new(seq: &mut u8) -> (r: Self)
        ensures
            *final(seq) == next_seq(*old(seq)),
            r.seq == next_seq(*old(seq)),
    {
        *seq = seq.wrapping_add(1);
        Self { seq: *seq }
    }
}

/// The second header of a reply: the sequence number of the request it answers.
#[derive(PartialEq, Eq, Structural, Copy, Clone, Debug)]
pub struct SecondaryHeader {
    pub seq: u8,
}

impl SecondaryHeader {
    pub fn new(seq: u8) -> (r: Self)
        ensures
            r.seq == seq,
    {
        Self { seq }
    }
}

/// Reads one byte, or reports that the input has ended.
pub(crate) fn byte(input: &[u8]) -> (r: Result<(&[u8], u8), DecodeError>)
    ensures
        match r {
            Ok((remaining, value)) => input@.len() >= 1 && remaining@ == input@.skip(1) && value
                == input@[0],
            Err(e) => input@.len() < 1 && e == DecodeError::Eof,
        },
{
    match number_u8(input) {
        Ok(read) => Ok(read),
        Err(_) => Err(DecodeError::Eof),
    }
}

/// The command of a reply, with `UnsupportedCmdIs` for a byte that is none.
pub open spec fn spec_cmd(input: Seq<u8>) -> Result<SecondaryCmd, DecodeError> {
    if input.len() < 1 {
        Err(DecodeError::Eof)
    } else {
        Ok(SecondaryCmd::spec_from_code(input[0]))
    }
}

/// The `cmd | len` header at the start of a reply.
pub open spec fn spec_header(input: Seq<u8>) -> Result<Header<SecondaryCmd>, DecodeError> {
    if input.len() < 2 {
        Err(DecodeError::Eof)
    } else {
        Ok(Header { cmd: SecondaryCmd::spec_from_code(input[0]), len: input[1] })
    }
}

/// The two headers at the start of a sequenced reply.
pub open spec fn spec_headers(input: Seq<u8>) -> Result<
    (Header<SecondaryCmd>, SecondaryHeader),
    DecodeError,
> {
    if input.len() < 3 {
        Err(DecodeError::Eof)
    } else {
        Ok(
            (
                Header { cmd: SecondaryCmd::spec_from_code(input[0]), len: input[1] },
                SecondaryHeader { seq: input[2] },
            ),
        )
    }
}

fn deserialize_cmd(input: &[u8]) -> (r: Result<(&[u8], SecondaryCmd), DecodeError>)
    ensures
        match r {
            Ok((remaining, cmd)) => spec_cmd(input@) == Ok::<_, DecodeError>(cmd) && remaining@
                == input@.skip(1),
            Err(e) => spec_cmd(input@) == Err::<SecondaryCmd, _>(e),
        },
{
    let (remaining, cmd) = byte(input)?;
    let cmd = match SecondaryCmd::try_from(cmd) {
        Ok(cmd) => cmd,
        Err(_) => SecondaryCmd::UnsupportedCmdIs,
    };
    Ok((remaining, cmd))
}

fn deserialize_header(input: &[u8]) -> (r: Result<(&[u8], Header<SecondaryCmd>), DecodeError>)
    ensures
        match r {
            Ok((remaining, header)) => spec_header(input@) == Ok::<_, DecodeError>(header)
                && remaining@ == input@.skip(2),
            Err(e) => spec_header(input@) == Err::<Header<SecondaryCmd>, _>(e),
        },
{
    let (remaining, cmd) = deserialize_cmd(input)?;
    let (remaining, len) = byte(remaining)?;
    Ok((remaining, Header::new(cmd, len)))
}

fn deserialize_secondary_header(input: &[u8]) -> (r: Result<
    (&[u8], SecondaryHeader),
    DecodeError,
>)
    ensures
        match r {
            Ok((remaining, header)) => input@.len() >= 1 && remaining@ == input@.skip(1)
                && header.seq == input@[0],
            Err(e) => input@.len() < 1 && e == DecodeError::Eof,
        },
{
    let (remaining, seq) = byte(input)?;
    Ok((remaining, SecondaryHeader::new(seq)))
}

/// Reads the two headers of a sequenced reply and hands back what follows them.
pub fn deserialize_headers(input: &[u8]) -> (r: Result<
    (&[u8], (Header<SecondaryCmd>, SecondaryHeader)),
    DecodeError,
>)
    ensures
        match r {
            Ok((remaining, headers)) => spec_headers(input@) == Ok::<_, DecodeError>(headers)
                && remaining@ == input@.skip(3),
            Err(e) => spec_headers(input@) == Err::<(Header<SecondaryCmd>, SecondaryHeader), _>(
                e,
            ),
        },
{
    let (remaining, header) = deserialize_header(input)?;
    let (remaining, secondary_header) = deserialize_secondary_header(remaining)?;
    Ok((remaining, (header, secondary_header)))
}

/// The command of a reply, if its first byte is the code of one.
pub open spec fn spec_try_cmd(input: Seq<u8>) -> Result<SecondaryCmd, DecodeError> {
    if input.len() < 1 {
        Err(DecodeError::Eof)
    } else {
        match SecondaryCmd::spec_try_from(input[0]) {
            Some(cmd) => Ok(cmd),
            None => Err(DecodeError::TryFromPrimitive(input[0])),
        }
    }
}

/// Reads the command of a reply and refuses a byte that is the code of none.
pub fn try_deserialize_cmd(input: &[u8]) -> (r: Result<SecondaryCmd, DecodeError>)
    ensures
        r == spec_try_cmd(input@),
{
    let (_, cmd) = byte(input)?;
    match SecondaryCmd::try_from(cmd) {
        Ok(cmd) => Ok(cmd),
        Err(e) => Err(DecodeError::TryFromPrimitive(e.number)),
    }
}

/// The header of a reply whose length byte is the number of bytes that follow it.
pub open spec fn spec_framed(input: Seq<u8>) -> Result<Header<SecondaryCmd>, DecodeError> {
    match spec_header(input) {
        Err(e) => Err(e),
        Ok(header) => if input.len() - HEADER_SIZE != header.len {
            Err(DecodeError::Length)
        } else {
            Ok(header)
        },
    }
}

/// The two headers of a sequenced reply whose length byte is the number of bytes that
/// follow the first header.
pub open spec fn spec_framed_headers(input: Seq<u8>) -> Result<
    (Header<SecondaryCmd>, SecondaryHeader),
    DecodeError,
> {
    match spec_framed(input) {
        Err(e) => Err(e),
        Ok(header) => if input.len() < 3 {
            Err(DecodeError::Eof)
        } else {
            Ok((header, SecondaryHeader { seq: input[2] }))
        },
    }
}

/// Reads the header of a reply and holds its length byte against what follows.
fn framed(input: &[u8]) -> (r: Result<(&[u8], Header<SecondaryCmd>), DecodeError>)
    ensures
        match r {
            Ok((remaining, header)) => spec_framed(input@) == Ok::<_, DecodeError>(header)
                && remaining@ == input@.skip(2),
            Err(e) => spec_framed(input@) == Err::<Header<SecondaryCmd>, _>(e),
        },
{
    let (remaining, header) = deserialize_header(input)?;
    if remaining.len() != header.len as usize {
        return Err(DecodeError::Length);
    }
    Ok((remaining, header))
}

/// Reads both headers of a sequenced reply and holds its length byte against what
/// follows the first.
fn framed_headers(input: &[u8]) -> (r: Result<
    (&[u8], (Header<SecondaryCmd>, SecondaryHeader)),
    DecodeError,
>)
    ensures
        match r {
            Ok((remaining, headers)) => spec_framed_headers(input@) == Ok::<_, DecodeError>(
                headers,
            ) && remaining@ == input@.skip(3),
            Err(e) => spec_framed_headers(input@) == Err::<
                (Header<SecondaryCmd>, SecondaryHeader),
                _,
            >(e),
        },
{
    let (remaining, header) = framed(input)?;
    let (remaining, secondary_header) = deserialize_secondary_header(remaining)?;
    Ok((remaining, (header, secondary_header)))
}

/// The string that NUL-terminated bytes hold: the bytes before the NUL, which must be
/// the only one, read as UTF-8.
pub open spec fn spec_text(bytes: Seq<u8>) -> Result<Seq<char>, DecodeError> {
    if !bytes.contains(0u8) {
        Err(DecodeError::NotNulTerminated)
    } else if exists|i: int| 0 <= i < bytes.len() - 1 && bytes[i] == 0 {
        Err(DecodeError::InteriorNul)
    } else if !valid_utf8(bytes.drop_last()) {
        Err(DecodeError::Utf8)
    } else {
        Ok(decode_utf8(bytes.drop_last()))
    }
}

/// Reads a NUL-terminated string.
pub fn text(bytes: &[u8]) -> (r: Result<String, DecodeError>)
    ensures
        match r {
            Ok(s) => spec_text(bytes@) == Ok::<_, DecodeError>(s@),
            Err(e) => spec_text(bytes@) == Err::<Seq<char>, _>(e),
        },
{
    let mut nul: usize = 0;
    while nul < bytes.len() && bytes[nul] != 0
        invariant
            nul <= bytes.len(),
            forall|i: int| 0 <= i < nul ==> bytes@[i] != 0,
        decreases bytes.len() - nul,
    {
        nul += 1;
    }
    if nul == bytes.len() {
        return Err(DecodeError::NotNulTerminated);
    }
    assert(bytes@[nul as int] == 0);
    if nul + 1 != bytes.len() {
        return Err(DecodeError::InteriorNul);
    }
    let before = slice_subrange(bytes, 0, nul);
    assert(before@ == bytes@.drop_last());
    match from_utf8(before) {
        Ok(s) => {
            proof {
                vstd::utf8::encode_utf8_decode_utf8(s@);
            }
            Ok(String::from_str(s))
        },
        Err(_) => Err(DecodeError::Utf8),
    }
}

/// The reply to `GetVersion`.
#[derive(PartialEq, Eq, Copy, Clone, Debug)]
pub struct VersionIs {
    pub header: Header<SecondaryCmd>,
    pub version: Version,
}

impl VersionIs {
    /// The reply that a packet holds: a header and the three bytes of a version.
    pub open spec fn spec_deserialize(input: Seq<u8>) -> Result<VersionIs, DecodeError> {
        match spec_framed(input) {
            Err(e) => Err(e),
            Ok(header) => if input.len() < 5 {
                Err(DecodeError::Eof)
            } else {
                Ok(
                    VersionIs {
                        header,
                        version: Version { major: input[2], minor: input[3], patch: input[4] },
                    },
                )
            },
        }
    }

    pub fn deserialize(input: &[u8]) -> (r: Result<Self, DecodeError>)
        ensures
            r == Self::spec_deserialize(input@),
    {
        let (remaining, header) = framed(input)?;
        let (remaining, major) = byte(remaining)?;
        let (remaining, minor) = byte(remaining)?;
        let (_, patch) = byte(remaining)?;
        let version = Version { major, minor, patch };
        Ok(Self { header, version })
    }
}

/// What the secondary answers to a command it does not know.
#[derive(PartialEq, Eq, Copy, Clone, Debug)]
pub struct UnsupportedCmdIs {
    pub header: Header<SecondaryCmd>,
    pub unsupported_cmd: HostCmd,
}

impl UnsupportedCmdIs {
    /// The reply that a packet holds: a header and the code of the refused command.
    pub open spec fn spec_deserialize(input: Seq<u8>) -> Result<UnsupportedCmdIs, DecodeError> {
        match spec_framed(input) {
            Err(e) => Err(e),
            Ok(header) => if input.len() < 3 {
                Err(DecodeError::Eof)
            } else {
                Ok(UnsupportedCmdIs { header, unsupported_cmd: HostCmd::spec_from_code(input[2]) })
            },
        }
    }

    pub fn deserialize(input: &[u8]) -> (r: Result<Self, DecodeError>)
        ensures
            r == Self::spec_deserialize(input@),
    {
        let (remaining, header) = framed(input)?;
        let (_, cmd) = byte(remaining)?;
        let unsupported_cmd = match HostCmd::try_from(cmd) {
            Ok(cmd) => cmd,
            Err(_) => HostCmd::UnknownCmd,
        };
        Ok(Self { header, unsupported_cmd })
    }
}

/// The reply to `GetGpioCount`.
#[derive(PartialEq, Eq, Copy, Clone, Debug)]
pub struct GpioCountIs {
    pub header: Header<SecondaryCmd>,
    pub secondary_header: SecondaryHeader,
    pub count: u8,
}

impl GpioCountIs {
    /// The reply that a packet holds: two headers and the number of pins.
    pub open spec fn spec_deserialize(input: Seq<u8>) -> Result<GpioCountIs, DecodeError> {
        match spec_framed_headers(input) {
            Err(e) => Err(e),
            Ok((header, secondary_header)) => if input.len() < 4 {
                Err(DecodeError::Eof)
            } else {
                Ok(GpioCountIs { header, secondary_header, count: input[3] })
            },
        }
    }

    pub fn deserialize(input: &[u8]) -> (r: Result<Self, DecodeError>)
        ensures
            r == Self::spec_deserialize(input@),
    {
        let (remaining, (header, secondary_header)) = framed_headers(input)?;
        let (_, count) = byte(remaining)?;
        Ok(Self { header, secondary_header, count })
    }
}

/// The reply to `GetGpioValue`. A byte that is the code of no level does not spoil
/// the reply: it is kept as the error of `value`.
#[derive(PartialEq, Eq, Copy, Clone, Debug)]
pub struct GpioValueIs {
    pub header: Header<SecondaryCmd>,
    pub secondary_header: SecondaryHeader,
    pub value: Result<GpioValue, TryFromPrimitiveError>,
}

impl GpioValueIs {
    /// The reply that a packet holds: two headers and the code of a level.
    pub open spec fn spec_deserialize(input: Seq<u8>) -> Result<GpioValueIs, DecodeError> {
        match spec_framed_headers(input) {
            Err(e) => Err(e),
            Ok((header, secondary_header)) => if input.len() < 4 {
                Err(DecodeError::Eof)
            } else {
                Ok(
                    GpioValueIs {
                        header,
                        secondary_header,
                        value: match GpioValue::spec_try_from(input[3]) {
                            Some(value) => Ok(value),
                            None => Err(TryFromPrimitiveError { number: input[3] }),
                        },
                    },
                )
            },
        }
    }

    pub fn deserialize(input: &[u8]) -> (r: Result<Self, DecodeError>)
        ensures
            r == Self::spec_deserialize(input@),
    {
        let (remaining, (header, secondary_header)) = framed_headers(input)?;
        let (_, value) = byte(remaining)?;
        let value = GpioValue::try_from(value);
        Ok(Self { header, secondary_header, value })
    }
}

/// The reply to the three requests that set something. A byte that is the code of no
/// status is read as `Unknown`.
#[derive(PartialEq, Eq, Copy, Clone, Debug)]
pub struct StatusIs {
    pub header: Header<SecondaryCmd>,
    pub secondary_header: SecondaryHeader,
    pub status: Status,
}

impl StatusIs {
    /// The reply that a packet holds: two headers and the code of a status.
    pub open spec fn spec_deserialize(input: Seq<u8>) -> Result<StatusIs, DecodeError> {
        match spec_framed_headers(input) {
            Err(e) => Err(e),
            Ok((header, secondary_header)) => if input.len() < 4 {
                Err(DecodeError::Eof)
            } else {
                Ok(StatusIs { header, secondary_header, status: Status::spec_from_code(input[3]) })
            },
        }
    }

    pub fn deserialize(input: &[u8]) -> (r: Result<Self, DecodeError>)
        ensures
            r == Self::spec_deserialize(input@),
    {
        let (remaining, (header, secondary_header)) = framed_headers(input)?;
        let (_, status) = byte(remaining)?;
        let status = match Status::try_from(status) {
            Ok(status) => status,
            Err(_) => Status::Unknown,
        };
        Ok(Self { header, secondary_header, status })
    }
}

/// The reply to `GetUniqueId`.
#[derive(PartialEq, Eq, Copy, Clone, Debug)]
pub struct UniqueIdIs {
    pub header: Header<SecondaryCmd>,
    pub secondary_header: SecondaryHeader,
    pub unique_id: u64,
}

impl UniqueIdIs {
    /// The reply that a packet holds: two headers and the eight bytes of the identifier,
    /// the least significant first.
    pub open spec fn spec_deserialize(input: Seq<u8>) -> Result<UniqueIdIs, DecodeError> {
        match spec_framed_headers(input) {
            Err(e) => Err(e),
            Ok((header, secondary_header)) => if input.len() < 11 {
                Err(DecodeError::Eof)
            } else {
                Ok(
                    UniqueIdIs {
                        header,
                        secondary_header,
                        unique_id: spec_u64_from_le_bytes(input.subrange(3, 11)),
                    },
                )
            },
        }
    }

    pub fn deserialize(input: &[u8]) -> (r: Result<Self, DecodeError>)
        ensures
            r == Self::spec_deserialize(input@),
    {
        let (remaining, (header, secondary_header)) = framed_headers(input)?;
        let (_, unique_id) = match number_le_u64(remaining) {
            Ok(read) => read,
            Err(_) => {
                return Err(DecodeError::Eof);
            },
        };
        assert(remaining@.take(8) == input@.subrange(3, 11));
        Ok(Self { header, secondary_header, unique_id })
    }
}

/// What a reply that carries a string holds, with the string as a sequence of
/// characters.
pub struct TextIs {
    pub header: Header<SecondaryCmd>,
    pub secondary_header: SecondaryHeader,
    pub text: Result<Seq<char>, DecodeError>,
}

/// The reply that carries a string and that a packet holds: two headers and the bytes
/// of the string. A string that cannot be read does not spoil the reply: the reason is
/// kept in its place.
pub open spec fn spec_text_is(input: Seq<u8>) -> Result<TextIs, DecodeError> {
    match spec_framed_headers(input) {
        Err(e) => Err(e),
        Ok((header, secondary_header)) => Ok(
            TextIs { header, secondary_header, text: spec_text(input.skip(3)) },
        ),
    }
}

/// The string of a reply, or the reason it could not be read, as a sequence of
/// characters.
pub open spec fn text_view(text: Result<String, DecodeError>) -> Result<Seq<char>, DecodeError> {
    match text {
        Ok(s) => Ok(s@),
        Err(e) => Err(e),
    }
}

/// The reply to `GetGpioName`.
#[derive(PartialEq, Eq, Debug)]
pub struct GpioNameIs {
    pub header: Header<SecondaryCmd>,
    pub secondary_header: SecondaryHeader,
    pub name: Result<String, DecodeError>,
}

impl View for GpioNameIs {
    type V = TextIs;

    open spec fn view(&self) -> TextIs {
        TextIs {
            header: self.header,
            secondary_header: self.secondary_header,
            text: text_view(self.name),
        }
    }
}

impl GpioNameIs {
    pub fn deserialize(input: &[u8]) -> (r: Result<Self, DecodeError>)
        ensures
            match r {
                Ok(packet) => spec_text_is(input@) == Ok::<_, DecodeError>(packet@),
                Err(e) => spec_text_is(input@) == Err::<TextIs, _>(e),
            },
    {
        let (remaining, (header, secondary_header)) = framed_headers(input)?;
        let name = text(remaining);
        Ok(Self { header, secondary_header, name })
    }
}

/// The reply to `GetChipLabel`.
#[derive(PartialEq, Eq, Debug)]
pub struct ChipLabelIs {
    pub header: Header<SecondaryCmd>,
    pub secondary_header: SecondaryHeader,
    pub chip_label: Result<String, DecodeError>,
}

impl View for ChipLabelIs {
    type V = TextIs;

    open spec fn view(&self) -> TextIs {
        TextIs {
            header: self.header,
            secondary_header: self.secondary_header,
            text: text_view(self.chip_label),
        }
    }
}

impl ChipLabelIs {
    pub fn deserialize(input: &[u8]) -> (r: Result<Self, DecodeError>)
        ensures
            match r {
                Ok(packet) => spec_text_is(input@) == Ok::<_, DecodeError>(packet@),
                Err(e) => spec_text_is(input@) == Err::<TextIs, _>(e),
            },
    {
        let (remaining, (header, secondary_header)) = framed_headers(input)?;
        let chip_label = text(remaining);
        Ok(Self { header, secondary_header, chip_label })
    }
}

/// The bytes of a packet: its command, its length byte and its payload.
pub open spec fn packet(cmd: u8, len: u8, payload: Seq<u8>) -> Seq<u8> {
    seq![cmd, len] + payload
}

/// A reply is accepted exactly when its length byte is the length of its payload and
/// the payload holds every field of the reply: three bytes of a version, the code of a
/// command, or a sequence number and behind it a count, a level, a status, the eight
/// bytes of an identifier or a string. A code that stands for nothing and a string
/// that cannot be read do not make the packet unacceptable.
pub proof fn lemma_accepts(cmd: u8, len: u8, payload: Seq<u8>)
    ensures
        VersionIs::spec_deserialize(packet(cmd, len, payload)) is Ok <==> payload.len() == len
            && payload.len() >= 3,
        UnsupportedCmdIs::spec_deserialize(packet(cmd, len, payload)) is Ok <==> payload.len()
            == len && payload.len() >= 1,
        GpioCountIs::spec_deserialize(packet(cmd, len, payload)) is Ok <==> payload.len() == len
            && payload.len() >= 2,
        GpioValueIs::spec_deserialize(packet(cmd, len, payload)) is Ok <==> payload.len() == len
            && payload.len() >= 2,
        StatusIs::spec_deserialize(packet(cmd, len, payload)) is Ok <==> payload.len() == len
            && payload.len() >= 2,
        UniqueIdIs::spec_deserialize(packet(cmd, len, payload)) is Ok <==> payload.len() == len
            && payload.len() >= 9,
        spec_text_is(packet(cmd, len, payload)) is Ok <==> payload.len() == len && payload.len()
            >= 1,
{
}

/// What an accepted reply holds is what its payload says, whatever its command byte:
/// the fields stand in the payload in their order, the identifier with its least
/// significant byte first, and a string is what follows the sequence number, up to its
/// NUL.
pub proof fn lemma_accepted(cmd: u8, len: u8, payload: Seq<u8>)
    requires
        payload.len() == len,
    ensures
        VersionIs::spec_deserialize(packet(cmd, len, payload)) matches Ok(reply) ==> reply.version
            == (Version { major: payload[0], minor: payload[1], patch: payload[2] }),
        GpioCountIs::spec_deserialize(packet(cmd, len, payload)) matches Ok(reply)
            ==> reply.secondary_header.seq == payload[0] && reply.count == payload[1],
        GpioValueIs::spec_deserialize(packet(cmd, len, payload)) matches Ok(reply)
            ==> reply.secondary_header.seq == payload[0] && (reply.value matches Ok(value)
            ==> value.spec_code() == payload[1]),
        StatusIs::spec_deserialize(packet(cmd, len, payload)) matches Ok(reply)
            ==> reply.secondary_header.seq == payload[0] && reply.status == Status::spec_from_code(
            payload[1],
        ),
        UniqueIdIs::spec_deserialize(packet(cmd, len, payload)) matches Ok(reply)
            ==> reply.secondary_header.seq == payload[0] && reply.unique_id
            == spec_u64_from_le_bytes(payload.subrange(1, 9)),
        spec_text_is(packet(cmd, len, payload)) matches Ok(reply) ==> reply.secondary_header.seq
            == payload[0] && reply.text == spec_text(payload.skip(1)),
{
    let input = packet(cmd, len, payload);
    if payload.len() >= 9 {
        assert(input.subrange(3, 11) =~= payload.subrange(1, 9));
    }
    if payload.len() >= 1 {
        assert(input.skip(3) =~= payload.skip(1));
    }
}

} // verus!
