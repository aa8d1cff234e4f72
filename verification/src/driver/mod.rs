//! The link to the kernel driver: what its messages say, which of them are for this
//! bridge, and the handshake that registers the chip.
//!
//! A message is held as its command, the version of the family and its attributes,
//! each with the value it carries. Whoever owns the sockets turns them into bytes and
//! back.

pub mod packet;

use crate::driver::packet::Attribute;
use crate::driver::packet::Command;
use crate::driver::packet::Exit;
use crate::driver::packet::GetGpioValue;
use crate::driver::packet::GpioConfig;
use crate::driver::packet::GpioDirection;
use crate::driver::packet::GpioValue;
use crate::driver::packet::Packet;
use crate::driver::packet::SetGpioConfig;
use crate::driver::packet::SetGpioDirection;
use crate::driver::packet::SetGpioValue;
use crate::driver::packet::Status;
use crate::driver::packet::TryFromPrimitiveError;
use crate::utils::decimal;
use crate::utils::spec_decimal;
use crate::utils::ProcessExit;
use crate::utils::Version;
use vstd::prelude::*;
use vstd::string::StringExecFns;

verus! {

/// The version of the protocol that this side speaks to the kernel driver.
pub open spec fn spec_version() -> Version {
    Version { major: 1, minor: 0, patch: 0 }
}

/// The version of the protocol that this side speaks to the kernel driver.
#[verifier::when_used_as_spec(spec_version)]
pub fn version() -> (r: Version)
    ensures
        r == spec_version(),
{
    Version { major: 1, minor: 0, patch: 0 }
}

/// The version of the generic-netlink family.
pub const GENL_API_VERSION: u8 = 1;

/// The name of the generic-netlink family.
pub const GENL_FAMILY_NAME: &'static str = "CPC_GPIO_GENL";

/// The name of the family's multicast group.
pub const GENL_MULTICAST_FAMILY_NAME: &'static str = "CPC_GPIO_GENL_M";

/// The identifier that addresses every bridge at once.
pub const GENL_MULTICAST_UID_ALL: u64 = 0;

/// The value that an attribute carries.
#[derive(PartialEq, Eq, Debug)]
pub enum Payload {
    U8(u8),
    U32(u32),
    U64(u64),
    Text(String),
    Texts(Vec<String>),
    /// Bytes that are not a value of the attribute's kind.
    Malformed,
}

/// The value that an attribute carries, with strings as sequences of characters.
pub enum Value {
    U8(u8),
    U32(u32),
    U64(u64),
    Text(Seq<char>),
    Texts(Seq<Seq<char>>),
    Malformed,
}

impl View for Payload {
    type V = Value;

    open spec fn view(&self) -> Value {
        match self {
            Payload::U8(value) => Value::U8(*value),
            Payload::U32(value) => Value::U32(*value),
            Payload::U64(value) => Value::U64(*value),
            Payload::Text(text) => Value::Text(text@),
            Payload::Texts(texts) => Value::Texts(texts@.map_values(|text: String| text@)),
            Payload::Malformed => Value::Malformed,
        }
    }
}

/// One attribute of a message.
#[derive(PartialEq, Eq, Debug)]
pub struct Attr {
    pub kind: Attribute,
    pub payload: Payload,
}

impl View for Attr {
    type V = (Attribute, Value);

    open spec fn view(&self) -> (Attribute, Value) {
        (self.kind, self.payload@)
    }
}

/// A message of the family.
#[derive(PartialEq, Eq, Debug)]
pub struct Message {
    pub cmd: Command,
    pub version: u8,
    pub attrs: Vec<Attr>,
}

/// A message of the family, with strings as sequences of characters.
pub struct Content {
    pub cmd: Command,
    pub version: u8,
    pub attrs: Seq<(Attribute, Value)>,
}

impl View for Message {
    type V = Content;

    open spec fn view(&self) -> Content {
        Content {
            cmd: self.cmd,
            version: self.version,
            attrs: self.attrs@.map_values(|attr: Attr| attr@),
        }
    }
}

/// Why an attribute could not be read.
#[derive(PartialEq, Eq, Structural, Copy, Clone, Debug)]
pub enum AttrError {
    /// The message has no such attribute.
    Missing(Attribute),
    /// The attribute does not carry a value of the kind that was asked for.
    Malformed(Attribute),
}

/// The value of the first attribute of the given kind.
pub open spec fn spec_find(attrs: Seq<(Attribute, Value)>, kind: Attribute) -> Option<Value>
    decreases attrs.len(),
{
    if attrs.len() == 0 {
        None
    } else if attrs[0].0 == kind {
        Some(attrs[0].1)
    } else {
        spec_find(attrs.skip(1), kind)
    }
}

/// The byte that the first attribute of the given kind carries.
pub open spec fn spec_u8(attrs: Seq<(Attribute, Value)>, kind: Attribute) -> Result<u8, AttrError> {
    match spec_find(attrs, kind) {
        None => Err(AttrError::Missing(kind)),
        Some(Value::U8(value)) => Ok(value),
        Some(_) => Err(AttrError::Malformed(kind)),
    }
}

/// The 32-bit number that the first attribute of the given kind carries.
pub open spec fn spec_u32(attrs: Seq<(Attribute, Value)>, kind: Attribute) -> Result<
    u32,
    AttrError,
> {
    match spec_find(attrs, kind) {
        None => Err(AttrError::Missing(kind)),
        Some(Value::U32(value)) => Ok(value),
        Some(_) => Err(AttrError::Malformed(kind)),
    }
}

/// The 64-bit number that the first attribute of the given kind carries.
pub open spec fn spec_u64(attrs: Seq<(Attribute, Value)>, kind: Attribute) -> Result<
    u64,
    AttrError,
> {
    match spec_find(attrs, kind) {
        None => Err(AttrError::Missing(kind)),
        Some(Value::U64(value)) => Ok(value),
        Some(_) => Err(AttrError::Malformed(kind)),
    }
}

/// The string that the first attribute of the given kind carries.
pub open spec fn spec_string(attrs: Seq<(Attribute, Value)>, kind: Attribute) -> Result<
    Seq<char>,
    AttrError,
> {
    match spec_find(attrs, kind) {
        None => Err(AttrError::Missing(kind)),
        Some(Value::Text(text)) => Ok(text),
        Some(_) => Err(AttrError::Malformed(kind)),
    }
}

impl Message {
    /// The value of the first attribute of the given kind.
    pub fn find(&self, kind: Attribute) -> (r: Option<&Payload>)
        ensures
            match r {
                Some(payload) => spec_find(self@.attrs, kind) == Some(payload@),
                None => spec_find(self@.attrs, kind) is None,
            },
    {
        let ghost attrs = self@.attrs;
        let mut i: usize = 0;
        assert(attrs.skip(0) =~= attrs);
        while i < self.attrs.len()
            invariant
                i <= self.attrs@.len(),
                attrs == self@.attrs,
                spec_find(attrs, kind) == spec_find(attrs.skip(i as int), kind),
            decreases self.attrs@.len() - i,
        {
            if self.attrs[i].kind == kind {
                assert(attrs.skip(i as int)[0] == self.attrs@[i as int]@);
                return Some(&self.attrs[i].payload);
            }
            assert(attrs.skip(i as int).skip(1) =~= attrs.skip(i + 1));
            i += 1;
        }
        None
    }

    /// The byte that the first attribute of the given kind carries.
    pub fn get_u8(&self, kind: Attribute) -> (r: Result<u8, AttrError>)
        ensures
            r == spec_u8(self@.attrs, kind),
    {
        match self.find(kind) {
            None => Err(AttrError::Missing(kind)),
            Some(Payload::U8(value)) => Ok(*value),
            Some(_) => Err(AttrError::Malformed(kind)),
        }
    }

    /// The 32-bit number that the first attribute of the given kind carries.
    pub fn get_u32(&self, kind: Attribute) -> (r: Result<u32, AttrError>)
        ensures
            r == spec_u32(self@.attrs, kind),
    {
        match self.find(kind) {
            None => Err(AttrError::Missing(kind)),
            Some(Payload::U32(value)) => Ok(*value),
            Some(_) => Err(AttrError::Malformed(kind)),
        }
    }

    /// The 64-bit number that the first attribute of the given kind carries.
    pub fn get_u64(&self, kind: Attribute) -> (r: Result<u64, AttrError>)
        ensures
            r == spec_u64(self@.attrs, kind),
    {
        match self.find(kind) {
            None => Err(AttrError::Missing(kind)),
            Some(Payload::U64(value)) => Ok(*value),
            Some(_) => Err(AttrError::Malformed(kind)),
        }
    }

    /// The string that the first attribute of the given kind carries.
    pub fn get_string(&self, kind: Attribute) -> (r: Result<String, AttrError>)
        ensures
            match r {
                Ok(text) => spec_string(self@.attrs, kind) == Ok::<_, AttrError>(text@),
                Err(e) => spec_string(self@.attrs, kind) == Err::<Seq<char>, _>(e),
            },
    {
        match self.find(kind) {
            None => Err(AttrError::Missing(kind)),
            Some(Payload::Text(text)) => Ok(text.clone()),
            Some(_) => Err(AttrError::Malformed(kind)),
        }
    }
}

/// Whether a message from the multicast group is for another bridge: it is, unless it
/// is addressed to every bridge or to this one.
pub open spec fn spec_filter(unique_id: u64, packet: Content) -> Result<bool, AttrError> {
    match spec_u64(packet.attrs, Attribute::UniqueId) {
        Err(e) => Err(e),
        Ok(destination) => Ok(
            destination != GENL_MULTICAST_UID_ALL && destination != unique_id,
        ),
    }
}

/// Tells whether a message from the multicast group is to be dropped unread.
pub fn filter_packet(unique_id: u64, packet: &Message) -> (r: Result<bool, AttrError>)
    ensures
        r == spec_filter(unique_id, packet@),
{
    let destination = packet.get_u64(Attribute::UniqueId)?;

    if destination == GENL_MULTICAST_UID_ALL {
        Ok(false)
    } else if destination == unique_id {
        Ok(false)
    } else {
        Ok(true)
    }
}

/// Why a message is no request.
#[derive(PartialEq, Eq, Structural, Copy, Clone, Debug)]
pub enum ParseError {
    /// An attribute that the command needs could not be read.
    Attribute(AttrError),
    /// The command is none that the bridge takes, or none that may be sent to every
    /// bridge.
    UnknownCommand(Command),
    /// A number is none of the codes of the enum it stands for.
    TryFromPrimitive(TryFromPrimitiveError),
}

/// A request of the kernel driver, with strings as sequences of characters.
pub enum Request {
    Exit(Seq<char>),
    GetGpioValue(GetGpioValue),
    SetGpioValue(SetGpioValue),
    SetGpioConfig(SetGpioConfig),
    SetGpioDirection(SetGpioDirection),
    Discard,
}

impl View for Packet {
    type V = Request;

    open spec fn view(&self) -> Request {
        match self {
            Packet::Exit(packet) => Request::Exit(packet.message@),
            Packet::GetGpioValue(packet) => Request::GetGpioValue(*packet),
            Packet::SetGpioValue(packet) => Request::SetGpioValue(*packet),
            Packet::SetGpioConfig(packet) => Request::SetGpioConfig(*packet),
            Packet::SetGpioDirection(packet) => Request::SetGpioDirection(*packet),
            Packet::Discard => Request::Discard,
        }
    }
}

/// The announcement that the driver is about to go.
pub open spec fn spec_exit(attrs: Seq<(Attribute, Value)>) -> Result<Request, ParseError> {
    match spec_string(attrs, Attribute::Message) {
        Err(e) => Err(ParseError::Attribute(e)),
        Ok(message) => Ok(Request::Exit(message)),
    }
}

/// The request that a message addressed to this bridge makes. Every request names its
/// pin; the three that set something name what they set, by a number that must be one
/// of its codes.
pub open spec fn spec_request(packet: Content) -> Result<Request, ParseError> {
    let attrs = packet.attrs;
    match packet.cmd {
        Command::Exit => spec_exit(attrs),
        Command::GetGpioValue => match spec_u32(attrs, Attribute::GpioPin) {
            Err(e) => Err(ParseError::Attribute(e)),
            Ok(pin) => Ok(Request::GetGpioValue(GetGpioValue { pin })),
        },
        Command::SetGpioValue => match spec_u32(attrs, Attribute::GpioPin) {
            Err(e) => Err(ParseError::Attribute(e)),
            Ok(pin) => match spec_u32(attrs, Attribute::GpioValue) {
                Err(e) => Err(ParseError::Attribute(e)),
                Ok(number) => match GpioValue::spec_try_from(number) {
                    None => Err(ParseError::TryFromPrimitive(TryFromPrimitiveError { number })),
                    Some(value) => Ok(Request::SetGpioValue(SetGpioValue { pin, value })),
                },
            },
        },
        Command::SetGpioConfig => match spec_u32(attrs, Attribute::GpioPin) {
            Err(e) => Err(ParseError::Attribute(e)),
            Ok(pin) => match spec_u32(attrs, Attribute::GpioConfig) {
                Err(e) => Err(ParseError::Attribute(e)),
                Ok(number) => match GpioConfig::spec_try_from(number) {
                    None => Err(ParseError::TryFromPrimitive(TryFromPrimitiveError { number })),
                    Some(config) => Ok(Request::SetGpioConfig(SetGpioConfig { pin, config })),
                },
            },
        },
        Command::SetGpioDirection => match spec_u32(attrs, Attribute::GpioPin) {
            Err(e) => Err(ParseError::Attribute(e)),
            Ok(pin) => match spec_u32(attrs, Attribute::GpioDirection) {
                Err(e) => Err(ParseError::Attribute(e)),
                Ok(number) => match GpioDirection::spec_try_from(number) {
                    None => Err(ParseError::TryFromPrimitive(TryFromPrimitiveError { number })),
                    Some(direction) => Ok(
                        Request::SetGpioDirection(SetGpioDirection { pin, direction }),
                    ),
                },
            },
        },
        _ => Err(ParseError::UnknownCommand(packet.cmd)),
    }
}

/// What a message from the multicast group asks of the bridge with the given
/// identifier. A message to every bridge may only announce that the driver goes; with
/// any other command it is no request. A message to this bridge is read by its
/// command. A message to another bridge is discarded.
pub open spec fn spec_parse(unique_id: u64, packet: Content) -> Result<Request, ParseError> {
    match spec_u64(packet.attrs, Attribute::UniqueId) {
        Err(e) => Err(ParseError::Attribute(e)),
        Ok(destination) => if destination == GENL_MULTICAST_UID_ALL {
            if packet.cmd == Command::Exit {
                spec_exit(packet.attrs)
            } else {
                Err(ParseError::UnknownCommand(packet.cmd))
            }
        } else if destination == unique_id {
            spec_request(packet)
        } else {
            Ok(Request::Discard)
        },
    }
}

/// Reads the announcement that the driver is about to go.
fn exit(packet: &Message) -> (r: Result<Packet, ParseError>)
    ensures
        match r {
            Ok(request) => spec_exit(packet@.attrs) == Ok::<_, ParseError>(request@),
            Err(e) => spec_exit(packet@.attrs) == Err::<Request, _>(e),
        },
{
    match packet.get_string(Attribute::Message) {
        Ok(message) => Ok(Packet::Exit(Exit { message })),
        Err(e) => Err(ParseError::Attribute(e)),
    }
}

/// Reads a 32-bit attribute that a request needs.
fn number(packet: &Message, kind: Attribute) -> (r: Result<u32, ParseError>)
    ensures
        match r {
            Ok(value) => spec_u32(packet@.attrs, kind) == Ok::<_, AttrError>(value),
            Err(e) => spec_u32(packet@.attrs, kind) matches Err(reason) && e
                == ParseError::Attribute(reason),
        },
{
    match packet.get_u32(kind) {
        Ok(value) => Ok(value),
        Err(e) => Err(ParseError::Attribute(e)),
    }
}

/// Reads the request of a message that is addressed to this bridge.
fn request(packet: &Message) -> (r: Result<Packet, ParseError>)
    ensures
        match r {
            Ok(request) => spec_request(packet@) == Ok::<_, ParseError>(request@),
            Err(e) => spec_request(packet@) == Err::<Request, _>(e),
        },
{
    match packet.cmd {
        Command::Exit => exit(packet),
        Command::GetGpioValue => {
            let pin = number(packet, Attribute::GpioPin)?;

            Ok(Packet::GetGpioValue(GetGpioValue { pin }))
        },
        Command::SetGpioValue => {
            let pin = number(packet, Attribute::GpioPin)?;

            let value = number(packet, Attribute::GpioValue)?;

            let value = match GpioValue::try_from(value) {
                Ok(value) => value,
                Err(e) => {
                    return Err(ParseError::TryFromPrimitive(e));
                },
            };

            Ok(Packet::SetGpioValue(SetGpioValue { pin, value }))
        },
        Command::SetGpioConfig => {
            let pin = number(packet, Attribute::GpioPin)?;

            let config = number(packet, Attribute::GpioConfig)?;

            let config = match GpioConfig::try_from(config) {
                Ok(config) => config,
                Err(e) => {
                    return Err(ParseError::TryFromPrimitive(e));
                },
            };

            Ok(Packet::SetGpioConfig(SetGpioConfig { pin, config }))
        },
        Command::SetGpioDirection => {
            let pin = number(packet, Attribute::GpioPin)?;

            let direction = number(packet, Attribute::GpioDirection)?;

            let direction = match GpioDirection::try_from(direction) {
                Ok(direction) => direction,
                Err(e) => {
                    return Err(ParseError::TryFromPrimitive(e));
                },
            };

            Ok(Packet::SetGpioDirection(SetGpioDirection { pin, direction }))
        },
        _ => Err(ParseError::UnknownCommand(packet.cmd)),
    }
}

/// The bridge's side of the link to the kernel driver: the identifier of its chip, by
/// which it tells its messages from those of other bridges.
#[derive(PartialEq, Eq, Structural, Copy, Clone, Debug)]
pub struct Handle {
    pub unique_id: u64,
}

impl Handle {
    pub fn new(unique_id: u64) -> (r: Self)
        ensures
            r.unique_id == unique_id,
    {
        Self { unique_id }
    }

    /// Reads what a message from the multicast group asks of this bridge.
    pub fn parse(&self, packet: &Message) -> (r: Result<Packet, ParseError>)
        ensures
            match r {
                Ok(request) => spec_parse(self.unique_id, packet@) == Ok::<_, ParseError>(
                    request@,
                ),
                Err(e) => spec_parse(self.unique_id, packet@) == Err::<Request, _>(e),
            },
    {
        let destination = match packet.get_u64(Attribute::UniqueId) {
            Ok(destination) => destination,
            Err(e) => {
                return Err(ParseError::Attribute(e));
            },
        };

        if destination == GENL_MULTICAST_UID_ALL {
            match packet.cmd {
                Command::Exit => exit(packet),
                _ => Err(ParseError::UnknownCommand(packet.cmd)),
            }
        } else if destination == self.unique_id {
            request(packet)
        } else {
            Ok(Packet::Discard)
        }
    }
}

/// A message to every bridge is taken if it announces that the driver goes, and is no
/// request with any other command.
pub proof fn lemma_broadcast(unique_id: u64, packet: Content)
    requires
        spec_u64(packet.attrs, Attribute::UniqueId) == Ok::<_, AttrError>(GENL_MULTICAST_UID_ALL),
    ensures
        packet.cmd == Command::Exit ==> spec_parse(unique_id, packet) == spec_exit(packet.attrs),
        packet.cmd != Command::Exit ==> spec_parse(unique_id, packet) == Err::<Request, _>(
            ParseError::UnknownCommand(packet.cmd),
        ),
{
}

/// A message to this bridge is read by its command.
pub proof fn lemma_addressed(unique_id: u64, packet: Content)
    requires
        unique_id != GENL_MULTICAST_UID_ALL,
        spec_u64(packet.attrs, Attribute::UniqueId) == Ok::<_, AttrError>(unique_id),
    ensures
        spec_parse(unique_id, packet) == spec_request(packet),
        packet.cmd == Command::GetGpioValue ==> (spec_parse(unique_id, packet) matches Ok(
            request,
        ) ==> request is GetGpioValue),
        packet.cmd == Command::SetGpioValue ==> (spec_parse(unique_id, packet) matches Ok(
            request,
        ) ==> request is SetGpioValue),
        packet.cmd == Command::SetGpioConfig ==> (spec_parse(unique_id, packet) matches Ok(
            request,
        ) ==> request is SetGpioConfig),
        packet.cmd == Command::SetGpioDirection ==> (spec_parse(unique_id, packet) matches Ok(
            request,
        ) ==> request is SetGpioDirection),
        packet.cmd == Command::Exit ==> (spec_parse(unique_id, packet) matches Ok(request)
            ==> request is Exit),
{
}

/// A message to another bridge is discarded, whatever it holds.
pub proof fn lemma_foreign(unique_id: u64, packet: Content, destination: u64)
    requires
        spec_u64(packet.attrs, Attribute::UniqueId) == Ok::<_, AttrError>(destination),
        destination != GENL_MULTICAST_UID_ALL,
        destination != unique_id,
    ensures
        spec_parse(unique_id, packet) == Ok::<_, ParseError>(Request::Discard),
        spec_filter(unique_id, packet) == Ok::<_, AttrError>(true),
{
}

/// A message that `filter_packet` drops is one that `parse` discards: both go by the
/// address alone, and a bridge whose identifier is not the one for every bridge drops
/// exactly what it would discard.
pub proof fn lemma_filtered_is_discarded(unique_id: u64, packet: Content)
    requires
        spec_filter(unique_id, packet) is Ok,
    ensures
        spec_filter(unique_id, packet) == Ok::<_, AttrError>(true) <==> spec_parse(
            unique_id,
            packet,
        ) == Ok::<_, ParseError>(Request::Discard),
{
    let destination = spec_u64(packet.attrs, Attribute::UniqueId).unwrap();
    if destination == GENL_MULTICAST_UID_ALL {
        if packet.cmd == Command::Exit {
            assert(spec_exit(packet.attrs) != Ok::<_, ParseError>(Request::Discard));
        }
    } else if destination == unique_id {
        assert(spec_request(packet) != Ok::<_, ParseError>(Request::Discard));
    }
}

/// The reply to a request: to whom it belongs, the pin as the request named it, the
/// status, and the level where one was read.
pub open spec fn spec_reply(
    cmd: Command,
    unique_id: u64,
    gpio_pin: u32,
    gpio_value: Option<u32>,
    status: Status,
) -> Content {
    let attrs = seq![
        (Attribute::UniqueId, Value::U64(unique_id)),
        (Attribute::GpioPin, Value::U32(gpio_pin)),
        (Attribute::Status, Value::U32(status.spec_code())),
    ];
    Content {
        cmd,
        version: GENL_API_VERSION,
        attrs: match gpio_value {
            Some(value) => attrs.push((Attribute::GpioValue, Value::U32(value))),
            None => attrs,
        },
    }
}

/// The request that takes the chip away from the driver, or asks for its version.
pub open spec fn spec_deinit(unique_id: u64) -> Content {
    Content {
        cmd: Command::Deinit,
        version: GENL_API_VERSION,
        attrs: seq![(Attribute::UniqueId, Value::U64(unique_id))],
    }
}

/// The request that registers the chip with the driver.
pub open spec fn spec_init(unique_id: u64, label: Seq<char>, gpio_names: Seq<Seq<char>>) -> Content {
    Content {
        cmd: Command::Init,
        version: GENL_API_VERSION,
        attrs: seq![
            (Attribute::UniqueId, Value::U64(unique_id)),
            (Attribute::GpioCount, Value::U32(gpio_names.len() as u32)),
            (Attribute::GpioNames, Value::Texts(gpio_names)),
            (Attribute::ChipLabel, Value::Text(label)),
        ],
    }
}

/// Why the handshake with the driver failed.
#[derive(PartialEq, Eq, Structural, Copy, Clone, Debug)]
pub enum HandshakeError {
    /// The driver speaks another version of the family; the version is the driver's.
    GenlVersion(u8),
    /// The driver speaks another major version of the protocol; the version is the
    /// driver's.
    Version(Version),
    /// An attribute of the reply could not be read.
    Attribute(AttrError),
    /// The driver answered with an error number of the operating system.
    Os(u32),
    /// The chip has the identifier that is kept for every bridge.
    UniqueId,
    /// The chip has no pin, or more than the message can count.
    GpioCount(usize),
}

/// What the reply to `deinit` says: the family must have this side's version, the
/// driver this side's major version, and the status must be 0.
pub open spec fn spec_check_deinit(reply: Content) -> Result<(), HandshakeError> {
    if reply.version != GENL_API_VERSION {
        Err(HandshakeError::GenlVersion(reply.version))
    } else {
        match spec_u8(reply.attrs, Attribute::VersionMajor) {
            Err(e) => Err(HandshakeError::Attribute(e)),
            Ok(major) => match spec_u8(reply.attrs, Attribute::VersionMinor) {
                Err(e) => Err(HandshakeError::Attribute(e)),
                Ok(minor) => match spec_u8(reply.attrs, Attribute::VersionPatch) {
                    Err(e) => Err(HandshakeError::Attribute(e)),
                    Ok(patch) => {
                        let driver_version = Version { major, minor, patch };
                        if !spec_version().compatible_with(driver_version) {
                            Err(HandshakeError::Version(driver_version))
                        } else {
                            spec_check_init(reply)
                        }
                    },
                },
            },
        }
    }
}

/// What the reply to `init` says: the status must be 0.
pub open spec fn spec_check_init(reply: Content) -> Result<(), HandshakeError> {
    match spec_u32(reply.attrs, Attribute::Status) {
        Err(e) => Err(HandshakeError::Attribute(e)),
        Ok(status) => if status != 0 {
            Err(HandshakeError::Os(status))
        } else {
            Ok(())
        },
    }
}

/// The three attributes that every reply starts with.
fn reply_attributes(unique_id: u64, gpio_pin: u32, status: Status) -> (r: Vec<Attr>)
    ensures
        r@.map_values(|attr: Attr| attr@) == seq![
            (Attribute::UniqueId, Value::U64(unique_id)),
            (Attribute::GpioPin, Value::U32(gpio_pin)),
            (Attribute::Status, Value::U32(status.spec_code())),
        ],
{
    let mut attributes: Vec<Attr> = Vec::new();

    attributes.push(Attr { kind: Attribute::UniqueId, payload: Payload::U64(unique_id) });

    attributes.push(Attr { kind: Attribute::GpioPin, payload: Payload::U32(gpio_pin) });

    attributes.push(Attr { kind: Attribute::Status, payload: Payload::U32(status.code()) });

    assert(attributes@.map_values(|attr: Attr| attr@) =~= seq![
        (Attribute::UniqueId, Value::U64(unique_id)),
        (Attribute::GpioPin, Value::U32(gpio_pin)),
        (Attribute::Status, Value::U32(status.spec_code())),
    ]);
    attributes
}

/// Copies the names of the pins.
fn copy_names(names: &Vec<String>) -> (r: Vec<String>)
    ensures
        r@.map_values(|text: String| text@) == names@.map_values(|text: String| text@),
{
    let mut copy: Vec<String> = Vec::new();
    let mut i: usize = 0;
    while i < names.len()
        invariant
            i <= names@.len(),
            copy@.len() == i,
            forall|j: int| 0 <= j < i ==> (#[trigger] copy@[j])@ == names@[j]@,
        decreases names@.len() - i,
    {
        copy.push(names[i].clone());
        i += 1;
    }
    assert(copy@.map_values(|text: String| text@) =~= names@.map_values(|text: String| text@));
    copy
}

impl Handle {
    /// The reply to a request for the level of a pin. Without a status there is no
    /// reply: the request is absorbed.
    pub fn get_gpio_value_reply(
        &self,
        gpio_pin: u32,
        gpio_value: Option<u32>,
        status: Option<Status>,
    ) -> (r: Option<Message>)
        ensures
            match status {
                Some(status) => r matches Some(reply) && reply@ == spec_reply(
                    Command::GetGpioValue,
                    self.unique_id,
                    gpio_pin,
                    gpio_value,
                    status,
                ),
                None => r is None,
            },
    {
        if let Some(status) = status {
            let mut attributes = reply_attributes(self.unique_id, gpio_pin, status);

            if let Some(gpio_value) = gpio_value {
                let ghost before = attributes@.map_values(|attr: Attr| attr@);
                attributes.push(
                    Attr { kind: Attribute::GpioValue, payload: Payload::U32(gpio_value) },
                );
                assert(attributes@.map_values(|attr: Attr| attr@) =~= before.push(
                    (Attribute::GpioValue, Value::U32(gpio_value)),
                ));
            }

            Some(
                Message { cmd: Command::GetGpioValue, version: GENL_API_VERSION, attrs: attributes },
            )
        } else {
            None
        }
    }

    /// The reply to a request that set the level of a pin. Without a status there is
    /// no reply: the request is absorbed.
    pub fn set_gpio_value_reply(&self, gpio_pin: u32, status: Option<Status>) -> (r: Option<
        Message,
    >)
        ensures
            match status {
                Some(status) => r matches Some(reply) && reply@ == spec_reply(
                    Command::SetGpioValue,
                    self.unique_id,
                    gpio_pin,
                    None,
                    status,
                ),
                None => r is None,
            },
    {
        if let Some(status) = status {
            let attributes = reply_attributes(self.unique_id, gpio_pin, status);

            Some(
                Message { cmd: Command::SetGpioValue, version: GENL_API_VERSION, attrs: attributes },
            )
        } else {
            None
        }
    }

    /// The reply to a request that set the configuration of a pin. Without a status
    /// there is no reply: the request is absorbed.
    pub fn set_gpio_config_reply(&self, gpio_pin: u32, status: Option<Status>) -> (r: Option<
        Message,
    >)
        ensures
            match status {
                Some(status) => r matches Some(reply) && reply@ == spec_reply(
                    Command::SetGpioConfig,
                    self.unique_id,
                    gpio_pin,
                    None,
                    status,
                ),
                None => r is None,
            },
    {
        if let Some(status) = status {
            let attributes = reply_attributes(self.unique_id, gpio_pin, status);

            Some(
                Message {
                    cmd: Command::SetGpioConfig,
                    version: GENL_API_VERSION,
                    attrs: attributes,
                },
            )
        } else {
            None
        }
    }

    /// The reply to a request that set the direction of a pin. Without a status there
    /// is no reply: the request is absorbed.
    pub fn set_gpio_direction_reply(&self, gpio_pin: u32, status: Option<Status>) -> (r: Option<
        Message,
    >)
        ensures
            match status {
                Some(status) => r matches Some(reply) && reply@ == spec_reply(
                    Command::SetGpioDirection,
                    self.unique_id,
                    gpio_pin,
                    None,
                    status,
                ),
                None => r is None,
            },
    {
        if let Some(status) = status {
            let attributes = reply_attributes(self.unique_id, gpio_pin, status);

            Some(
                Message {
                    cmd: Command::SetGpioDirection,
                    version: GENL_API_VERSION,
                    attrs: attributes,
                },
            )
        } else {
            None
        }
    }

    /// The request that takes the chip away from the driver. Its reply also tells the
    /// driver's version.
    pub fn deinit(&self) -> (r: Message)
        ensures
            r@ == spec_deinit(self.unique_id),
    {
        let mut attributes: Vec<Attr> = Vec::new();

        attributes.push(
            Attr { kind: Attribute::UniqueId, payload: Payload::U64(self.unique_id) },
        );

        assert(attributes@.map_values(|attr: Attr| attr@) =~= spec_deinit(self.unique_id).attrs);
        Message { cmd: Command::Deinit, version: GENL_API_VERSION, attrs: attributes }
    }

    /// Holds the reply to `deinit` against what this side speaks.
    pub fn check_deinit(reply: &Message) -> (r: Result<(), HandshakeError>)
        ensures
            r == spec_check_deinit(reply@),
    {
        let genl_version = reply.version;

        if GENL_API_VERSION != genl_version {
            return Err(HandshakeError::GenlVersion(genl_version));
        }

        let major = match reply.get_u8(Attribute::VersionMajor) {
            Ok(major) => major,
            Err(e) => {
                return Err(HandshakeError::Attribute(e));
            },
        };
        let minor = match reply.get_u8(Attribute::VersionMinor) {
            Ok(minor) => minor,
            Err(e) => {
                return Err(HandshakeError::Attribute(e));
            },
        };
        let patch = match reply.get_u8(Attribute::VersionPatch) {
            Ok(patch) => patch,
            Err(e) => {
                return Err(HandshakeError::Attribute(e));
            },
        };
        let driver_version = Version { major, minor, patch };

        if !version().is_compatible_with(&driver_version) {
            return Err(HandshakeError::Version(driver_version));
        }

        Self::check_init(reply)
    }

    /// The request that registers the chip with the driver. A chip with the identifier
    /// for every bridge is refused, and so is one without pins.
    pub fn init(&self, label: &str, gpio_names: &Vec<String>) -> (r: Result<
        Message,
        HandshakeError,
    >)
        ensures
            match r {
                Ok(request) => {
                    &&& self.unique_id != GENL_MULTICAST_UID_ALL
                    &&& 0 < gpio_names@.len() <= u32::MAX
                    &&& request@ == spec_init(
                        self.unique_id,
                        label@,
                        gpio_names@.map_values(|text: String| text@),
                    )
                },
                Err(e) => if self.unique_id == GENL_MULTICAST_UID_ALL {
                    e == HandshakeError::UniqueId
                } else {
                    !(0 < gpio_names@.len() <= u32::MAX) && e == HandshakeError::GpioCount(
                        gpio_names@.len() as usize,
                    )
                },
            },
    {
        if self.unique_id == GENL_MULTICAST_UID_ALL {
            return Err(HandshakeError::UniqueId);
        }

        if gpio_names.len() == 0 || gpio_names.len() > u32::MAX as usize {
            return Err(HandshakeError::GpioCount(gpio_names.len()));
        }

        let mut attributes: Vec<Attr> = Vec::new();

        attributes.push(
            Attr { kind: Attribute::UniqueId, payload: Payload::U64(self.unique_id) },
        );

        attributes.push(
            Attr { kind: Attribute::GpioCount, payload: Payload::U32(gpio_names.len() as u32) },
        );

        attributes.push(
            Attr { kind: Attribute::GpioNames, payload: Payload::Texts(copy_names(gpio_names)) },
        );

        attributes.push(
            Attr { kind: Attribute::ChipLabel, payload: Payload::Text(String::from_str(label)) },
        );

        assert(attributes@.map_values(|attr: Attr| attr@) =~= spec_init(
            self.unique_id,
            label@,
            gpio_names@.map_values(|text: String| text@),
        ).attrs);
        Ok(Message { cmd: Command::Init, version: GENL_API_VERSION, attrs: attributes })
    }

    /// Holds the reply to `init` against success.
    pub fn check_init(reply: &Message) -> (r: Result<(), HandshakeError>)
        ensures
            r == spec_check_init(reply@),
    {
        let status = match reply.get_u32(Attribute::Status) {
            Ok(status) => status,
            Err(e) => {
                return Err(HandshakeError::Attribute(e));
            },
        };

        if status != 0 {
            return Err(HandshakeError::Os(status));
        }

        Ok(())
    }
}

/// Which reply the handshake waits for.
#[derive(PartialEq, Eq, Structural, Copy, Clone, Debug)]
pub enum Phase {
    /// The reply to `deinit`.
    Deinit,
    /// The reply to `init`.
    Init,
}

/// What follows a reply of the handshake.
#[derive(PartialEq, Eq, Debug)]
pub enum Next {
    /// The chip is to be registered: this request is sent, and its reply awaited.
    Init(Message),
    /// The chip is registered.
    Ready,
    /// The bridge was only to take the chip away, and is done.
    Exit(ProcessExit),
}

/// What is logged when the bridge was only to take the chip away.
pub open spec fn spec_deinitialized(unique_id: u64) -> Seq<char> {
    "Deinitialized Kernel Driver (UID: "@ + spec_decimal(unique_id) + ")"@
}

impl Handle {
    /// Takes a reply of the handshake and says what follows. After the reply to
    /// `deinit` a bridge that was only to take the chip away ends cleanly and sends
    /// nothing more; any other goes on to register the chip. After the reply to `init`
    /// the chip is registered.
    pub fn handshake(
        &self,
        phase: Phase,
        deinit_and_exit: bool,
        chip_label: &str,
        names: &Vec<String>,
        reply: &Message,
    ) -> (r: Result<Next, HandshakeError>)
        ensures
            match phase {
                Phase::Deinit => match spec_check_deinit(reply@) {
                    Err(e) => r == Err::<Next, _>(e),
                    Ok(_) => if deinit_and_exit {
                        r matches Ok(Next::Exit(ProcessExit::Context(context))) && context@
                            == spec_deinitialized(self.unique_id)
                    } else if self.unique_id == GENL_MULTICAST_UID_ALL {
                        r == Err::<Next, _>(HandshakeError::UniqueId)
                    } else if !(0 < names@.len() <= u32::MAX) {
                        r == Err::<Next, _>(HandshakeError::GpioCount(names@.len() as usize))
                    } else {
                        r matches Ok(Next::Init(request)) && request@ == spec_init(
                            self.unique_id,
                            chip_label@,
                            names@.map_values(|text: String| text@),
                        )
                    },
                },
                Phase::Init => match spec_check_init(reply@) {
                    Err(e) => r == Err::<Next, _>(e),
                    Ok(_) => r matches Ok(Next::Ready),
                },
            },
    {
        match phase {
            Phase::Deinit => {
                Self::check_deinit(reply)?;

                if deinit_and_exit {
                    let mut context = String::from_str("Deinitialized Kernel Driver (UID: ");
                    context.append(decimal(self.unique_id).as_str());
                    context.append(")");
                    return Ok(Next::Exit(ProcessExit::Context(context)));
                }

                let request = self.init(chip_label, names)?;

                Ok(Next::Init(request))
            },
            Phase::Init => {
                Self::check_init(reply)?;

                Ok(Next::Ready)
            },
        }
    }
}

} // verus!
