//! The requests of the host: how each is built, what it looks like on the wire, and
//! how the secondary reads it back.

use crate::gpio::packet::byte;
use crate::gpio::packet::next_seq;
use crate::gpio::packet::DecodeError;
use crate::gpio::packet::GpioConfig;
use crate::gpio::packet::GpioDirection;
use crate::gpio::packet::GpioValue;
use crate::gpio::packet::Header;
use crate::gpio::packet::HostCmd;
use crate::gpio::packet::HostHeader;
use crate::gpio::packet::HEADER_SIZE;
use vstd::prelude::*;

verus! {

/// A value that has a form on the wire.
pub trait Serializer {
    /// The bytes that stand for the value.
    spec fn wire(&self) -> Seq<u8>;

    /// Writes the value out.
    fn serialize(&self) -> (r: Vec<u8>)
        ensures
            r@ == self.wire(),
    ;
}

/// Asks for the version of the secondary's protocol. The only request without a
/// sequence number.
#[derive(PartialEq, Eq, Copy, Clone, Debug)]
pub struct GetVersion {
    pub header: Header<HostCmd>,
}

impl GetVersion {
    /// The header is the one that `new` writes.
    pub open spec fn wf(self) -> bool {
        self.header == (Header { cmd: HostCmd::GetVersion, len: 0 })
    }

    pub fn new() -> (r: Self)
        ensures
            r.wf(),
    {
        Self { header: Header::new(HostCmd::GetVersion, 0) }
    }
}

impl Serializer for GetVersion {
    open spec fn wire(&self) -> Seq<u8> {
        seq![self.header.cmd.spec_code(), self.header.len]
    }

    fn serialize(&self) -> (r: Vec<u8>) {
        let mut bytes = Vec::new();
        bytes.push(self.header.cmd.code());
        bytes.push(self.header.len);
        assert(bytes@ == self.wire());
        bytes
    }
}

/// Asks for the number of pins.
#[derive(PartialEq, Eq, Copy, Clone, Debug)]
pub struct GetGpioCount {
    pub header: Header<HostCmd>,
    pub host_header: HostHeader,
}

impl GetGpioCount {
    /// The header is the one that `new` writes.
    pub open spec fn wf(self) -> bool {
        self.header == (Header { cmd: HostCmd::GetGpioCount, len: 1 })
    }

    pub fn new(seq: &mut u8) -> (r: Self)
        ensures
            *final(seq) == next_seq(*old(seq)),
            r.wf(),
            r.host_header.seq == next_seq(*old(seq)),
    {
        let len = Header::<HostCmd>::len(HEADER_SIZE + 1);
        Self { header: Header::new(HostCmd::GetGpioCount, len), host_header: HostHeader::new(seq) }
    }
}

impl Serializer for GetGpioCount {
    open spec fn wire(&self) -> Seq<u8> {
        seq![self.header.cmd.spec_code(), self.header.len, self.host_header.seq]
    }

    fn serialize(&self) -> (r: Vec<u8>) {
        let mut bytes = Vec::new();
        bytes.push(self.header.cmd.code());
        bytes.push(self.header.len);
        bytes.push(self.host_header.seq);
        assert(bytes@ == self.wire());
        bytes
    }
}

/// Asks for the name of a pin.
#[derive(PartialEq, Eq, Copy, Clone, Debug)]
pub struct GetGpioName {
    pub header: Header<HostCmd>,
    pub host_header: HostHeader,
    pub pin: u8,
}

impl GetGpioName {
    /// The header is the one that `new` writes.
    pub open spec fn wf(self) -> bool {
        self.header == (Header { cmd: HostCmd::GetGpioName, len: 2 })
    }

    pub fn new(seq: &mut u8, pin: u8) -> (r: Self)
        ensures
            *final(seq) == next_seq(*old(seq)),
            r.wf(),
            r.host_header.seq == next_seq(*old(seq)),
            r.pin == pin,
    {
        let len = Header::<HostCmd>::len(HEADER_SIZE + 2);
        Self {
            header: Header::new(HostCmd::GetGpioName, len),
            host_header: HostHeader::new(seq),
            pin,
        }
    }
}

impl Serializer for GetGpioName {
    open spec fn wire(&self) -> Seq<u8> {
        seq![self.header.cmd.spec_code(), self.header.len, self.host_header.seq, self.pin]
    }

    fn serialize(&self) -> (r: Vec<u8>) {
        let mut bytes = Vec::new();
        bytes.push(self.header.cmd.code());
        bytes.push(self.header.len);
        bytes.push(self.host_header.seq);
        bytes.push(self.pin);
        assert(bytes@ == self.wire());
        bytes
    }
}

/// Asks for the level of a pin.
#[derive(PartialEq, Eq, Copy, Clone, Debug)]
pub struct GetGpioValue {
    pub header: Header<HostCmd>,
    pub host_header: HostHeader,
    pub pin: u8,
}

impl GetGpioValue {
    /// The header is the one that `new` writes.
    pub open spec fn wf(self) -> bool {
        self.header == (Header { cmd: HostCmd::GetGpioValue, len: 2 })
    }

    pub fn new(seq: &mut u8, pin: u8) -> (r: Self)
        ensures
            *final(seq) == next_seq(*old(seq)),
            r.wf(),
            r.host_header.seq == next_seq(*old(seq)),
            r.pin == pin,
    {
        let len = Header::<HostCmd>::len(HEADER_SIZE + 2);
        Self {
            header: Header::new(HostCmd::GetGpioValue, len),
            host_header: HostHeader::new(seq),
            pin,
        }
    }
}

impl Serializer for GetGpioValue {
    open spec fn wire(&self) -> Seq<u8> {
        seq![self.header.cmd.spec_code(), self.header.len, self.host_header.seq, self.pin]
    }

    fn serialize(&self) -> (r: Vec<u8>) {
        let mut bytes = Vec::new();
        bytes.push(self.header.cmd.code());
        bytes.push(self.header.len);
        bytes.push(self.host_header.seq);
        bytes.push(self.pin);
        assert(bytes@ == self.wire());
        bytes
    }
}

/// Sets the level of a pin.
#[derive(PartialEq, Eq, Copy, Clone, Debug)]
pub struct SetGpioValue {
    pub header: Header<HostCmd>,
    pub host_header: HostHeader,
    pub pin: u8,
    pub value: GpioValue,
}

impl SetGpioValue {
    /// The header is the one that `new` writes.
    pub open spec fn wf(self) -> bool {
        self.header == (Header { cmd: HostCmd::SetGpioValue, len: 3 })
    }

    pub fn new(seq: &mut u8, pin: u8, value: GpioValue) -> (r: Self)
        ensures
            *final(seq) == next_seq(*old(seq)),
            r.wf(),
            r.host_header.seq == next_seq(*old(seq)),
            r.pin == pin,
            r.value == value,
    {
        let len = Header::<HostCmd>::len(HEADER_SIZE + 3);
        Self {
            header: Header::new(HostCmd::SetGpioValue, len),
            host_header: HostHeader::new(seq),
            pin,
            value,
        }
    }
}

impl Serializer for SetGpioValue {
    open spec fn wire(&self) -> Seq<u8> {
        seq![
            self.header.cmd.spec_code(),
            self.header.len,
            self.host_header.seq,
            self.pin,
            self.value.spec_code(),
        ]
    }

    fn serialize(&self) -> (r: Vec<u8>) {
        let mut bytes = Vec::new();
        bytes.push(self.header.cmd.code());
        bytes.push(self.header.len);
        bytes.push(self.host_header.seq);
        bytes.push(self.pin);
        bytes.push(self.value.code());
        assert(bytes@ == self.wire());
        bytes
    }
}

/// Sets the electrical configuration of a pin.
#[derive(PartialEq, Eq, Copy, Clone, Debug)]
pub struct SetGpioConfig {
    pub header: Header<HostCmd>,
    pub host_header: HostHeader,
    pub pin: u8,
    pub config: GpioConfig,
}

impl SetGpioConfig {
    /// The header is the one that `new` writes.
    pub open spec fn wf(self) -> bool {
        self.header == (Header { cmd: HostCmd::SetGpioConfig, len: 3 })
    }

    pub fn new(seq: &mut u8, pin: u8, config: GpioConfig) -> (r: Self)
        ensures
            *final(seq) == next_seq(*old(seq)),
            r.wf(),
            r.host_header.seq == next_seq(*old(seq)),
            r.pin == pin,
            r.config == config,
    {
        let len = Header::<HostCmd>::len(HEADER_SIZE + 3);
        Self {
            header: Header::new(HostCmd::SetGpioConfig, len),
            host_header: HostHeader::new(seq),
            pin,
            config,
        }
    }
}

impl Serializer for SetGpioConfig {
    open spec fn wire(&self) -> Seq<u8> {
        seq![
            self.header.cmd.spec_code(),
            self.header.len,
            self.host_header.seq,
            self.pin,
            self.config.spec_code(),
        ]
    }

    fn serialize(&self) -> (r: Vec<u8>) {
        let mut bytes = Vec::new();
        bytes.push(self.header.cmd.code());
        bytes.push(self.header.len);
        bytes.push(self.host_header.seq);
        bytes.push(self.pin);
        bytes.push(self.config.code());
        assert(bytes@ == self.wire());
        bytes
    }
}

/// Sets the direction of a pin.
#[derive(PartialEq, Eq, Copy, Clone, Debug)]
pub struct SetGpioDirection {
    pub header: Header<HostCmd>,
    pub host_header: HostHeader,
    pub pin: u8,
    pub direction: GpioDirection,
}

impl SetGpioDirection {
    /// The header is the one that `new` writes.
    pub open spec fn wf(self) -> bool {
        self.header == (Header { cmd: HostCmd::SetGpioDirection, len: 3 })
    }

    pub fn new(seq: &mut u8, pin: u8, direction: GpioDirection) -> (r: Self)
        ensures
            *final(seq) == next_seq(*old(seq)),
            r.wf(),
            r.host_header.seq == next_seq(*old(seq)),
            r.pin == pin,
            r.direction == direction,
    {
        let len = Header::<HostCmd>::len(HEADER_SIZE + 3);
        Self {
            header: Header::new(HostCmd::SetGpioDirection, len),
            host_header: HostHeader::new(seq),
            pin,
            direction,
        }
    }
}

impl Serializer for SetGpioDirection {
    open spec fn wire(&self) -> Seq<u8> {
        seq![
            self.header.cmd.spec_code(),
            self.header.len,
            self.host_header.seq,
            self.pin,
            self.direction.spec_code(),
        ]
    }

    fn serialize(&self) -> (r: Vec<u8>) {
        let mut bytes = Vec::new();
        bytes.push(self.header.cmd.code());
        bytes.push(self.header.len);
        bytes.push(self.host_header.seq);
        bytes.push(self.pin);
        bytes.push(self.direction.code());
        assert(bytes@ == self.wire());
        bytes
    }
}

/// Asks for the identifier of the chip.
#[derive(PartialEq, Eq, Copy, Clone, Debug)]
pub struct GetUniqueId {
    pub header: Header<HostCmd>,
    pub host_header: HostHeader,
}

impl GetUniqueId {
    /// The header is the one that `new` writes.
    pub open spec fn wf(self) -> bool {
        self.header == (Header { cmd: HostCmd::GetUniqueId, len: 1 })
    }

    pub fn new(seq: &mut u8) -> (r: Self)
        ensures
            *final(seq) == next_seq(*old(seq)),
            r.wf(),
            r.host_header.seq == next_seq(*old(seq)),
    {
        let len = Header::<HostCmd>::len(HEADER_SIZE + 1);
        Self { header: Header::new(HostCmd::GetUniqueId, len), host_header: HostHeader::new(seq) }
    }
}

impl Serializer for GetUniqueId {
    open spec fn wire(&self) -> Seq<u8> {
        seq![self.header.cmd.spec_code(), self.header.len, self.host_header.seq]
    }

    fn serialize(&self) -> (r: Vec<u8>) {
        let mut bytes = Vec::new();
        bytes.push(self.header.cmd.code());
        bytes.push(self.header.len);
        bytes.push(self.host_header.seq);
        assert(bytes@ == self.wire());
        bytes
    }
}

/// Asks for the label of the chip.
#[derive(PartialEq, Eq, Copy, Clone, Debug)]
pub struct GetChipLabel {
    pub header: Header<HostCmd>,
    pub host_header: HostHeader,
}

impl GetChipLabel {
    /// The header is the one that `new` writes.
    pub open spec fn wf(self) -> bool {
        self.header == (Header { cmd: HostCmd::GetChipLabel, len: 1 })
    }

    pub fn new(seq: &mut u8) -> (r: Self)
        ensures
            *final(seq) == next_seq(*old(seq)),
            r.wf(),
            r.host_header.seq == next_seq(*old(seq)),
    {
        let len = Header::<HostCmd>::len(HEADER_SIZE + 1);
        Self { header: Header::new(HostCmd::GetChipLabel, len), host_header: HostHeader::new(seq) }
    }
}

impl Serializer for GetChipLabel {
    open spec fn wire(&self) -> Seq<u8> {
        seq![self.header.cmd.spec_code(), self.header.len, self.host_header.seq]
    }

    fn serialize(&self) -> (r: Vec<u8>) {
        let mut bytes = Vec::new();
        bytes.push(self.header.cmd.code());
        bytes.push(self.header.len);
        bytes.push(self.host_header.seq);
        assert(bytes@ == self.wire());
        bytes
    }
}

/// Any request of the host.
#[derive(PartialEq, Eq, Copy, Clone, Debug)]
pub enum HostPacket {
    GetVersion(GetVersion),
    GetUniqueId(GetUniqueId),
    GetChipLabel(GetChipLabel),
    GetGpioCount(GetGpioCount),
    GetGpioName(GetGpioName),
    GetGpioValue(GetGpioValue),
    SetGpioValue(SetGpioValue),
    SetGpioConfig(SetGpioConfig),
    SetGpioDirection(SetGpioDirection),
}

impl HostPacket {
    /// The header of the request is the one that its `new` writes.
    pub open spec fn wf(self) -> bool {
        match self {
            HostPacket::GetVersion(packet) => packet.wf(),
            HostPacket::GetUniqueId(packet) => packet.wf(),
            HostPacket::GetChipLabel(packet) => packet.wf(),
            HostPacket::GetGpioCount(packet) => packet.wf(),
            HostPacket::GetGpioName(packet) => packet.wf(),
            HostPacket::GetGpioValue(packet) => packet.wf(),
            HostPacket::SetGpioValue(packet) => packet.wf(),
            HostPacket::SetGpioConfig(packet) => packet.wf(),
            HostPacket::SetGpioDirection(packet) => packet.wf(),
        }
    }

    /// The sequence number of the request, if it has one.
    pub open spec fn seq(self) -> Option<u8> {
        match self {
            HostPacket::GetVersion(_) => None,
            HostPacket::GetUniqueId(packet) => Some(packet.host_header.seq),
            HostPacket::GetChipLabel(packet) => Some(packet.host_header.seq),
            HostPacket::GetGpioCount(packet) => Some(packet.host_header.seq),
            HostPacket::GetGpioName(packet) => Some(packet.host_header.seq),
            HostPacket::GetGpioValue(packet) => Some(packet.host_header.seq),
            HostPacket::SetGpioValue(packet) => Some(packet.host_header.seq),
            HostPacket::SetGpioConfig(packet) => Some(packet.host_header.seq),
            HostPacket::SetGpioDirection(packet) => Some(packet.host_header.seq),
        }
    }

    /// The request that a packet holds. The length byte must be the number of bytes
    /// that follow the header, the command one that the host sends, and every field of
    /// the command must be there; bytes after the last field are passed over.
    pub open spec fn spec_deserialize(input: Seq<u8>) -> Result<HostPacket, DecodeError> {
        if input.len() < 2 {
            Err(DecodeError::Eof)
        } else if input.len() - HEADER_SIZE != input[1] {
            Err(DecodeError::Length)
        } else {
            let header = Header { cmd: HostCmd::spec_from_code(input[0]), len: input[1] };
            match header.cmd {
                HostCmd::UnknownCmd => Err(DecodeError::TryFromPrimitive(input[0])),
                HostCmd::GetVersion => Ok(HostPacket::GetVersion(GetVersion { header })),
                _ => if input.len() < 3 {
                    Err(DecodeError::Eof)
                } else {
                    let host_header = HostHeader { seq: input[2] };
                    match header.cmd {
                        HostCmd::GetUniqueId => Ok(
                            HostPacket::GetUniqueId(GetUniqueId { header, host_header }),
                        ),
                        HostCmd::GetChipLabel => Ok(
                            HostPacket::GetChipLabel(GetChipLabel { header, host_header }),
                        ),
                        HostCmd::GetGpioCount => Ok(
                            HostPacket::GetGpioCount(GetGpioCount { header, host_header }),
                        ),
                        _ => if input.len() < 4 {
                            Err(DecodeError::Eof)
                        } else {
                            let pin = input[3];
                            match header.cmd {
                                HostCmd::GetGpioName => Ok(
                                    HostPacket::GetGpioName(
                                        GetGpioName { header, host_header, pin },
                                    ),
                                ),
                                HostCmd::GetGpioValue => Ok(
                                    HostPacket::GetGpioValue(
                                        GetGpioValue { header, host_header, pin },
                                    ),
                                ),
                                _ => if input.len() < 5 {
                                    Err(DecodeError::Eof)
                                } else {
                                    Self::spec_setter(header, host_header, pin, input[4])
                                },
                            }
                        },
                    }
                },
            }
        }
    }

    /// The request that sets something on a pin, from its headers, its pin and the byte
    /// of what it sets.
    pub open spec fn spec_setter(
        header: Header<HostCmd>,
        host_header: HostHeader,
        pin: u8,
        number: u8,
    ) -> Result<HostPacket, DecodeError> {
        match header.cmd {
            HostCmd::SetGpioValue => match GpioValue::spec_try_from(number) {
                Some(value) => Ok(
                    HostPacket::SetGpioValue(SetGpioValue { header, host_header, pin, value }),
                ),
                None => Err(DecodeError::TryFromPrimitive(number)),
            },
            HostCmd::SetGpioConfig => match GpioConfig::spec_try_from(number) {
                Some(config) => Ok(
                    HostPacket::SetGpioConfig(SetGpioConfig { header, host_header, pin, config }),
                ),
                None => Err(DecodeError::TryFromPrimitive(number)),
            },
            _ => match GpioDirection::spec_try_from(number) {
                Some(direction) => Ok(
                    HostPacket::SetGpioDirection(
                        SetGpioDirection { header, host_header, pin, direction },
                    ),
                ),
                None => Err(DecodeError::TryFromPrimitive(number)),
            },
        }
    }

    /// Reads a request.
    pub fn deserialize(input: &[u8]) -> (r: Result<HostPacket, DecodeError>)
        ensures
            r == Self::spec_deserialize(input@),
    {
        let (remaining, cmd) = byte(input)?;
        let (remaining, len) = byte(remaining)?;
        if remaining.len() != len as usize {
            return Err(DecodeError::Length);
        }
        let number = cmd;
        let cmd = match HostCmd::try_from(cmd) {
            Ok(cmd) => cmd,
            Err(_) => HostCmd::UnknownCmd,
        };
        let header = Header::new(cmd, len);
        match cmd {
            HostCmd::UnknownCmd => {
                return Err(DecodeError::TryFromPrimitive(number));
            },
            HostCmd::GetVersion => {
                return Ok(HostPacket::GetVersion(GetVersion { header }));
            },
            _ => {},
        }
        let (remaining, seq) = byte(remaining)?;
        let host_header = HostHeader { seq };
        match cmd {
            HostCmd::GetUniqueId => {
                return Ok(HostPacket::GetUniqueId(GetUniqueId { header, host_header }));
            },
            HostCmd::GetChipLabel => {
                return Ok(HostPacket::GetChipLabel(GetChipLabel { header, host_header }));
            },
            HostCmd::GetGpioCount => {
                return Ok(HostPacket::GetGpioCount(GetGpioCount { header, host_header }));
            },
            _ => {},
        }
        let (remaining, pin) = byte(remaining)?;
        match cmd {
            HostCmd::GetGpioName => {
                return Ok(HostPacket::GetGpioName(GetGpioName { header, host_header, pin }));
            },
            HostCmd::GetGpioValue => {
                return Ok(HostPacket::GetGpioValue(GetGpioValue { header, host_header, pin }));
            },
            _ => {},
        }
        let (_, number) = byte(remaining)?;
        match cmd {
            HostCmd::SetGpioValue => match GpioValue::try_from(number) {
                Ok(value) => Ok(
                    HostPacket::SetGpioValue(SetGpioValue { header, host_header, pin, value }),
                ),
                Err(e) => Err(DecodeError::TryFromPrimitive(e.number)),
            },
            HostCmd::SetGpioConfig => match GpioConfig::try_from(number) {
                Ok(config) => Ok(
                    HostPacket::SetGpioConfig(SetGpioConfig { header, host_header, pin, config }),
                ),
                Err(e) => Err(DecodeError::TryFromPrimitive(e.number)),
            },
            _ => match GpioDirection::try_from(number) {
                Ok(direction) => Ok(
                    HostPacket::SetGpioDirection(
                        SetGpioDirection { header, host_header, pin, direction },
                    ),
                ),
                Err(e) => Err(DecodeError::TryFromPrimitive(e.number)),
            },
        }
    }
}

impl Serializer for HostPacket {
    open spec fn wire(&self) -> Seq<u8> {
        match self {
            HostPacket::GetVersion(packet) => packet.wire(),
            HostPacket::GetUniqueId(packet) => packet.wire(),
            HostPacket::GetChipLabel(packet) => packet.wire(),
            HostPacket::GetGpioCount(packet) => packet.wire(),
            HostPacket::GetGpioName(packet) => packet.wire(),
            HostPacket::GetGpioValue(packet) => packet.wire(),
            HostPacket::SetGpioValue(packet) => packet.wire(),
            HostPacket::SetGpioConfig(packet) => packet.wire(),
            HostPacket::SetGpioDirection(packet) => packet.wire(),
        }
    }

    fn serialize(&self) -> (r: Vec<u8>) {
        match self {
            HostPacket::GetVersion(packet) => packet.serialize(),
            HostPacket::GetUniqueId(packet) => packet.serialize(),
            HostPacket::GetChipLabel(packet) => packet.serialize(),
            HostPacket::GetGpioCount(packet) => packet.serialize(),
            HostPacket::GetGpioName(packet) => packet.serialize(),
            HostPacket::GetGpioValue(packet) => packet.serialize(),
            HostPacket::SetGpioValue(packet) => packet.serialize(),
            HostPacket::SetGpioConfig(packet) => packet.serialize(),
            HostPacket::SetGpioDirection(packet) => packet.serialize(),
        }
    }
}

/// Reading what was written gives the request back: every request whose header is the
/// one its `new` writes is read back, from the bytes that stand for it, as itself.
pub proof fn lemma_host_packet_round_trip(packet: HostPacket)
    requires
        packet.wf(),
    ensures
        HostPacket::spec_deserialize(packet.wire()) == Ok::<_, DecodeError>(packet),
{
}

/// The bytes of a request are a packet: as many bytes follow the header as the length
/// byte says.
pub proof fn lemma_host_packet_framed(packet: HostPacket)
    requires
        packet.wf(),
    ensures
        packet.wire().len() >= HEADER_SIZE,
        packet.wire().len() - HEADER_SIZE == packet.wire()[1],
        packet.wire()[0] < 128,
{
}

} // verus!
