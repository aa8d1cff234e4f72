//! A secondary that lives in memory: sixteen pins that remember what they were told.
//!
//! What is written to it waits in a queue; every read takes the oldest request off the
//! queue and gives the reply of a secondary that never fails.

use crate::gpio::command::HostPacket;
use crate::gpio::packet::GpioConfig;
use crate::gpio::packet::GpioDirection;
use crate::gpio::packet::GpioValue;
use crate::gpio::frame::is_packet;
use crate::gpio::packet::spec_try_cmd;
use crate::gpio::packet::SecondaryCmd;
use crate::gpio::packet::Status;
use crate::gpio::packet::StatusIs;
use crate::gpio::spec_verdict;
use crate::gpio::spec_version;
use crate::gpio::version;
use crate::gpio::Error;
use crate::gpio::UnrecoverableError;
use crate::outside::parse_u64;
use crate::outside::serialize_u64;
use crate::utils::decimal;
use crate::utils::spec_decimal;
use crate::utils::spec_number;
use vstd::bytes::lemma_auto_spec_u64_to_from_le_bytes;
use vstd::bytes::spec_u64_to_le_bytes;
use vstd::prelude::*;
use vstd::string::StrSliceExecFns;
use vstd::string::StringExecFns;
use vstd::utf8::encode_utf8;

verus! {

/// The number of pins of the secondary.
pub const GPIO_COUNT: u8 = 16;

/// Why the secondary could not be had.
#[derive(PartialEq, Eq, Debug)]
pub enum MockError {
    Mock(String),
}

/// The label of the secondary with the given identifier.
pub open spec fn spec_label(unique_id: u64) -> Seq<char> {
    "mock-"@ + spec_decimal(unique_id) + "-label"@
}

/// The name of a pin of the secondary with the given identifier.
pub open spec fn spec_name(unique_id: u64, pin: u8) -> Seq<char> {
    "mock-"@ + spec_decimal(unique_id) + "-gpio-"@ + spec_decimal(pin as u64)
}

/// One pin, with its name as a sequence of characters.
pub struct Pin {
    pub name: Seq<char>,
    pub value: GpioValue,
    pub config: GpioConfig,
    pub direction: GpioDirection,
}

/// The pin that nobody has touched yet: low, unbiased, disabled.
pub open spec fn spec_pin(unique_id: u64, pin: u8) -> Pin {
    Pin {
        name: spec_name(unique_id, pin),
        value: GpioValue::Low,
        config: GpioConfig::BiasDisable,
        direction: GpioDirection::Disabled,
    }
}

#[derive(PartialEq, Eq, Debug)]
struct MockGpio {
    name: String,
    value: GpioValue,
    config: GpioConfig,
    direction: GpioDirection,
}

impl View for MockGpio {
    type V = Pin;

    closed spec fn view(&self) -> Pin {
        Pin {
            name: self.name@,
            value: self.value,
            config: self.config,
            direction: self.direction,
        }
    }
}

/// The secondary as a value: who it is, its pins, and the requests that wait for their
/// reply, the oldest first.
pub struct State {
    pub unique_id: u64,
    pub label: Seq<char>,
    pub gpios: Seq<Pin>,
    pub requests: Seq<Seq<u8>>,
}

/// The secondary in memory.
#[derive(PartialEq, Eq, Debug)]
pub struct Mock {
    unique_id: u64,
    label: String,
    gpios: Vec<MockGpio>,
    requests: Vec<Vec<u8>>,
}

impl View for Mock {
    type V = State;

    closed spec fn view(&self) -> State {
        State {
            unique_id: self.unique_id,
            label: self.label@,
            gpios: self.gpios@.map_values(|gpio: MockGpio| gpio@),
            requests: self.requests@.map_values(|request: Vec<u8>| request@),
        }
    }
}

/// The secondary that was just made, by its identifier.
pub open spec fn spec_new(unique_id: u64) -> State {
    State {
        unique_id,
        label: spec_label(unique_id),
        gpios: Seq::new(GPIO_COUNT as nat, |pin: int| spec_pin(unique_id, pin as u8)),
        requests: Seq::empty(),
    }
}

/// A reply that carries a string: the two headers, the bytes of the string and a NUL.
/// There is none if the string does not fit under one length byte.
pub open spec fn spec_text_reply(cmd: SecondaryCmd, seq: u8, text: Seq<char>) -> Option<Seq<u8>> {
    let bytes = encode_utf8(text);
    if bytes.len() + 2 > u8::MAX {
        None
    } else {
        Some(seq![cmd.spec_code(), (bytes.len() + 2) as u8, seq] + bytes + seq![0u8])
    }
}

/// The reply that tells that something was set.
pub open spec fn spec_status_reply(seq: u8) -> Seq<u8> {
    seq![SecondaryCmd::StatusIs.spec_code(), 2u8, seq, Status::Success.spec_code()]
}

/// The pins after one of them was given a level.
pub open spec fn with_value(gpios: Seq<Pin>, pin: int, value: GpioValue) -> Seq<Pin> {
    gpios.update(pin, Pin { value, ..gpios[pin] })
}

/// The pins after one of them was given a configuration.
pub open spec fn with_config(gpios: Seq<Pin>, pin: int, config: GpioConfig) -> Seq<Pin> {
    gpios.update(pin, Pin { config, ..gpios[pin] })
}

/// The pins after one of them was given a direction. A pin that is disabled falls to
/// the low level.
pub open spec fn with_direction(gpios: Seq<Pin>, pin: int, direction: GpioDirection) -> Seq<Pin> {
    gpios.update(
        pin,
        Pin {
            direction,
            value: if direction == GpioDirection::Disabled {
                GpioValue::Low
            } else {
                gpios[pin].value
            },
            ..gpios[pin]
        },
    )
}

/// What the secondary answers to a request, and its pins after it. There is no answer
/// to bytes that are no request, to a pin that the secondary does not have, nor where
/// the answer would not fit into a packet.
pub open spec fn spec_reply(state: State, request: Seq<u8>) -> Option<(Seq<u8>, Seq<Pin>)> {
    let gpios = state.gpios;
    match HostPacket::spec_deserialize(request) {
        Err(_) => None,
        Ok(HostPacket::GetVersion(_)) => Some(
            (
                seq![
                    SecondaryCmd::VersionIs.spec_code(),
                    3u8,
                    spec_version().major,
                    spec_version().minor,
                    spec_version().patch,
                ],
                gpios,
            ),
        ),
        Ok(HostPacket::GetUniqueId(packet)) => Some(
            (
                seq![SecondaryCmd::UniqueIdIs.spec_code(), 9u8, packet.host_header.seq]
                    + spec_u64_to_le_bytes(state.unique_id),
                gpios,
            ),
        ),
        Ok(HostPacket::GetChipLabel(packet)) => match spec_text_reply(
            SecondaryCmd::ChipLabelIs,
            packet.host_header.seq,
            state.label,
        ) {
            Some(reply) => Some((reply, gpios)),
            None => None,
        },
        Ok(HostPacket::GetGpioCount(packet)) => if gpios.len() > u8::MAX {
            None
        } else {
            Some(
                (
                    seq![
                        SecondaryCmd::GpioCountIs.spec_code(),
                        2u8,
                        packet.host_header.seq,
                        gpios.len() as u8,
                    ],
                    gpios,
                ),
            )
        },
        Ok(HostPacket::GetGpioName(packet)) => if packet.pin >= gpios.len() {
            None
        } else {
            match spec_text_reply(
                SecondaryCmd::GpioNameIs,
                packet.host_header.seq,
                gpios[packet.pin as int].name,
            ) {
                Some(reply) => Some((reply, gpios)),
                None => None,
            }
        },
        Ok(HostPacket::GetGpioValue(packet)) => if packet.pin >= gpios.len() {
            None
        } else {
            Some(
                (
                    seq![
                        SecondaryCmd::GpioValueIs.spec_code(),
                        2u8,
                        packet.host_header.seq,
                        gpios[packet.pin as int].value.spec_code(),
                    ],
                    gpios,
                ),
            )
        },
        Ok(HostPacket::SetGpioValue(packet)) => if packet.pin >= gpios.len() {
            None
        } else {
            Some(
                (
                    spec_status_reply(packet.host_header.seq),
                    with_value(gpios, packet.pin as int, packet.value),
                ),
            )
        },
        Ok(HostPacket::SetGpioConfig(packet)) => if packet.pin >= gpios.len() {
            None
        } else {
            Some(
                (
                    spec_status_reply(packet.host_header.seq),
                    with_config(gpios, packet.pin as int, packet.config),
                ),
            )
        },
        Ok(HostPacket::SetGpioDirection(packet)) => if packet.pin >= gpios.len() {
            None
        } else {
            Some(
                (
                    spec_status_reply(packet.host_header.seq),
                    with_direction(gpios, packet.pin as int, packet.direction),
                ),
            )
        },
    }
}

/// The error of a secondary that cannot answer: a failure of the transport that
/// carries the words that say why.
fn interface(message: &str) -> (r: Error)
    ensures
        r matches Error::Unrecoverable(UnrecoverableError::Interface(words)) && words@
            == message@,
{
    Error::Unrecoverable(UnrecoverableError::Interface(String::from_str(message)))
}

/// Writes a reply that carries a string.
fn text_reply(cmd: SecondaryCmd, seq: u8, text: &str) -> (r: Option<Vec<u8>>)
    ensures
        match r {
            Some(reply) => spec_text_reply(cmd, seq, text@) == Some(reply@),
            None => spec_text_reply(cmd, seq, text@) is None,
        },
{
    let bytes = text.as_bytes_vec();
    if bytes.len() > u8::MAX as usize - 2 {
        return None;
    }
    let len = (bytes.len() + 2) as u8;
    let mut packet: Vec<u8> = Vec::new();
    packet.push(cmd.code());
    packet.push(len);
    packet.push(seq);
    packet.extend_from_slice(bytes.as_slice());
    packet.push(0);
    assert(packet@ =~= seq![cmd.spec_code(), len, seq] + encode_utf8(text@) + seq![0u8]);
    Some(packet)
}

/// Writes the reply that tells that something was set.
fn status_reply(seq: u8) -> (r: Vec<u8>)
    ensures
        r@ == spec_status_reply(seq),
{
    let mut packet: Vec<u8> = Vec::new();
    packet.push(SecondaryCmd::StatusIs.code());
    packet.push(2);
    packet.push(seq);
    packet.push(Status::Success.code());
    assert(packet@ =~= spec_status_reply(seq));
    packet
}

impl Mock {
    /// Makes the secondary whose identifier is the number that the instance name
    /// spells. A name that spells no number is refused.
    pub fn new(instance_name: &str) -> (r: Result<Self, MockError>)
        ensures
            match spec_number(instance_name@) {
                Some(unique_id) => r matches Ok(mock) && mock@ == spec_new(unique_id),
                None => r is Err,
            },
    {
        match parse_u64(instance_name) {
            Ok(unique_id) => Ok(Self::with_unique_id(unique_id)),
            Err(_) => Err(MockError::Mock(String::from_str("the instance name is not a number"))),
        }
    }

    /// Makes the secondary with the given identifier: its label and the names of its
    /// pins spell the identifier, its pins are low, unbiased and disabled, and nothing
    /// waits for a reply.
    pub fn with_unique_id(unique_id: u64) -> (r: Self)
        ensures
            r@ == spec_new(unique_id),
    {
        let mut label = String::from_str("mock-");
        label.append(decimal(unique_id).as_str());
        label.append("-label");

        let mut gpios: Vec<MockGpio> = Vec::new();

        let mut i: u8 = 0;
        while i < GPIO_COUNT
            invariant
                i <= GPIO_COUNT,
                gpios@.len() == i,
                forall|pin: int| 0 <= pin < i ==> (#[trigger] gpios@[pin])@ == spec_pin(
                    unique_id,
                    pin as u8,
                ),
            decreases GPIO_COUNT - i,
        {
            let mut name = String::from_str("mock-");
            name.append(decimal(unique_id).as_str());
            name.append("-gpio-");
            name.append(decimal(i as u64).as_str());
            let gpio = MockGpio {
                name,
                value: GpioValue::Low,
                config: GpioConfig::BiasDisable,
                direction: GpioDirection::Disabled,
            };

            gpios.push(gpio);
            i += 1;
        }

        let mock = Self { unique_id, label, gpios, requests: Vec::new() };
        proof {
            assert(mock@.gpios =~= spec_new(unique_id).gpios);
            assert(mock@.requests =~= spec_new(unique_id).requests);
        }
        mock
    }

    /// Takes a request. It waits in the queue until it is read.
    pub fn write(&mut self, data: &[u8]) -> (r: Result<(), Error>)
        ensures
            r is Ok,
            final(self)@ == (State {
                requests: old(self)@.requests.push(data@),
                ..old(self)@
            }),
    {
        let mut request: Vec<u8> = Vec::new();
        request.extend_from_slice(data);
        assert(request@ =~= data@);
        self.requests.push(request);
        assert(self@.requests =~= old(self)@.requests.push(data@));
        assert(self@.gpios =~= old(self)@.gpios);
        Ok(())
    }

    /// How many requests wait for their reply.
    pub fn pending(&self) -> (r: usize)
        ensures
            r == self@.requests.len(),
    {
        self.requests.len()
    }

    /// Answers the oldest request and takes it off the queue. Only the pins change with
    /// it, and only as the request says. Without a request, and where the secondary has
    /// no answer, the read fails.
    pub fn read(&mut self) -> (r: Result<Vec<u8>, Error>)
        ensures
            final(self)@.unique_id == old(self)@.unique_id,
            final(self)@.label == old(self)@.label,
            old(self)@.requests.len() == 0 ==> r is Err && final(self)@ == old(self)@,
            old(self)@.requests.len() > 0 ==> {
                &&& final(self)@.requests == old(self)@.requests.skip(1)
                &&& match spec_reply(old(self)@, old(self)@.requests[0]) {
                    Some((reply, gpios)) => {
                        &&& final(self)@.gpios == gpios
                        &&& match r {
                            Ok(packet) => packet@ == reply,
                            Err(_) => HostPacket::spec_deserialize(
                                old(self)@.requests[0],
                            ) matches Ok(HostPacket::GetUniqueId(_)),
                        }
                    },
                    None => r is Err && final(self)@.gpios == old(self)@.gpios,
                }
            },
    {
        if self.requests.len() == 0 {
            return Err(interface("no request was written"));
        }
        let data = self.requests.remove(0);
        assert(self@.requests =~= old(self)@.requests.skip(1));
        assert(self@.gpios =~= old(self)@.gpios);
        assert(data@ == old(self)@.requests[0]);

        let request = match HostPacket::deserialize(data.as_slice()) {
            Ok(request) => request,
            Err(_) => {
                return Err(interface("the bytes are no request"));
            },
        };

        let mut packet: Vec<u8> = Vec::new();

        match request {
            HostPacket::GetVersion(_) => {
                packet.push(SecondaryCmd::VersionIs.code());
                packet.push(3);
                packet.push(version().major);
                packet.push(version().minor);
                packet.push(version().patch);
            },
            HostPacket::GetUniqueId(request) => {
                let uid = match serialize_u64(self.unique_id) {
                    Ok(uid) => uid,
                    Err(_) => {
                        return Err(interface("the identifier was not written out"));
                    },
                };
                packet.push(SecondaryCmd::UniqueIdIs.code());
                packet.push(9);
                packet.push(request.host_header.seq);
                packet.extend_from_slice(uid.as_slice());
                assert(packet@ =~= seq![
                    SecondaryCmd::UniqueIdIs.spec_code(),
                    9u8,
                    request.host_header.seq,
                ] + spec_u64_to_le_bytes(self.unique_id));
            },
            HostPacket::GetChipLabel(request) => {
                match text_reply(
                    SecondaryCmd::ChipLabelIs,
                    request.host_header.seq,
                    self.label.as_str(),
                ) {
                    Some(reply) => {
                        packet = reply;
                    },
                    None => {
                        return Err(interface("the label is too long"));
                    },
                }
            },
            HostPacket::GetGpioCount(request) => {
                if self.gpios.len() > u8::MAX as usize {
                    return Err(interface("too many pins"));
                }
                let count = self.gpios.len() as u8;
                packet.push(SecondaryCmd::GpioCountIs.code());
                packet.push(2);
                packet.push(request.host_header.seq);
                packet.push(count);
            },
            HostPacket::GetGpioName(request) => {
                if request.pin as usize >= self.gpios.len() {
                    return Err(interface("no such pin"));
                }
                match text_reply(
                    SecondaryCmd::GpioNameIs,
                    request.host_header.seq,
                    self.gpios[request.pin as usize].name.as_str(),
                ) {
                    Some(reply) => {
                        packet = reply;
                    },
                    None => {
                        return Err(interface("the name is too long"));
                    },
                }
            },
            HostPacket::GetGpioValue(request) => {
                if request.pin as usize >= self.gpios.len() {
                    return Err(interface("no such pin"));
                }
                let value = self.gpios[request.pin as usize].value;
                packet.push(SecondaryCmd::GpioValueIs.code());
                packet.push(2);
                packet.push(request.host_header.seq);
                packet.push(value.code());
            },
            HostPacket::SetGpioValue(request) => {
                if request.pin as usize >= self.gpios.len() {
                    return Err(interface("no such pin"));
                }
                self.gpios[request.pin as usize].value = request.value;
                assert(self@.gpios =~= with_value(
                    old(self)@.gpios,
                    request.pin as int,
                    request.value,
                ));
                packet = status_reply(request.host_header.seq);
            },
            HostPacket::SetGpioConfig(request) => {
                if request.pin as usize >= self.gpios.len() {
                    return Err(interface("no such pin"));
                }
                self.gpios[request.pin as usize].config = request.config;
                assert(self@.gpios =~= with_config(
                    old(self)@.gpios,
                    request.pin as int,
                    request.config,
                ));
                packet = status_reply(request.host_header.seq);
            },
            HostPacket::SetGpioDirection(request) => {
                if request.pin as usize >= self.gpios.len() {
                    return Err(interface("no such pin"));
                }
                match request.direction {
                    GpioDirection::Output => (),
                    GpioDirection::Input => (),
                    GpioDirection::Disabled => {
                        self.gpios[request.pin as usize].value = GpioValue::Low;
                    },
                }
                self.gpios[request.pin as usize].direction = request.direction;
                assert(self@.gpios =~= with_direction(
                    old(self)@.gpios,
                    request.pin as int,
                    request.direction,
                ));
                packet = status_reply(request.host_header.seq);
            },
        }

        Ok(packet)
    }
}

/// What the secondary answers is a reply to the request it answers: a packet whose
/// command is one of the replies, and, for a request with a sequence number, a packet
/// that carries the same number and that the request takes as its reply.
pub proof fn lemma_reply_answers(state: State, request: Seq<u8>)
    requires
        spec_reply(state, request) is Some,
    ensures
        is_packet(spec_reply(state, request).unwrap().0),
        spec_try_cmd(spec_reply(state, request).unwrap().0) matches Ok(cmd) && cmd
            != SecondaryCmd::UnsupportedCmdIs,
        HostPacket::spec_deserialize(request) matches Ok(packet) && (packet.seq() matches Some(
            seq,
        ) ==> spec_reply(state, request).unwrap().0[2] == seq && spec_verdict(
            Some(seq),
            spec_reply(state, request).unwrap().0,
        ) is Accept),
{
    lemma_auto_spec_u64_to_from_le_bytes();
    let reply = spec_reply(state, request).unwrap().0;
    let packet = HostPacket::spec_deserialize(request).unwrap();
    match packet {
        HostPacket::SetGpioValue(_)
        | HostPacket::SetGpioConfig(_)
        | HostPacket::SetGpioDirection(_) => {
            assert(StatusIs::spec_deserialize(reply) is Ok);
            assert(StatusIs::spec_deserialize(reply).unwrap().status == Status::Success);
        },
        _ => {},
    }
}

} // verus!
