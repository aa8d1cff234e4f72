//! The link to the secondary: its wire format, the engine that pairs requests with
//! replies, and a secondary that lives in memory.
//!
//! The engine does no I/O. It builds the bytes of each request, says of every event on
//! the reply queue whether the wait goes on, ends or fails, and walks through the
//! requests that bring a chip up. Whoever owns the transport writes the bytes, waits,
//! and hands the events in.

pub mod command;
pub mod frame;
pub mod mock;
pub mod packet;

use crate::gpio::command::GetChipLabel;
use crate::gpio::command::GetGpioCount;
use crate::gpio::command::GetGpioName;
use crate::gpio::command::GetGpioValue;
use crate::gpio::command::GetUniqueId;
use crate::gpio::command::GetVersion;
use crate::gpio::command::Serializer;
use crate::gpio::command::SetGpioConfig;
use crate::gpio::command::SetGpioDirection;
use crate::gpio::command::SetGpioValue;
use crate::gpio::frame::spec_split;
use crate::gpio::frame::split;
use crate::gpio::frame::views;
use crate::gpio::packet::deserialize_headers;
use crate::gpio::packet::next_seq;
use crate::gpio::packet::spec_headers;
use crate::gpio::packet::spec_text_is;
use crate::gpio::packet::spec_try_cmd;
use crate::gpio::packet::try_deserialize_cmd;
use crate::gpio::packet::ChipLabelIs;
use crate::gpio::packet::DecodeError;
use crate::gpio::packet::GpioConfig;
use crate::gpio::packet::GpioCountIs;
use crate::gpio::packet::GpioDirection;
use crate::gpio::packet::GpioNameIs;
use crate::gpio::packet::GpioValue;
use crate::gpio::packet::GpioValueIs;
use crate::gpio::packet::HostCmd;
use crate::gpio::packet::SecondaryCmd;
use crate::gpio::packet::Status;
use crate::gpio::packet::StatusIs;
use crate::gpio::packet::UniqueIdIs;
use crate::gpio::packet::UnsupportedCmdIs;
use crate::gpio::packet::VersionIs;
use crate::utils::Version;
use vstd::prelude::*;
use vstd::string::StringExecFns;

verus! {

/// The version of the protocol that this side speaks to the secondary.
pub open spec fn spec_version() -> Version {
    Version { major: 1, minor: 0, patch: 0 }
}

/// The version of the protocol that this side speaks to the secondary.
#[verifier::when_used_as_spec(spec_version)]
pub fn version() -> (r: Version)
    ensures
        r == spec_version(),
{
    Version { major: 1, minor: 0, patch: 0 }
}

/// How long a request may wait for its reply, from the first wait to the last, in
/// milliseconds.
pub const READ_TIMEOUT_MS: u128 = 2000;

/// How long the transport may take to come up, in milliseconds.
pub const CPC_INIT_TIMEOUT_MS: u128 = 2000;

/// How long to wait between two attempts to bring the transport up, in milliseconds.
pub const CPC_INIT_RETRY_INTERVAL_MS: u64 = 100;

/// Decides what follows a failed attempt to bring the transport up, `elapsed`
/// milliseconds after the first: another attempt after the interval, or nothing more
/// once the time is used up.
pub fn retry(elapsed: u128) -> (r: Option<u64>)
    ensures
        r == if elapsed >= CPC_INIT_TIMEOUT_MS {
            None
        } else {
            Some(CPC_INIT_RETRY_INTERVAL_MS)
        },
{
    if elapsed >= CPC_INIT_TIMEOUT_MS {
        None
    } else {
        Some(CPC_INIT_RETRY_INTERVAL_MS)
    }
}

/// Why an operation on the secondary failed.
#[derive(PartialEq, Eq, Debug)]
pub enum Error {
    /// The request failed; the link is still there.
    Recoverable(RecoverableError),
    /// The link is lost.
    Unrecoverable(UnrecoverableError),
}

/// Why a request failed on a link that is still there.
#[derive(PartialEq, Eq, Debug)]
pub enum RecoverableError {
    /// No reply came in time; the milliseconds are those that had passed.
    Timeout(u128),
    /// The reply could not be read.
    Deserialization(DecodeError),
    /// The request could not be written out.
    Serialization(String),
    /// The secondary answered with a status other than success.
    Packet(Status),
}

/// Why the link is lost.
#[derive(PartialEq, Eq, Debug)]
pub enum UnrecoverableError {
    /// The transport failed.
    Interface(String),
    /// Something inside the bridge failed.
    Anyhow(String),
}

/// What the secondary said of itself when the link came up.
#[derive(PartialEq, Eq, Debug)]
pub struct Chip {
    pub unique_id: u64,
    pub label: String,
    pub gpio_names: Vec<String>,
}

/// A request as the transport takes it: the bytes to write and the sequence number
/// that the reply must carry, if the request has one.
#[derive(PartialEq, Eq, Debug)]
pub struct Request {
    pub packet: Vec<u8>,
    pub expected_seq: Option<u8>,
}

/// What came off the reply queue while a request was waiting.
#[derive(PartialEq, Eq, Debug)]
pub enum ReadEvent {
    /// A packet arrived.
    Packet(Vec<u8>),
    /// Nothing arrived within the time that was waited for.
    Timeout,
    /// The queue has lost its writer.
    Disconnected,
}

/// A reply that was passed over because it answers another request.
#[derive(PartialEq, Eq, Structural, Copy, Clone, Debug)]
pub struct Mismatch {
    pub cmd: SecondaryCmd,
    pub expected: u8,
    pub received: u8,
}

/// What a waiting request does after an event.
#[derive(PartialEq, Eq, Debug)]
pub enum ReadStep {
    /// Wait again, for no longer than `timeout` milliseconds. `mismatch` tells of the
    /// reply that was passed over, if one was.
    Wait { timeout: u128, mismatch: Option<Mismatch> },
    /// The reply is there.
    Done(Vec<u8>),
    /// The request has failed.
    Failed(Error),
}

/// What a packet on the reply queue means to the request that waits.
pub enum Verdict {
    /// It is the reply.
    Accept,
    /// It answers another request and is passed over.
    Discard(Mismatch),
    /// It ends the request with an error.
    Reject(RecoverableError),
}

/// The verdict on a packet. A request without a sequence number takes whatever comes.
/// Any other reads the headers, passes over a packet with another number, and takes a
/// status other than success for its failure.
pub open spec fn spec_verdict(expected_seq: Option<u8>, packet: Seq<u8>) -> Verdict {
    match expected_seq {
        None => Verdict::Accept,
        Some(expected) => match spec_headers(packet) {
            Err(e) => Verdict::Reject(RecoverableError::Deserialization(e)),
            Ok((header, rx_header)) => if rx_header.seq != expected {
                Verdict::Discard(Mismatch { cmd: header.cmd, expected, received: rx_header.seq })
            } else if header.cmd == SecondaryCmd::StatusIs {
                match StatusIs::spec_deserialize(packet) {
                    Err(e) => Verdict::Reject(RecoverableError::Deserialization(e)),
                    Ok(status) => if status.status != Status::Success {
                        Verdict::Reject(RecoverableError::Packet(status.status))
                    } else {
                        Verdict::Accept
                    },
                }
            } else {
                Verdict::Accept
            },
        },
    }
}

/// What is left of the time to wait once `elapsed` milliseconds have passed.
pub open spec fn spec_remaining(elapsed: u128) -> Option<u128> {
    if elapsed >= READ_TIMEOUT_MS {
        None
    } else {
        Some((READ_TIMEOUT_MS - elapsed) as u128)
    }
}

/// An event on the reply queue, with a packet as a sequence of bytes.
pub enum Arrival {
    Packet(Seq<u8>),
    Timeout,
    Disconnected,
}

impl View for ReadEvent {
    type V = Arrival;

    open spec fn view(&self) -> Arrival {
        match self {
            ReadEvent::Packet(packet) => Arrival::Packet(packet@),
            ReadEvent::Timeout => Arrival::Timeout,
            ReadEvent::Disconnected => Arrival::Disconnected,
        }
    }
}

/// What a waiting request does after an event, with a packet as a sequence of bytes
/// and without the words of an error that ends the bridge.
pub enum Step {
    Wait { timeout: u128, mismatch: Option<Mismatch> },
    Done(Seq<u8>),
    Recoverable(RecoverableError),
    Unrecoverable,
}

impl View for ReadStep {
    type V = Step;

    open spec fn view(&self) -> Step {
        match self {
            ReadStep::Wait { timeout, mismatch } => Step::Wait {
                timeout: *timeout,
                mismatch: *mismatch,
            },
            ReadStep::Done(packet) => Step::Done(packet@),
            ReadStep::Failed(Error::Recoverable(e)) => Step::Recoverable(*e),
            ReadStep::Failed(Error::Unrecoverable(_)) => Step::Unrecoverable,
        }
    }
}

/// The step after a wait that brought no reply: another wait for what is left of the
/// time, or the timeout once nothing is left.
pub open spec fn spec_wait_on(elapsed: u128, mismatch: Option<Mismatch>) -> Step {
    match spec_remaining(elapsed) {
        Some(timeout) => Step::Wait { timeout, mismatch },
        None => Step::Recoverable(RecoverableError::Timeout(elapsed)),
    }
}

/// What a waiting request does after an event that comes `elapsed` milliseconds after
/// it began to wait. A reply ends the wait, and so does a packet that spells failure. A
/// packet for another request is passed over, and like a wait that brought nothing it
/// is followed by a wait for what is left of the time. A queue without a writer ends
/// the bridge.
pub open spec fn spec_read(expected_seq: Option<u8>, elapsed: u128, event: Arrival) -> Step {
    match event {
        Arrival::Packet(packet) => match spec_verdict(expected_seq, packet) {
            Verdict::Accept => Step::Done(packet),
            Verdict::Discard(mismatch) => spec_wait_on(elapsed, Some(mismatch)),
            Verdict::Reject(e) => Step::Recoverable(e),
        },
        Arrival::Timeout => spec_wait_on(elapsed, None),
        Arrival::Disconnected => Step::Unrecoverable,
    }
}

/// Decides what a waiting request does after an event. `elapsed` is the time since the
/// request began to wait, in milliseconds.
pub fn read(expected_seq: Option<u8>, elapsed: u128, event: ReadEvent) -> (r: ReadStep)
    ensures
        r@ == spec_read(expected_seq, elapsed, event@),
        r matches ReadStep::Done(reply) ==> event == ReadEvent::Packet(reply),
        r matches ReadStep::Failed(Error::Unrecoverable(e)) ==> e is Anyhow,
{
    match event {
        ReadEvent::Packet(packet) => {
            if let Some(expected) = expected_seq {
                let (header, rx_header) = match deserialize_headers(packet.as_slice()) {
                    Ok((_, headers)) => headers,
                    Err(e) => {
                        return ReadStep::Failed(
                            Error::Recoverable(RecoverableError::Deserialization(e)),
                        );
                    },
                };

                if expected != rx_header.seq {
                    let mismatch = Mismatch { cmd: header.cmd, expected, received: rx_header.seq };
                    return wait_on(elapsed, Some(mismatch));
                }

                if let SecondaryCmd::StatusIs = header.cmd {
                    let status = match StatusIs::deserialize(packet.as_slice()) {
                        Ok(status) => status,
                        Err(e) => {
                            return ReadStep::Failed(
                                Error::Recoverable(RecoverableError::Deserialization(e)),
                            );
                        },
                    };
                    if status.status != Status::Success {
                        return ReadStep::Failed(
                            Error::Recoverable(RecoverableError::Packet(status.status)),
                        );
                    }
                }
            }

            ReadStep::Done(packet)
        },
        ReadEvent::Timeout => wait_on(elapsed, None),
        ReadEvent::Disconnected => ReadStep::Failed(
            Error::Unrecoverable(
                UnrecoverableError::Anyhow(
                    String::from_str("channel is empty and sending half is closed"),
                ),
            ),
        ),
    }
}

/// Waits for what is left of the time, or gives up once nothing is left.
fn wait_on(elapsed: u128, mismatch: Option<Mismatch>) -> (r: ReadStep)
    ensures
        r@ == spec_wait_on(elapsed, mismatch),
{
    if elapsed >= READ_TIMEOUT_MS {
        ReadStep::Failed(Error::Recoverable(RecoverableError::Timeout(elapsed)))
    } else {
        ReadStep::Wait { timeout: READ_TIMEOUT_MS - elapsed, mismatch }
    }
}

/// What a request has come to after the events of its wait, each with the time at
/// which it came: the step after the first event that ends the wait, or after the last
/// event if none does. Without events there is no step.
pub open spec fn spec_wait(expected_seq: Option<u8>, events: Seq<(u128, Arrival)>) -> Option<Step>
    decreases events.len(),
{
    if events.len() == 0 {
        None
    } else {
        let step = spec_read(expected_seq, events[0].0, events[0].1);
        if step is Wait && events.len() > 1 {
            spec_wait(expected_seq, events.skip(1))
        } else {
            Some(step)
        }
    }
}

/// Whether the event is a packet that answers another request than the one with the
/// number `expected`.
pub open spec fn is_mismatch(expected: u8, event: Arrival) -> bool {
    event matches Arrival::Packet(packet) && spec_verdict(Some(expected), packet) is Discard
}

/// A reply to another request, then the reply to this one: the request ends with the
/// second, and the first is passed over, with a note of the number it carried.
pub proof fn lemma_mismatch_then_match(
    expected: u8,
    first: Seq<u8>,
    at_first: u128,
    second: Seq<u8>,
    at_second: u128,
)
    requires
        is_mismatch(expected, Arrival::Packet(first)),
        at_first < READ_TIMEOUT_MS,
        spec_verdict(Some(expected), second) is Accept,
    ensures
        spec_read(Some(expected), at_first, Arrival::Packet(first)) matches Step::Wait {
            mismatch: Some(mismatch),
            ..
        } && mismatch.expected == expected && mismatch.received == first[2],
        spec_wait(
            Some(expected),
            seq![(at_first, Arrival::Packet(first)), (at_second, Arrival::Packet(second))],
        ) == Some(Step::Done(second)),
{
    let events = seq![(at_first, Arrival::Packet(first)), (at_second, Arrival::Packet(second))];
    assert(events.skip(1) =~= seq![(at_second, Arrival::Packet(second))]);
    reveal_with_fuel(spec_wait, 3);
}

/// Nothing but replies to other requests and waits that bring nothing: the request
/// never ends with a reply. While time is left it waits on, and the first event at or
/// after the limit ends it with the timeout and the time that had passed.
pub proof fn lemma_only_mismatches(expected: u8, events: Seq<(u128, Arrival)>)
    requires
        events.len() > 0,
        forall|i: int|
            0 <= i < events.len() ==> is_mismatch(expected, (#[trigger] events[i]).1)
                || events[i].1 is Timeout,
        forall|i: int| 0 <= i < events.len() - 1 ==> (#[trigger] events[i]).0 < READ_TIMEOUT_MS,
    ensures
        events.last().0 >= READ_TIMEOUT_MS ==> spec_wait(Some(expected), events) == Some(
            Step::Recoverable(RecoverableError::Timeout(events.last().0)),
        ),
        events.last().0 < READ_TIMEOUT_MS ==> (spec_wait(Some(expected), events) matches Some(
            Step::Wait { timeout, .. },
        ) && timeout == READ_TIMEOUT_MS - events.last().0),
    decreases events.len(),
{
    if events.len() > 1 {
        let rest = events.skip(1);
        assert forall|i: int| 0 <= i < rest.len() implies is_mismatch(
            expected,
            (#[trigger] rest[i]).1,
        ) || rest[i].1 is Timeout by {
            assert(rest[i] == events[i + 1]);
        }
        assert forall|i: int| 0 <= i < rest.len() - 1 implies (#[trigger] rest[i]).0
            < READ_TIMEOUT_MS by {
            assert(rest[i] == events[i + 1]);
        }
        assert(rest.last() == events.last());
        assert(events[0].0 < READ_TIMEOUT_MS);
        lemma_only_mismatches(expected, rest);
    }
}

/// What the reader of the link does with one packet.
#[derive(PartialEq, Eq, Debug)]
pub enum Routed {
    /// A reply: it goes onto the reply queue.
    Reply(Vec<u8>),
    /// The secondary refused a command: it is logged and dropped.
    Unsupported(Vec<u8>, Result<UnsupportedCmdIs, DecodeError>),
    /// The command is none that the secondary sends: it is logged and dropped.
    Unknown(Vec<u8>, DecodeError),
}

/// Whether `routed` is what the reader does with `packet`: by its command a packet is
/// a reply, a refusal or unknown.
pub open spec fn routes(packet: Seq<u8>, routed: Routed) -> bool {
    match spec_try_cmd(packet) {
        Ok(SecondaryCmd::UnsupportedCmdIs) => routed matches Routed::Unsupported(kept, refusal)
            && kept@ == packet && refusal == UnsupportedCmdIs::spec_deserialize(packet),
        Ok(_) => routed matches Routed::Reply(kept) && kept@ == packet,
        Err(e) => routed matches Routed::Unknown(kept, reason) && kept@ == packet && reason == e,
    }
}

/// Sorts one packet by its command.
pub fn route(packet: Vec<u8>) -> (r: Routed)
    ensures
        routes(packet@, r),
{
    match try_deserialize_cmd(packet.as_slice()) {
        Ok(rx_cmd) => match rx_cmd {
            SecondaryCmd::VersionIs
            | SecondaryCmd::StatusIs
            | SecondaryCmd::GpioCountIs
            | SecondaryCmd::GpioNameIs
            | SecondaryCmd::GpioValueIs
            | SecondaryCmd::ChipLabelIs
            | SecondaryCmd::UniqueIdIs => Routed::Reply(packet),
            SecondaryCmd::UnsupportedCmdIs => {
                let refusal = UnsupportedCmdIs::deserialize(packet.as_slice());
                Routed::Unsupported(packet, refusal)
            },
        },
        Err(e) => Routed::Unknown(packet, e),
    }
}

/// Cuts a buffer that was read from the link into packets and sorts them, in their
/// order. A buffer that ends inside a packet is refused as a whole.
pub fn dispatch(buffer: &[u8]) -> (r: Result<Vec<Routed>, DecodeError>)
    ensures
        match r {
            Ok(routed) => spec_split(buffer@) matches Ok(packets) && routed@.len()
                == packets.len() && forall|i: int|
                0 <= i < packets.len() ==> routes(packets[i], #[trigger] routed@[i]),
            Err(e) => spec_split(buffer@) == Err::<Seq<Seq<u8>>, _>(e),
        },
{
    let mut packets = split(buffer)?;
    let ghost cut = views(packets@);
    let mut routed: Vec<Routed> = Vec::new();

    while packets.len() > 0
        invariant
            packets@.len() <= cut.len(),
            routed@.len() + packets@.len() == cut.len(),
            forall|i: int| 0 <= i < routed@.len() ==> routes(cut[i], #[trigger] routed@[i]),
            forall|i: int|
                0 <= i < packets@.len() ==> (#[trigger] packets@[i])@ == cut[routed@.len() + i],
        decreases packets@.len(),
    {
        let packet = packets.remove(0);
        routed.push(route(packet));
    }
    Ok(routed)
}

/// A step on the way from a link that just came up to a chip that is known.
#[derive(PartialEq, Eq, Structural, Copy, Clone, Debug)]
pub enum InitStep {
    Version,
    UniqueId,
    ChipLabel,
    GpioCount,
    GpioName(u8),
    GpioDirection(u8),
    Done,
}

impl InitStep {
    /// The step that follows, on a chip of `count` pins: the version, the identifier,
    /// the label and the number of pins, then the name of every pin, then every pin
    /// disabled, each in the order of the pins.
    pub open spec fn spec_next(self, count: u8) -> InitStep {
        match self {
            InitStep::Version => InitStep::UniqueId,
            InitStep::UniqueId => InitStep::ChipLabel,
            InitStep::ChipLabel => InitStep::GpioCount,
            InitStep::GpioCount => if count == 0 {
                InitStep::Done
            } else {
                InitStep::GpioName(0)
            },
            InitStep::GpioName(pin) => if pin + 1 < count {
                InitStep::GpioName((pin + 1) as u8)
            } else {
                InitStep::GpioDirection(0)
            },
            InitStep::GpioDirection(pin) => if pin + 1 < count {
                InitStep::GpioDirection((pin + 1) as u8)
            } else {
                InitStep::Done
            },
            InitStep::Done => InitStep::Done,
        }
    }

    /// How many replies are still to come before the chip is known.
    pub open spec fn spec_left(self, count: u8) -> nat {
        match self {
            InitStep::Version => 4 + 2 * count as nat,
            InitStep::UniqueId => 3 + 2 * count as nat,
            InitStep::ChipLabel => 2 + 2 * count as nat,
            InitStep::GpioCount => 1 + 2 * count as nat,
            InitStep::GpioName(pin) => (2 * count - pin) as nat,
            InitStep::GpioDirection(pin) => (count - pin) as nat,
            InitStep::Done => 0,
        }
    }

    fn next(self, count: u8) -> (r: InitStep)
        ensures
            r == self.spec_next(count),
    {
        match self {
            InitStep::Version => InitStep::UniqueId,
            InitStep::UniqueId => InitStep::ChipLabel,
            InitStep::ChipLabel => InitStep::GpioCount,
            InitStep::GpioCount => if count == 0 {
                InitStep::Done
            } else {
                InitStep::GpioName(0)
            },
            InitStep::GpioName(pin) => if pin < u8::MAX && pin + 1 < count {
                InitStep::GpioName(pin + 1)
            } else {
                InitStep::GpioDirection(0)
            },
            InitStep::GpioDirection(pin) => if pin < u8::MAX && pin + 1 < count {
                InitStep::GpioDirection(pin + 1)
            } else {
                InitStep::Done
            },
            InitStep::Done => InitStep::Done,
        }
    }
}

/// Every reply brings the chip one step nearer: on a chip of `count` pins, a step for
/// a pin that the chip has is followed by a step with one reply less to come. So a
/// chip is known after four replies and two more for each of its pins.
pub proof fn lemma_init_progress(step: InitStep, count: u8)
    requires
        step != InitStep::Done,
        step matches InitStep::GpioName(pin) ==> pin < count,
        step matches InitStep::GpioDirection(pin) ==> pin < count,
    ensures
        step.spec_next(count).spec_left(count) == step.spec_left(count) - 1,
        step.spec_next(count) matches InitStep::GpioName(pin) ==> pin < count,
        step.spec_next(count) matches InitStep::GpioDirection(pin) ==> pin < count,
{
}

/// Why a chip could not be brought up although every reply arrived.
#[derive(PartialEq, Eq, Structural, Copy, Clone, Debug)]
pub enum InitError {
    /// The secondary speaks another major version; the version is the secondary's.
    Version(Version),
    /// The secondary gave the identifier that is kept for "every chip".
    UniqueId,
    /// A reply could not be read.
    Deserialization(DecodeError),
}

/// The identifier that no chip may have: it addresses every chip at once.
pub const UNIQUE_ID_ALL: u64 = 0;

/// The engine of the link to one secondary: the sequence counter, the chip, and how
/// far the chip has been brought up.
#[derive(PartialEq, Eq, Debug)]
pub struct Handle {
    chip: Chip,
    seq: u8,
    step: InitStep,
    count: u8,
}

/// The names of the pins as sequences of characters.
pub open spec fn names(gpio_names: Seq<String>) -> Seq<Seq<char>> {
    gpio_names.map_values(|name: String| name@)
}

impl Handle {
    /// The sequence number of the last request.
    pub closed spec fn seq(&self) -> u8 {
        self.seq
    }

    /// The step whose request is to be sent next.
    pub closed spec fn step(&self) -> InitStep {
        self.step
    }

    /// The number of pins, once the secondary has told it.
    pub closed spec fn count(&self) -> u8 {
        self.count
    }

    /// What is known of the chip so far.
    pub closed spec fn spec_chip(&self) -> &Chip {
        &self.chip
    }

    /// One name is known for every pin that has been asked for.
    pub closed spec fn wf(&self) -> bool {
        match self.step {
            InitStep::GpioName(pin) => pin < self.count && self.chip.gpio_names@.len() == pin,
            InitStep::GpioDirection(pin) => pin < self.count && self.chip.gpio_names@.len()
                == self.count,
            InitStep::Done => self.chip.gpio_names@.len() == self.count,
            _ => self.chip.gpio_names@.len() == 0,
        }
    }

    /// An engine for a link that just came up: nothing sent yet, nothing known.
    pub fn new() -> (r: Self)
        ensures
            r.seq() == 0,
            r.step() == InitStep::Version,
            r.chip().unique_id == 0,
            r.chip().label@ == Seq::<char>::empty(),
            r.chip().gpio_names@ == Seq::<String>::empty(),
            r.wf(),
    {
        let chip = Chip { unique_id: 0, gpio_names: Vec::new(), label: String::new() };
        Self { chip, seq: 0, step: InitStep::Version, count: 0 }
    }

    /// What is known of the chip so far.
    #[verifier::when_used_as_spec(spec_chip)]
    pub fn chip(&self) -> (r: &Chip)
        ensures
            r == self.spec_chip(),
    {
        &self.chip
    }

    /// The sequence number of the last request.
    pub fn last_seq(&self) -> (r: u8)
        ensures
            r == self.seq(),
    {
        self.seq
    }

    /// The step whose request is to be sent next.
    pub fn init_step(&self) -> (r: InitStep)
        ensures
            r == self.step(),
    {
        self.step
    }

    /// Whether only the sequence counter differs between the two engines, and by one
    /// step.
    pub open spec fn advanced(&self, before: &Handle) -> bool {
        &&& self.seq() == next_seq(before.seq())
        &&& self.step() == before.step()
        &&& self.count() == before.count()
        &&& self.chip() == before.chip()
        &&& self.wf() == before.wf()
    }

    /// The request for the secondary's version. It has no sequence number and leaves
    /// the counter alone.
    pub fn get_gpio_version(&self) -> (r: Request)
        ensures
            r.packet@ == seq![HostCmd::GetVersion.spec_code(), 0u8],
            r.expected_seq is None,
    {
        let packet = GetVersion::new().serialize();
        Request { packet, expected_seq: None }
    }

    /// The request for the chip's identifier.
    pub fn get_unique_id(&mut self) -> (r: Request)
        ensures
            final(self).advanced(old(self)),
            r.packet@ == seq![HostCmd::GetUniqueId.spec_code(), 1u8, final(self).seq()],
            r.expected_seq == Some(final(self).seq()),
    {
        let mut seq = self.seq;
        let packet = GetUniqueId::new(&mut seq).serialize();
        self.seq = seq;
        Request { packet, expected_seq: Some(seq) }
    }

    /// The request for the chip's label.
    pub fn get_chip_label(&mut self) -> (r: Request)
        ensures
            final(self).advanced(old(self)),
            r.packet@ == seq![HostCmd::GetChipLabel.spec_code(), 1u8, final(self).seq()],
            r.expected_seq == Some(final(self).seq()),
    {
        let mut seq = self.seq;
        let packet = GetChipLabel::new(&mut seq).serialize();
        self.seq = seq;
        Request { packet, expected_seq: Some(seq) }
    }

    /// The request for the number of pins.
    pub fn get_gpio_count(&mut self) -> (r: Request)
        ensures
            final(self).advanced(old(self)),
            r.packet@ == seq![HostCmd::GetGpioCount.spec_code(), 1u8, final(self).seq()],
            r.expected_seq == Some(final(self).seq()),
    {
        let mut seq = self.seq;
        let packet = GetGpioCount::new(&mut seq).serialize();
        self.seq = seq;
        Request { packet, expected_seq: Some(seq) }
    }

    /// The request for the name of a pin.
    pub fn get_gpio_name(&mut self, pin: u8) -> (r: Request)
        ensures
            final(self).advanced(old(self)),
            r.packet@ == seq![HostCmd::GetGpioName.spec_code(), 2u8, final(self).seq(), pin],
            r.expected_seq == Some(final(self).seq()),
    {
        let mut seq = self.seq;
        let packet = GetGpioName::new(&mut seq, pin).serialize();
        self.seq = seq;
        Request { packet, expected_seq: Some(seq) }
    }

    /// The request for the level of a pin.
    pub fn get_gpio_value(&mut self, pin: u8) -> (r: Request)
        ensures
            final(self).advanced(old(self)),
            r.packet@ == seq![HostCmd::GetGpioValue.spec_code(), 2u8, final(self).seq(), pin],
            r.expected_seq == Some(final(self).seq()),
    {
        let mut seq = self.seq;
        let packet = GetGpioValue::new(&mut seq, pin).serialize();
        self.seq = seq;
        Request { packet, expected_seq: Some(seq) }
    }

    /// The request that sets the level of a pin.
    pub fn set_gpio_value(&mut self, pin: u8, value: GpioValue) -> (r: Request)
        ensures
            final(self).advanced(old(self)),
            r.packet@ == seq![
                HostCmd::SetGpioValue.spec_code(),
                3u8,
                final(self).seq(),
                pin,
                value.spec_code(),
            ],
            r.expected_seq == Some(final(self).seq()),
    {
        let mut seq = self.seq;
        let packet = SetGpioValue::new(&mut seq, pin, value).serialize();
        self.seq = seq;
        Request { packet, expected_seq: Some(seq) }
    }

    /// The request that sets the electrical configuration of a pin.
    pub fn set_gpio_config(&mut self, pin: u8, config: GpioConfig) -> (r: Request)
        ensures
            final(self).advanced(old(self)),
            r.packet@ == seq![
                HostCmd::SetGpioConfig.spec_code(),
                3u8,
                final(self).seq(),
                pin,
                config.spec_code(),
            ],
            r.expected_seq == Some(final(self).seq()),
    {
        let mut seq = self.seq;
        let packet = SetGpioConfig::new(&mut seq, pin, config).serialize();
        self.seq = seq;
        Request { packet, expected_seq: Some(seq) }
    }

    /// The request that sets the direction of a pin.
    pub fn set_gpio_direction(&mut self, pin: u8, direction: GpioDirection) -> (r: Request)
        ensures
            final(self).advanced(old(self)),
            r.packet@ == seq![
                HostCmd::SetGpioDirection.spec_code(),
                3u8,
                final(self).seq(),
                pin,
                direction.spec_code(),
            ],
            r.expected_seq == Some(final(self).seq()),
    {
        let mut seq = self.seq;
        let packet = SetGpioDirection::new(&mut seq, pin, direction).serialize();
        self.seq = seq;
        Request { packet, expected_seq: Some(seq) }
    }

    /// Reads the reply to `get_gpio_value`.
    pub fn gpio_value(packet: &[u8]) -> (r: Result<GpioValueIs, Error>)
        ensures
            match GpioValueIs::spec_deserialize(packet@) {
                Ok(reply) => r == Ok::<_, Error>(reply),
                Err(e) => r == Err::<GpioValueIs, _>(
                    Error::Recoverable(RecoverableError::Deserialization(e)),
                ),
            },
    {
        match GpioValueIs::deserialize(packet) {
            Ok(reply) => Ok(reply),
            Err(e) => Err(Error::Recoverable(RecoverableError::Deserialization(e))),
        }
    }
}

/// What a reply on the way to a known chip tells.
pub enum InitGain {
    /// Nothing that is kept.
    Nothing,
    UniqueId(u64),
    Label(Seq<char>),
    Count(u8),
    Name(Seq<char>),
}

/// The request of a step, for a counter that stands at `seq`: the bytes, and the
/// sequence number that the reply must carry. The last step has no request.
pub open spec fn spec_init_request(step: InitStep, seq: u8) -> Option<(Seq<u8>, Option<u8>)> {
    let next = next_seq(seq);
    match step {
        InitStep::Version => Some((seq![HostCmd::GetVersion.spec_code(), 0u8], None)),
        InitStep::UniqueId => Some((seq![HostCmd::GetUniqueId.spec_code(), 1u8, next], Some(next))),
        InitStep::ChipLabel => Some(
            (seq![HostCmd::GetChipLabel.spec_code(), 1u8, next], Some(next)),
        ),
        InitStep::GpioCount => Some(
            (seq![HostCmd::GetGpioCount.spec_code(), 1u8, next], Some(next)),
        ),
        InitStep::GpioName(pin) => Some(
            (seq![HostCmd::GetGpioName.spec_code(), 2u8, next, pin], Some(next)),
        ),
        InitStep::GpioDirection(pin) => Some(
            (
                seq![
                    HostCmd::SetGpioDirection.spec_code(),
                    3u8,
                    next,
                    pin,
                    GpioDirection::Disabled.spec_code(),
                ],
                Some(next),
            ),
        ),
        InitStep::Done => None,
    }
}

/// What the reply to the request of a step tells, or why the chip cannot be brought
/// up. The secondary must speak this side's major version and must not give the
/// identifier that is kept for every chip.
pub open spec fn spec_init_reply(step: InitStep, packet: Seq<u8>) -> Result<InitGain, InitError> {
    match step {
        InitStep::Version => match VersionIs::spec_deserialize(packet) {
            Err(e) => Err(InitError::Deserialization(e)),
            Ok(reply) => if spec_version().compatible_with(reply.version) {
                Ok(InitGain::Nothing)
            } else {
                Err(InitError::Version(reply.version))
            },
        },
        InitStep::UniqueId => match UniqueIdIs::spec_deserialize(packet) {
            Err(e) => Err(InitError::Deserialization(e)),
            Ok(reply) => if reply.unique_id == UNIQUE_ID_ALL {
                Err(InitError::UniqueId)
            } else {
                Ok(InitGain::UniqueId(reply.unique_id))
            },
        },
        InitStep::ChipLabel => match spec_text_is(packet) {
            Err(e) => Err(InitError::Deserialization(e)),
            Ok(reply) => match reply.text {
                Err(e) => Err(InitError::Deserialization(e)),
                Ok(label) => Ok(InitGain::Label(label)),
            },
        },
        InitStep::GpioCount => match GpioCountIs::spec_deserialize(packet) {
            Err(e) => Err(InitError::Deserialization(e)),
            Ok(reply) => Ok(InitGain::Count(reply.count)),
        },
        InitStep::GpioName(_) => match spec_text_is(packet) {
            Err(e) => Err(InitError::Deserialization(e)),
            Ok(reply) => match reply.text {
                Err(e) => Err(InitError::Deserialization(e)),
                Ok(name) => Ok(InitGain::Name(name)),
            },
        },
        InitStep::GpioDirection(_) => Ok(InitGain::Nothing),
        InitStep::Done => Ok(InitGain::Nothing),
    }
}

/// Whether `after` is `before` with what a reply told added to it.
pub open spec fn gained(before: &Chip, after: &Chip, gain: InitGain) -> bool {
    match gain {
        InitGain::Nothing | InitGain::Count(_) => after == before,
        InitGain::UniqueId(unique_id) => {
            &&& after.unique_id == unique_id
            &&& after.label == before.label
            &&& after.gpio_names == before.gpio_names
        },
        InitGain::Label(label) => {
            &&& after.unique_id == before.unique_id
            &&& after.label@ == label
            &&& after.gpio_names == before.gpio_names
        },
        InitGain::Name(name) => {
            &&& after.unique_id == before.unique_id
            &&& after.label == before.label
            &&& names(after.gpio_names@) == names(before.gpio_names@).push(name)
        },
    }
}

impl Handle {
    /// Whether the chip is known and every pin disabled.
    pub fn initialized(&self) -> (r: bool)
        ensures
            r == (self.step() == InitStep::Done),
    {
        self.step == InitStep::Done
    }

    /// With the chip known, there is a name for every pin.
    pub proof fn lemma_names_complete(&self)
        requires
            self.wf(),
            self.step() == InitStep::Done,
        ensures
            self.chip().gpio_names@.len() == self.count(),
    {
    }

    /// The request of the step that the engine stands at, or nothing once the chip is
    /// known. The step stays until its reply is handed to `init_reply`.
    pub fn init_request(&mut self) -> (r: Option<Request>)
        ensures
            final(self).step() == old(self).step(),
            final(self).count() == old(self).count(),
            final(self).chip() == old(self).chip(),
            final(self).wf() == old(self).wf(),
            match spec_init_request(old(self).step(), old(self).seq()) {
                Some((packet, expected_seq)) => {
                    &&& r matches Some(request)
                    &&& request.packet@ == packet
                    &&& request.expected_seq == expected_seq
                    &&& final(self).seq() == match expected_seq {
                        Some(seq) => seq,
                        None => old(self).seq(),
                    }
                },
                None => r is None && final(self).seq() == old(self).seq(),
            },
    {
        match self.step {
            InitStep::Version => Some(self.get_gpio_version()),
            InitStep::UniqueId => Some(self.get_unique_id()),
            InitStep::ChipLabel => Some(self.get_chip_label()),
            InitStep::GpioCount => Some(self.get_gpio_count()),
            InitStep::GpioName(pin) => Some(self.get_gpio_name(pin)),
            InitStep::GpioDirection(pin) => Some(
                self.set_gpio_direction(pin, GpioDirection::Disabled),
            ),
            InitStep::Done => None,
        }
    }

    /// Takes the reply to the request of the step that the engine stands at, keeps what
    /// it tells and goes on to the next step. A reply that ends the attempt leaves the
    /// engine as it was.
    pub fn init_reply(&mut self, packet: &[u8]) -> (r: Result<(), InitError>)
        ensures
            old(self).wf() ==> final(self).wf(),
            final(self).seq() == old(self).seq(),
            match spec_init_reply(old(self).step(), packet@) {
                Err(e) => r == Err::<(), _>(e) && *final(self) == *old(self),
                Ok(gain) => {
                    &&& r is Ok
                    &&& gained(old(self).chip(), final(self).chip(), gain)
                    &&& final(self).count() == match gain {
                        InitGain::Count(count) => count,
                        _ => old(self).count(),
                    }
                    &&& final(self).step() == old(self).step().spec_next(final(self).count())
                },
            },
    {
        match self.step {
            InitStep::Version => {
                let reply = match VersionIs::deserialize(packet) {
                    Ok(reply) => reply,
                    Err(e) => {
                        return Err(InitError::Deserialization(e));
                    },
                };
                if !version().is_compatible_with(&reply.version) {
                    return Err(InitError::Version(reply.version));
                }
            },
            InitStep::UniqueId => {
                let reply = match UniqueIdIs::deserialize(packet) {
                    Ok(reply) => reply,
                    Err(e) => {
                        return Err(InitError::Deserialization(e));
                    },
                };
                if reply.unique_id == UNIQUE_ID_ALL {
                    return Err(InitError::UniqueId);
                }
                self.chip.unique_id = reply.unique_id;
            },
            InitStep::ChipLabel => {
                let reply = match ChipLabelIs::deserialize(packet) {
                    Ok(reply) => reply,
                    Err(e) => {
                        return Err(InitError::Deserialization(e));
                    },
                };
                match reply.chip_label {
                    Ok(label) => {
                        self.chip.label = label;
                    },
                    Err(e) => {
                        return Err(InitError::Deserialization(e));
                    },
                }
            },
            InitStep::GpioCount => {
                let reply = match GpioCountIs::deserialize(packet) {
                    Ok(reply) => reply,
                    Err(e) => {
                        return Err(InitError::Deserialization(e));
                    },
                };
                self.count = reply.count;
            },
            InitStep::GpioName(_) => {
                let reply = match GpioNameIs::deserialize(packet) {
                    Ok(reply) => reply,
                    Err(e) => {
                        return Err(InitError::Deserialization(e));
                    },
                };
                match reply.name {
                    Ok(name) => {
                        let ghost before = names(self.chip.gpio_names@);
                        self.chip.gpio_names.push(name);
                        assert(names(self.chip.gpio_names@) =~= before.push(name@));
                    },
                    Err(e) => {
                        return Err(InitError::Deserialization(e));
                    },
                }
            },
            InitStep::GpioDirection(_) => {},
            InitStep::Done => {},
        }
        self.step = self.step.next(self.count);
        Ok(())
    }
}

/// The sequence number of the `n`-th request after the counter stood at `seed`.
pub open spec fn seq_after(seed: u8, n: nat) -> u8
    decreases n,
{
    if n == 0 {
        seed
    } else {
        next_seq(seq_after(seed, (n - 1) as nat))
    }
}

/// Consecutive requests carry consecutive numbers modulo 256: the `n`-th request after
/// `seed` carries `seed + n`, reduced modulo 256.
pub proof fn lemma_seq_after(seed: u8, n: nat)
    ensures
        seq_after(seed, n) == (seed + n) % 256,
    decreases n,
{
    if n > 0 {
        lemma_seq_after(seed, (n - 1) as nat);
    }
}

/// From a counter at 0, the 257th request carries the number 1 again.
pub proof fn lemma_seq_wraps()
    ensures
        seq_after(0, 256) == 0,
        seq_after(0, 257) == 1,
{
    lemma_seq_after(0, 256);
    lemma_seq_after(0, 257);
}

} // verus!
