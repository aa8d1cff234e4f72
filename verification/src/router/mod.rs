//! What couples the two links: every request of the driver becomes an operation on the
//! secondary and its outcome a reply, and whatever ends the bridge takes the chip away
//! from the driver first.
//!
//! The router waits for nothing itself. It is told what happened and says what is to
//! be done.

pub mod adapter;

use crate::driver;
use crate::driver::spec_reply;
use crate::driver::Message;
use crate::gpio;
use crate::gpio::packet::GpioValueIs;
use crate::router::adapter::spec_verdict;
use crate::router::adapter::verdict;
use crate::utils::ProcessExit;
use crate::utils::Termination;
use vstd::prelude::*;
use vstd::std_specs::convert::FromSpec;
use vstd::string::StringExecFns;

verus! {

/// A pin that the secondary cannot have: its number does not fit into a byte.
#[derive(PartialEq, Eq, Structural, Copy, Clone, Debug)]
pub struct PinError {
    pub pin: u32,
}

/// The pin of a request of the driver as the secondary numbers it.
pub fn pin(gpio_pin: u32) -> (r: Result<u8, PinError>)
    ensures
        match r {
            Ok(number) => number == gpio_pin,
            Err(e) => gpio_pin > u8::MAX && e.pin == gpio_pin,
        },
{
    if gpio_pin > u8::MAX as u32 {
        Err(PinError { pin: gpio_pin })
    } else {
        Ok(gpio_pin as u8)
    }
}

/// An operation on the secondary.
#[derive(PartialEq, Eq, Structural, Copy, Clone, Debug)]
pub enum Operation {
    GetGpioValue { pin: u8 },
    SetGpioValue { pin: u8, value: gpio::packet::GpioValue },
    SetGpioConfig { pin: u8, config: gpio::packet::GpioConfig },
    SetGpioDirection { pin: u8, direction: gpio::packet::GpioDirection },
}

/// The operation that a request of the driver asks for, in the words of the
/// secondary. The announcement that the driver goes and a request for another bridge
/// ask for none.
pub open spec fn spec_operation(packet: driver::Request) -> Result<Option<Operation>, PinError> {
    match packet {
        driver::Request::Exit(_) => Ok(None),
        driver::Request::Discard => Ok(None),
        driver::Request::GetGpioValue(packet) => if packet.pin > u8::MAX {
            Err(PinError { pin: packet.pin })
        } else {
            Ok(Some(Operation::GetGpioValue { pin: packet.pin as u8 }))
        },
        driver::Request::SetGpioValue(packet) => if packet.pin > u8::MAX {
            Err(PinError { pin: packet.pin })
        } else {
            Ok(
                Some(
                    Operation::SetGpioValue {
                        pin: packet.pin as u8,
                        value: gpio::packet::GpioValue::from_spec(packet.value),
                    },
                ),
            )
        },
        driver::Request::SetGpioConfig(packet) => if packet.pin > u8::MAX {
            Err(PinError { pin: packet.pin })
        } else {
            Ok(
                Some(
                    Operation::SetGpioConfig {
                        pin: packet.pin as u8,
                        config: gpio::packet::GpioConfig::from_spec(packet.config),
                    },
                ),
            )
        },
        driver::Request::SetGpioDirection(packet) => if packet.pin > u8::MAX {
            Err(PinError { pin: packet.pin })
        } else {
            Ok(
                Some(
                    Operation::SetGpioDirection {
                        pin: packet.pin as u8,
                        direction: gpio::packet::GpioDirection::from_spec(packet.direction),
                    },
                ),
            )
        },
    }
}

/// Turns a request of the driver into the operation it asks for.
pub fn operation(packet: &driver::packet::Packet) -> (r: Result<Option<Operation>, PinError>)
    ensures
        r == spec_operation(packet@),
{
    match packet {
        driver::packet::Packet::Exit(_) => Ok(None),
        driver::packet::Packet::Discard => Ok(None),
        driver::packet::Packet::GetGpioValue(packet) => {
            let pin = pin(packet.pin)?;
            Ok(Some(Operation::GetGpioValue { pin }))
        },
        driver::packet::Packet::SetGpioValue(packet) => {
            let pin = pin(packet.pin)?;
            Ok(Some(Operation::SetGpioValue { pin, value: packet.value.into() }))
        },
        driver::packet::Packet::SetGpioConfig(packet) => {
            let pin = pin(packet.pin)?;
            Ok(Some(Operation::SetGpioConfig { pin, config: packet.config.into() }))
        },
        driver::packet::Packet::SetGpioDirection(packet) => {
            let pin = pin(packet.pin)?;
            Ok(Some(Operation::SetGpioDirection { pin, direction: packet.direction.into() }))
        },
    }
}

/// A message for another bridge asks for nothing: no operation follows from it, and
/// so no reply.
pub proof fn lemma_foreign_is_silent(unique_id: u64, packet: driver::Content, destination: u64)
    requires
        driver::spec_u64(packet.attrs, driver::packet::Attribute::UniqueId) == Ok::<
            _,
            driver::AttrError,
        >(destination),
        destination != driver::GENL_MULTICAST_UID_ALL,
        destination != unique_id,
    ensures
        driver::spec_parse(unique_id, packet) matches Ok(request) && spec_operation(request)
            == Ok::<_, PinError>(None::<Operation>),
{
}

/// What the router does once an operation has ended.
#[derive(PartialEq, Eq, Debug)]
pub struct Answer {
    /// The reply to the driver, if one is sent.
    pub reply: Option<Message>,
    /// Whether the bridge shuts down.
    pub escalate: bool,
}

/// Whether `answer` is the answer to a request on `gpio_pin`: with a status it carries
/// the reply with that status, the pin as the request named it and the level where one
/// was read, and without a status it carries no reply.
pub open spec fn answers(
    answer: Answer,
    cmd: driver::packet::Command,
    unique_id: u64,
    gpio_pin: u32,
    gpio_value: Option<u32>,
    status: Option<driver::packet::Status>,
    escalate: bool,
) -> bool {
    &&& answer.escalate == escalate
    &&& match status {
        Some(status) => answer.reply matches Some(reply) && reply@ == spec_reply(
            cmd,
            unique_id,
            gpio_pin,
            gpio_value,
            status,
        ),
        None => answer.reply is None,
    }
}

/// The level that was read, and the status that goes with a reply of the secondary:
/// success with the level, or unknown without one where the byte of the level is the
/// code of none.
pub open spec fn spec_level(reply: GpioValueIs) -> (Option<u32>, driver::packet::Status) {
    match reply.value {
        Ok(value) => (Some(value.spec_code() as u32), driver::packet::Status::Success),
        Err(_) => (None, driver::packet::Status::Unknown),
    }
}

/// Answers a request for the level of a pin, once the secondary was asked.
pub fn on_gpio_get_value(
    driver: &driver::Handle,
    packet: &driver::packet::GetGpioValue,
    outcome: &Result<GpioValueIs, gpio::Error>,
) -> (r: Answer)
    ensures
        match outcome {
            Ok(reply) => answers(
                r,
                driver::packet::Command::GetGpioValue,
                driver.unique_id,
                packet.pin,
                spec_level(*reply).0,
                Some(spec_level(*reply).1),
                false,
            ),
            Err(err) => answers(
                r,
                driver::packet::Command::GetGpioValue,
                driver.unique_id,
                packet.pin,
                None,
                spec_verdict(*err).status,
                spec_verdict(*err).escalate,
            ),
        },
{
    let (value, status, escalate) = match outcome {
        Ok(gpio_value) => match gpio_value.value {
            Ok(value) => (Some(value.code() as u32), Some(driver::packet::Status::Success), false),
            Err(_) => (None, Some(driver::packet::Status::Unknown), false),
        },
        Err(err) => {
            let verdict = verdict(err);
            (None, verdict.status, verdict.escalate)
        },
    };

    Answer { reply: driver.get_gpio_value_reply(packet.pin, value, status), escalate }
}

/// The status and the escalation that go with the outcome of an operation that reads
/// nothing.
pub open spec fn spec_done(outcome: Result<(), gpio::Error>) -> adapter::Verdict {
    match outcome {
        Ok(_) => adapter::Verdict {
            status: Some(driver::packet::Status::Success),
            escalate: false,
        },
        Err(err) => spec_verdict(err),
    }
}

fn done(outcome: &Result<(), gpio::Error>) -> (r: adapter::Verdict)
    ensures
        r == spec_done(*outcome),
{
    match outcome {
        Ok(_) => adapter::Verdict {
            status: Some(driver::packet::Status::Success),
            escalate: false,
        },
        Err(err) => verdict(err),
    }
}

/// Answers a request that set the level of a pin, once the secondary was told.
pub fn on_gpio_set_value(
    driver: &driver::Handle,
    packet: &driver::packet::SetGpioValue,
    outcome: &Result<(), gpio::Error>,
) -> (r: Answer)
    ensures
        answers(
            r,
            driver::packet::Command::SetGpioValue,
            driver.unique_id,
            packet.pin,
            None,
            spec_done(*outcome).status,
            spec_done(*outcome).escalate,
        ),
{
    let verdict = done(outcome);

    Answer {
        reply: driver.set_gpio_value_reply(packet.pin, verdict.status),
        escalate: verdict.escalate,
    }
}

/// Answers a request that set the configuration of a pin, once the secondary was told.
pub fn on_gpio_set_config(
    driver: &driver::Handle,
    packet: &driver::packet::SetGpioConfig,
    outcome: &Result<(), gpio::Error>,
) -> (r: Answer)
    ensures
        answers(
            r,
            driver::packet::Command::SetGpioConfig,
            driver.unique_id,
            packet.pin,
            None,
            spec_done(*outcome).status,
            spec_done(*outcome).escalate,
        ),
{
    let verdict = done(outcome);

    Answer {
        reply: driver.set_gpio_config_reply(packet.pin, verdict.status),
        escalate: verdict.escalate,
    }
}

/// Answers a request that set the direction of a pin, once the secondary was told.
pub fn on_gpio_set_direction(
    driver: &driver::Handle,
    packet: &driver::packet::SetGpioDirection,
    outcome: &Result<(), gpio::Error>,
) -> (r: Answer)
    ensures
        answers(
            r,
            driver::packet::Command::SetGpioDirection,
            driver.unique_id,
            packet.pin,
            None,
            spec_done(*outcome).status,
            spec_done(*outcome).escalate,
        ),
{
    let verdict = done(outcome);

    Answer {
        reply: driver.set_gpio_direction_reply(packet.pin, verdict.status),
        escalate: verdict.escalate,
    }
}

/// A signal that reached the process.
#[derive(PartialEq, Eq, Structural, Copy, Clone, Debug)]
pub enum Signal {
    Interrupt,
    Terminate,
    User1,
    /// Any signal that the bridge does not end on.
    Other,
}

impl Signal {
    /// Whether the bridge ends on the signal.
    pub open spec fn spec_ends(self) -> bool {
        self != Signal::Other
    }

    /// The name of the signal, as it is logged.
    pub open spec fn spec_name(self) -> Seq<char> {
        match self {
            Signal::Interrupt => "Interrupt"@,
            Signal::Terminate => "Terminate"@,
            Signal::User1 => "User1"@,
            Signal::Other => "Other"@,
        }
    }

    /// The name of the signal, as it is logged.
    pub fn name(self) -> (r: &'static str)
        ensures
            r@ == self.spec_name(),
    {
        match self {
            Signal::Interrupt => "Interrupt",
            Signal::Terminate => "Terminate",
            Signal::User1 => "User1",
            Signal::Other => "Other",
        }
    }
}

/// What an exit is logged with: what caused it, and behind it why the chip could not
/// be taken away from the driver, if it could not.
pub open spec fn spec_context(cause: Seq<char>, deinit: Result<(), String>) -> Seq<char> {
    match deinit {
        Ok(_) => cause,
        Err(err) => cause + ", "@ + err@,
    }
}

/// Writes what an exit is logged with.
fn context(cause: &str, deinit: &Result<(), String>) -> (r: String)
    ensures
        r@ == spec_context(cause@, *deinit),
{
    let mut context = String::from_str(cause);
    if let Err(err) = deinit {
        context.append(", ");
        context.append(err.as_str());
    }
    context
}

/// The end of a bridge whose reader of the secondary has died: a failure, whatever
/// became of taking the chip away.
pub fn on_gpio_thread_exit(exit: &str, deinit: &Result<(), String>) -> (r: Termination)
    ensures
        r is Failure,
        r.context() == spec_context(exit@, *deinit),
{
    Termination::Failure(context(exit, deinit))
}

/// The end of a bridge whose reader of the driver has died: a failure, whatever became
/// of taking the chip away.
pub fn on_driver_thread_exit(exit: &str, deinit: &Result<(), String>) -> (r: Termination)
    ensures
        r is Failure,
        r.context() == spec_context(exit@, *deinit),
{
    Termination::Failure(context(exit, deinit))
}

/// The end of a bridge whose router has given up: a failure, whatever became of
/// taking the chip away.
pub fn on_router_thread_exit(exit: &str, deinit: &Result<(), String>) -> (r: Termination)
    ensures
        r is Failure,
        r.context() == spec_context(exit@, *deinit),
{
    Termination::Failure(context(exit, deinit))
}

/// The end of a bridge whose driver announced that it goes: a clean one, whatever
/// became of taking the chip away.
pub fn on_driver_unload_exit(exit: &str, deinit: &Result<(), String>) -> (r: Termination)
    ensures
        r is Clean,
        r.context() == spec_context(exit@, *deinit),
{
    Termination::Clean(ProcessExit::Context(context(exit, deinit)))
}

/// The end of a bridge that was told to end by a signal: a clean one if the chip was
/// taken away, a failure if it could not be.
pub fn on_signal_exit(signal: Signal, deinit: &Result<(), String>) -> (r: Termination)
    ensures
        r is Clean <==> deinit is Ok,
        r.context() == spec_context("Received signal: "@ + signal.spec_name(), *deinit),
{
    let mut cause = String::from_str("Received signal: ");
    cause.append(signal.name());
    if deinit.is_err() {
        Termination::Failure(context(cause.as_str(), deinit))
    } else {
        Termination::Clean(ProcessExit::Context(cause))
    }
}

/// What the loop of the bridge saw.
#[derive(PartialEq, Eq, Debug)]
pub enum Event {
    /// A signal reached the process.
    Signal(Signal),
    /// The reader of the secondary has died and left these words.
    GpioThreadExit(String),
    /// The reader of the driver has died and left these words.
    DriverThreadExit(String),
    /// The router has given up and left these words.
    RouterThreadExit(String),
    /// The driver announced that it goes, with these words.
    DriverUnloadExit(String),
    /// The attempt to take the chip away from the driver has ended.
    Deinit(Result<(), String>),
}

impl Event {
    /// Whether the event ends the bridge: a signal that the bridge ends on does, and
    /// so does the death of a reader, the router giving up and the driver's
    /// announcement that it goes.
    pub open spec fn ends(self) -> bool {
        match self {
            Event::Signal(signal) => signal.spec_ends(),
            Event::Deinit(_) => false,
            _ => true,
        }
    }
}

/// What the loop of the bridge is to do.
#[derive(PartialEq, Eq, Debug)]
pub enum Action {
    /// Go on.
    Nothing,
    /// Try to take the chip with this identifier away from the driver, and tell how it
    /// went.
    Deinit(u64),
    /// End the process.
    Exit(Termination),
}

/// What ended the bridge.
#[derive(PartialEq, Eq, Debug)]
pub enum Cause {
    /// A signal, with the signal.
    Signal(Signal),
    /// The death of the reader of the secondary, with the words it left.
    GpioThread(String),
    /// The death of the reader of the driver, with the words it left.
    DriverThread(String),
    /// The router giving up, with the words it left.
    RouterThread(String),
    /// The driver's announcement that it goes, with its words.
    DriverUnload(String),
}

impl Event {
    /// The cause that the event is, if it ends the bridge.
    pub open spec fn cause(self) -> Option<Cause> {
        match self {
            Event::Signal(signal) => if signal.spec_ends() {
                Some(Cause::Signal(signal))
            } else {
                None
            },
            Event::GpioThreadExit(exit) => Some(Cause::GpioThread(exit)),
            Event::DriverThreadExit(exit) => Some(Cause::DriverThread(exit)),
            Event::RouterThreadExit(exit) => Some(Cause::RouterThread(exit)),
            Event::DriverUnloadExit(exit) => Some(Cause::DriverUnload(exit)),
            Event::Deinit(_) => None,
        }
    }
}

/// How far the bridge is on its way out.
#[derive(PartialEq, Eq, Debug)]
pub enum State {
    Running,
    /// Something has ended the bridge, and the attempt to take the chip away is under
    /// way.
    Stopping(Cause),
    Stopped,
}

/// The three stages of the way out, without what caused it.
#[derive(PartialEq, Eq, Structural, Copy, Clone, Debug)]
pub enum Stage {
    Running,
    Stopping,
    Stopped,
}

/// The three kinds of action, without what they carry.
#[derive(PartialEq, Eq, Structural, Copy, Clone, Debug)]
pub enum Deed {
    Nothing,
    Deinit,
    Exit,
}

impl State {
    pub open spec fn stage(self) -> Stage {
        match self {
            State::Running => Stage::Running,
            State::Stopping(_) => Stage::Stopping,
            State::Stopped => Stage::Stopped,
        }
    }
}

impl Action {
    pub open spec fn deed(self) -> Deed {
        match self {
            Action::Nothing => Deed::Nothing,
            Action::Deinit(_) => Deed::Deinit,
            Action::Exit(_) => Deed::Exit,
        }
    }
}

/// The stage after an event, and the kind of action that the event calls for. A
/// running bridge answers what ends it with the attempt to take the chip away. A
/// stopping bridge answers the end of that attempt with its exit. Nothing else has any
/// effect.
pub open spec fn spec_step(stage: Stage, event: Event) -> (Stage, Deed) {
    match stage {
        Stage::Running => if event.ends() {
            (Stage::Stopping, Deed::Deinit)
        } else {
            (Stage::Running, Deed::Nothing)
        },
        Stage::Stopping => if event is Deinit {
            (Stage::Stopped, Deed::Exit)
        } else {
            (Stage::Stopping, Deed::Nothing)
        },
        Stage::Stopped => (Stage::Stopped, Deed::Nothing),
    }
}

/// Whether the ending is the one that goes with what ended the bridge and with what
/// became of taking the chip away. After the driver's announcement the end is clean;
/// after a signal it is clean if the chip was taken away; after anything else it is a
/// failure. What became of taking the chip away is added to the words of the cause, it
/// never takes their place.
pub open spec fn ends_with(cause: Cause, deinit: Result<(), String>, end: Termination) -> bool {
    match cause {
        Cause::Signal(signal) => (end is Clean <==> deinit is Ok) && end.context()
            == spec_context("Received signal: "@ + signal.spec_name(), deinit),
        Cause::GpioThread(exit) => end is Failure && end.context() == spec_context(exit@, deinit),
        Cause::DriverThread(exit) => end is Failure && end.context() == spec_context(
            exit@,
            deinit,
        ),
        Cause::RouterThread(exit) => end is Failure && end.context() == spec_context(
            exit@,
            deinit,
        ),
        Cause::DriverUnload(exit) => end is Clean && end.context() == spec_context(exit@, deinit),
    }
}

/// The way of one bridge out of its loop.
#[derive(PartialEq, Eq, Debug)]
pub struct Router {
    unique_id: u64,
    state: State,
}

impl Router {
    /// The identifier of the chip that the bridge registered.
    pub closed spec fn unique_id(&self) -> u64 {
        self.unique_id
    }

    /// How far the bridge is on its way out.
    pub closed spec fn state(&self) -> State {
        self.state
    }

    /// A bridge that runs.
    pub fn new(unique_id: u64) -> (r: Self)
        ensures
            r.unique_id() == unique_id,
            r.state() == State::Running,
    {
        Self { unique_id, state: State::Running }
    }

    /// Whether the bridge has ended.
    pub fn stopped(&self) -> (r: bool)
        ensures
            r == (self.state().stage() == Stage::Stopped),
    {
        match self.state {
            State::Stopped => true,
            _ => false,
        }
    }

    /// Takes an event and says what is to be done.
    pub fn on_event(&mut self, event: Event) -> (r: Action)
        ensures
            final(self).unique_id() == old(self).unique_id(),
            final(self).state().stage() == spec_step(old(self).state().stage(), event).0,
            r.deed() == spec_step(old(self).state().stage(), event).1,
            match r {
                Action::Nothing => final(self).state() == old(self).state(),
                Action::Deinit(unique_id) => {
                    &&& unique_id == old(self).unique_id()
                    &&& event.cause() matches Some(cause)
                    &&& final(self).state() == State::Stopping(cause)
                },
                Action::Exit(end) => {
                    &&& old(self).state() matches State::Stopping(cause)
                    &&& event matches Event::Deinit(deinit)
                    &&& ends_with(cause, deinit, end)
                },
            },
    {
        match &self.state {
            State::Running => {
                let cause = match event {
                    Event::Signal(signal) => match signal {
                        Signal::Interrupt | Signal::Terminate | Signal::User1 => Some(
                            Cause::Signal(signal),
                        ),
                        Signal::Other => None,
                    },
                    Event::GpioThreadExit(exit) => Some(Cause::GpioThread(exit)),
                    Event::DriverThreadExit(exit) => Some(Cause::DriverThread(exit)),
                    Event::RouterThreadExit(exit) => Some(Cause::RouterThread(exit)),
                    Event::DriverUnloadExit(exit) => Some(Cause::DriverUnload(exit)),
                    Event::Deinit(_) => None,
                };
                match cause {
                    Some(cause) => {
                        self.state = State::Stopping(cause);
                        Action::Deinit(self.unique_id)
                    },
                    None => Action::Nothing,
                }
            },
            State::Stopping(cause) => {
                if let Event::Deinit(deinit) = &event {
                    let end = match cause {
                        Cause::Signal(signal) => on_signal_exit(*signal, deinit),
                        Cause::GpioThread(exit) => on_gpio_thread_exit(exit.as_str(), deinit),
                        Cause::DriverThread(exit) => on_driver_thread_exit(exit.as_str(), deinit),
                        Cause::RouterThread(exit) => on_router_thread_exit(exit.as_str(), deinit),
                        Cause::DriverUnload(exit) => on_driver_unload_exit(exit.as_str(), deinit),
                    };
                    self.state = State::Stopped;
                    Action::Exit(end)
                } else {
                    Action::Nothing
                }
            },
            State::Stopped => Action::Nothing,
        }
    }
}

/// The kinds of action that a run of events calls for, from a stage on.
pub open spec fn spec_run(stage: Stage, events: Seq<Event>) -> Seq<Deed>
    decreases events.len(),
{
    if events.len() == 0 {
        Seq::empty()
    } else {
        let (next, deed) = spec_step(stage, events[0]);
        seq![deed] + spec_run(next, events.skip(1))
    }
}

/// How often a kind of action stands in a run.
pub open spec fn count(deeds: Seq<Deed>, deed: Deed) -> nat
    decreases deeds.len(),
{
    if deeds.len() == 0 {
        0
    } else {
        (if deeds[0] == deed {
            1nat
        } else {
            0nat
        }) + count(deeds.skip(1), deed)
    }
}

/// Whatever happens, the chip is taken away once and before the exit. In any run of
/// events a running bridge tries at most once to take the chip away and exits at most
/// once, and where it exits it has tried. What ends a running bridge is answered with
/// the attempt at once.
pub proof fn lemma_one_deinit(stage: Stage, events: Seq<Event>)
    ensures
        count(spec_run(stage, events), Deed::Exit) <= 1,
        stage == Stage::Running ==> count(spec_run(stage, events), Deed::Deinit) <= 1 && count(
            spec_run(stage, events),
            Deed::Exit,
        ) <= count(spec_run(stage, events), Deed::Deinit),
        stage != Stage::Running ==> count(spec_run(stage, events), Deed::Deinit) == 0,
        stage == Stage::Stopped ==> count(spec_run(stage, events), Deed::Exit) == 0,
        stage == Stage::Running && events.len() > 0 && events[0].ends() ==> spec_run(
            stage,
            events,
        )[0] == Deed::Deinit,
    decreases events.len(),
{
    if events.len() > 0 {
        let (next, deed) = spec_step(stage, events[0]);
        let rest = spec_run(next, events.skip(1));
        lemma_one_deinit(next, events.skip(1));
        assert((seq![deed] + rest).skip(1) =~= rest);
    }
}

/// An exit is never the first thing: in a run from a running bridge, an attempt to
/// take the chip away stands before every exit.
pub proof fn lemma_deinit_before_exit(events: Seq<Event>, at: int)
    requires
        0 <= at < events.len(),
        spec_run(Stage::Running, events)[at] == Deed::Exit,
    ensures
        exists|before: int|
            0 <= before < at && spec_run(Stage::Running, events)[before] == Deed::Deinit,
{
    lemma_run_len(Stage::Running, events);
    lemma_exit_needs_deinit(Stage::Running, events, at);
}

/// A run has one action for every event.
pub proof fn lemma_run_len(stage: Stage, events: Seq<Event>)
    ensures
        spec_run(stage, events).len() == events.len(),
    decreases events.len(),
{
    if events.len() > 0 {
        lemma_run_len(spec_step(stage, events[0]).0, events.skip(1));
    }
}

proof fn lemma_exit_needs_deinit(stage: Stage, events: Seq<Event>, at: int)
    requires
        0 <= at < events.len(),
        spec_run(stage, events)[at] == Deed::Exit,
        stage == Stage::Running,
    ensures
        exists|before: int| 0 <= before < at && spec_run(stage, events)[before] == Deed::Deinit,
    decreases events.len(),
{
    lemma_run_len(stage, events);
    let (next, deed) = spec_step(stage, events[0]);
    let rest = spec_run(next, events.skip(1));
    lemma_run_len(next, events.skip(1));
    assert(spec_run(stage, events) =~= seq![deed] + rest);
    if deed == Deed::Deinit {
        assert(at != 0);
        assert(spec_run(stage, events)[0] == Deed::Deinit);
    } else {
        assert(next == Stage::Running);
        assert(at > 0);
        assert(rest[at - 1] == spec_run(stage, events)[at]);
        lemma_exit_needs_deinit(next, events.skip(1), at - 1);
        let before = choose|before: int|
            0 <= before < at - 1 && spec_run(next, events.skip(1))[before] == Deed::Deinit;
        assert(spec_run(stage, events)[before + 1] == Deed::Deinit);
    }
}

} // verus!
