//! Values shared by every part of the bridge: the version triple, the tracing options,
//! numbers as decimal text, and the two ways in which the process ends.

use vstd::prelude::*;
use vstd::string::StringExecFns;

verus! {

/// A `major.minor.patch` version of one of the bridge's two protocols.
#[derive(Debug, Copy, Clone, PartialEq, Eq, Structural)]
pub struct Version {
    pub major: u8,
    pub minor: u8,
    pub patch: u8,
}

impl Version {
    /// Two peers can talk to each other exactly when their major versions are equal.
    pub open spec fn compatible_with(self, peer: Version) -> bool {
        self.major == peer.major
    }

    /// Tests the compatibility rule against the version a peer announced.
    pub fn is_compatible_with(&self, peer: &Version) -> (r: bool)
        ensures
            r == self.compatible_with(*peer),
    {
        self.major == peer.major
    }

    /// The version as it is written: the three numbers in decimal, with dots between
    /// them.
    pub open spec fn spec_text(self) -> Seq<char> {
        spec_decimal(self.major as u64) + "."@ + spec_decimal(self.minor as u64) + "."@
            + spec_decimal(self.patch as u64)
    }

    /// Writes the version out.
    pub fn text(&self) -> (r: String)
        ensures
            r@ == self.spec_text(),
    {
        let mut text = decimal(self.major as u64);
        text.append(".");
        text.append(decimal(self.minor as u64).as_str());
        text.append(".");
        text.append(decimal(self.patch as u64).as_str());
        text
    }
}

/// What the operator asked to have traced.
#[derive(Copy, Clone, PartialEq, Eq, Structural, Debug)]
pub enum Trace {
    Off,
    Bridge,
    Libcpc,
    All,
}

/// Options of one bridge process.
#[derive(PartialEq, Eq, Debug)]
pub struct Config {
    /// Enable tracing
    pub trace: Trace,
    /// Name of the cpcd instance
    pub instance: String,
    /// Bridge lock directory
    pub lock_dir: String,
    /// Deinit gpio chip and exit process
    pub deinit: bool,
}

/// The verbosity of the bridge's own log.
#[derive(Copy, Clone, PartialEq, Eq, Structural, Debug)]
pub enum LevelFilter {
    Info,
    Debug,
}

/// The tracing that follows from a `Trace` option: the level of the bridge's own log
/// and whether the transport library traces too.
#[derive(PartialEq, Eq, Debug)]
pub struct TraceConfig {
    pub bridge: LevelFilter,
    pub libcpc: bool,
}

/// The level of the bridge's log under a `Trace` option.
pub open spec fn bridge_level(trace: Trace) -> LevelFilter {
    match trace {
        Trace::Bridge | Trace::All => LevelFilter::Debug,
        Trace::Off | Trace::Libcpc => LevelFilter::Info,
    }
}

/// Whether the transport library traces under a `Trace` option.
pub open spec fn libcpc_traced(trace: Trace) -> bool {
    trace == Trace::Libcpc || trace == Trace::All
}

/// Derives the tracing configuration from the options.
pub fn trace(config: &Config) -> (r: TraceConfig)
    ensures
        r.bridge == bridge_level(config.trace),
        r.libcpc == libcpc_traced(config.trace),
{
    let mut trace_config = TraceConfig { bridge: LevelFilter::Info, libcpc: false };

    match config.trace {
        Trace::Off => (),
        Trace::Bridge => {
            trace_config.bridge = LevelFilter::Debug;
        },
        Trace::Libcpc => {
            trace_config.libcpc = true;
        },
        Trace::All => {
            trace_config.bridge = LevelFilter::Debug;
            trace_config.libcpc = true;
        },
    }

    trace_config
}

/// The sentinel of a clean exit: a process that ends with it ends with status 0.
#[derive(PartialEq, Eq, Debug)]
pub enum ProcessExit {
    Context(String),
}

/// The character that stands for a digit.
pub open spec fn spec_digit(digit: u64) -> char {
    if digit == 0 {
        '0'
    } else if digit == 1 {
        '1'
    } else if digit == 2 {
        '2'
    } else if digit == 3 {
        '3'
    } else if digit == 4 {
        '4'
    } else if digit == 5 {
        '5'
    } else if digit == 6 {
        '6'
    } else if digit == 7 {
        '7'
    } else if digit == 8 {
        '8'
    } else {
        '9'
    }
}

/// A number in decimal digits, without leading zeros.
pub open spec fn spec_decimal(number: u64) -> Seq<char>
    decreases number,
{
    if number < 10 {
        seq![spec_digit(number)]
    } else {
        spec_decimal(number / 10).push(spec_digit(number % 10))
    }
}

fn digit(value: u64) -> (r: &'static str)
    requires
        value < 10,
    ensures
        r@ == seq![spec_digit(value)],
{
    proof {
        reveal_strlit("0");
        reveal_strlit("1");
        reveal_strlit("2");
        reveal_strlit("3");
        reveal_strlit("4");
        reveal_strlit("5");
        reveal_strlit("6");
        reveal_strlit("7");
        reveal_strlit("8");
        reveal_strlit("9");
    }
    let text = match value {
        0 => "0",
        1 => "1",
        2 => "2",
        3 => "3",
        4 => "4",
        5 => "5",
        6 => "6",
        7 => "7",
        8 => "8",
        _ => "9",
    };
    assert(text@ =~= seq![spec_digit(value)]);
    text
}

/// Writes a number in decimal digits.
pub fn decimal(number: u64) -> (r: String)
    ensures
        r@ == spec_decimal(number),
    decreases number,
{
    if number < 10 {
        String::from_str(digit(number))
    } else {
        let mut text = decimal(number / 10);
        text.append(digit(number % 10));
        text
    }
}

/// The value of a decimal digit, if the character is one.
pub open spec fn spec_digit_value(digit: char) -> Option<nat> {
    if '0' <= digit <= '9' {
        Some((digit as u32 - '0' as u32) as nat)
    } else {
        None
    }
}

/// The number that decimal digits spell. Nothing but digits spells a number, and no
/// digits spell none.
pub open spec fn spec_digits(digits: Seq<char>) -> Option<nat>
    decreases digits.len(),
{
    if digits.len() == 0 {
        None
    } else {
        match spec_digit_value(digits.last()) {
            None => None,
            Some(unit) => if digits.len() == 1 {
                Some(unit)
            } else {
                match spec_digits(digits.drop_last()) {
                    None => None,
                    Some(tens) => Some(10 * tens + unit),
                }
            },
        }
    }
}

/// The 64-bit number that a text spells: decimal digits, with or without a `+` before
/// them, whose number fits into 64 bits.
pub open spec fn spec_number(text: Seq<char>) -> Option<u64> {
    let digits = if text.len() > 0 && text[0] == '+' {
        text.skip(1)
    } else {
        text
    };
    match spec_digits(digits) {
        Some(number) => if number <= u64::MAX {
            Some(number as u64)
        } else {
            None
        },
        None => None,
    }
}

/// A number that is written in decimal digits is read back as itself.
pub proof fn lemma_decimal_is_read_back(number: u64)
    ensures
        spec_digits(spec_decimal(number)) == Some(number as nat),
        spec_decimal(number).len() > 0,
        spec_decimal(number)[0] != '+',
        spec_number(spec_decimal(number)) == Some(number),
    decreases number,
{
    if number >= 10 {
        lemma_decimal_is_read_back(number / 10);
        let digits = spec_decimal(number);
        assert(digits.drop_last() =~= spec_decimal(number / 10));
        assert(digits.last() == spec_digit(number % 10));
        assert(digits[0] == spec_decimal(number / 10)[0]);
    }
}

/// How the process ends.
#[derive(PartialEq, Eq, Debug)]
pub enum Termination {
    /// As intended: with the sentinel, and with status 0.
    Clean(ProcessExit),
    /// On a failure: with what went wrong, and with status 1.
    Failure(String),
}

impl Termination {
    /// The exit status that goes with the ending.
    pub open spec fn spec_exit_code(&self) -> i32 {
        match self {
            Termination::Clean(_) => 0,
            Termination::Failure(_) => 1,
        }
    }

    /// What is logged as the process ends.
    pub open spec fn context(&self) -> Seq<char> {
        match self {
            Termination::Clean(ProcessExit::Context(context)) => context@,
            Termination::Failure(context) => context@,
        }
    }

    /// The exit status that goes with the ending.
    #[verifier::when_used_as_spec(spec_exit_code)]
    pub fn exit_code(&self) -> (r: i32)
        ensures
            r == self.spec_exit_code(),
    {
        match self {
            Termination::Clean(_) => 0,
            Termination::Failure(_) => 1,
        }
    }
}

} // verus!
