//! How the words of the secondary are put into the words of the kernel driver, and
//! those of the driver into those of the secondary.

use crate::driver;
use crate::gpio;
use vstd::prelude::*;
use vstd::std_specs::convert::FromSpecImpl;

verus! {

/// A status of the secondary in the driver's words. A pin that the secondary does not
/// have is a fault of the protocol; every other status keeps its name.
pub open spec fn spec_status(status: gpio::packet::Status) -> driver::packet::Status {
    match status {
        gpio::packet::Status::Success => driver::packet::Status::Success,
        gpio::packet::Status::NotSupported => driver::packet::Status::NotSupported,
        gpio::packet::Status::InvalidPin => driver::packet::Status::ProtocolError,
        gpio::packet::Status::Unknown => driver::packet::Status::Unknown,
    }
}

impl From<gpio::packet::Status> for driver::packet::Status {
    fn from(status: gpio::packet::Status) -> (r: Self) {
        match status {
            gpio::packet::Status::Success => driver::packet::Status::Success,
            gpio::packet::Status::NotSupported => driver::packet::Status::NotSupported,
            gpio::packet::Status::InvalidPin => driver::packet::Status::ProtocolError,
            gpio::packet::Status::Unknown => driver::packet::Status::Unknown,
        }
    }
}

impl FromSpecImpl<gpio::packet::Status> for driver::packet::Status {
    open spec fn obeys_from_spec() -> bool {
        true
    }

    open spec fn from_spec(status: gpio::packet::Status) -> Self {
        spec_status(status)
    }
}

impl From<driver::packet::GpioValue> for gpio::packet::GpioValue {
    fn from(value: driver::packet::GpioValue) -> (r: Self) {
        match value {
            driver::packet::GpioValue::Low => gpio::packet::GpioValue::Low,
            driver::packet::GpioValue::High => gpio::packet::GpioValue::High,
        }
    }
}

impl FromSpecImpl<driver::packet::GpioValue> for gpio::packet::GpioValue {
    open spec fn obeys_from_spec() -> bool {
        true
    }

    open spec fn from_spec(value: driver::packet::GpioValue) -> Self {
        match value {
            driver::packet::GpioValue::Low => gpio::packet::GpioValue::Low,
            driver::packet::GpioValue::High => gpio::packet::GpioValue::High,
        }
    }
}

impl From<driver::packet::GpioDirection> for gpio::packet::GpioDirection {
    fn from(direction: driver::packet::GpioDirection) -> (r: Self) {
        match direction {
            driver::packet::GpioDirection::Input => gpio::packet::GpioDirection::Input,
            driver::packet::GpioDirection::Output => gpio::packet::GpioDirection::Output,
            driver::packet::GpioDirection::Disabled => gpio::packet::GpioDirection::Disabled,
        }
    }
}

impl FromSpecImpl<driver::packet::GpioDirection> for gpio::packet::GpioDirection {
    open spec fn obeys_from_spec() -> bool {
        true
    }

    open spec fn from_spec(direction: driver::packet::GpioDirection) -> Self {
        match direction {
            driver::packet::GpioDirection::Input => gpio::packet::GpioDirection::Input,
            driver::packet::GpioDirection::Output => gpio::packet::GpioDirection::Output,
            driver::packet::GpioDirection::Disabled => gpio::packet::GpioDirection::Disabled,
        }
    }
}

impl From<driver::packet::GpioConfig> for gpio::packet::GpioConfig {
    fn from(config: driver::packet::GpioConfig) -> (r: Self) {
        match config {
            driver::packet::GpioConfig::BiasDisable => gpio::packet::GpioConfig::BiasDisable,
            driver::packet::GpioConfig::BiasPullDown => gpio::packet::GpioConfig::BiasPullDown,
            driver::packet::GpioConfig::BiasPullUp => gpio::packet::GpioConfig::BiasPullUp,
            driver::packet::GpioConfig::DriveOpenDrain => gpio::packet::GpioConfig::DriveOpenDrain,
            driver::packet::GpioConfig::DriveOpenSource => gpio::packet::GpioConfig::DriveOpenSource,
            driver::packet::GpioConfig::DrivePushPull => gpio::packet::GpioConfig::DrivePushPull,
        }
    }
}

impl FromSpecImpl<driver::packet::GpioConfig> for gpio::packet::GpioConfig {
    open spec fn obeys_from_spec() -> bool {
        true
    }

    open spec fn from_spec(config: driver::packet::GpioConfig) -> Self {
        match config {
            driver::packet::GpioConfig::BiasDisable => gpio::packet::GpioConfig::BiasDisable,
            driver::packet::GpioConfig::BiasPullDown => gpio::packet::GpioConfig::BiasPullDown,
            driver::packet::GpioConfig::BiasPullUp => gpio::packet::GpioConfig::BiasPullUp,
            driver::packet::GpioConfig::DriveOpenDrain => gpio::packet::GpioConfig::DriveOpenDrain,
            driver::packet::GpioConfig::DriveOpenSource => gpio::packet::GpioConfig::DriveOpenSource,
            driver::packet::GpioConfig::DrivePushPull => gpio::packet::GpioConfig::DrivePushPull,
        }
    }
}

/// What the driver is told of a request that failed, and whether the failure ends the
/// bridge.
#[derive(PartialEq, Eq, Structural, Copy, Clone, Debug)]
pub struct Verdict {
    /// The status of the reply, or nothing where no reply is sent.
    pub status: Option<driver::packet::Status>,
    /// Whether the failure goes on to shut the bridge down.
    pub escalate: bool,
}

/// The verdict on a failure. A status of the secondary is passed on in the driver's
/// words, and a packet that could not be written or read is a fault of the protocol:
/// the bridge goes on. A timeout is not answered, a failed transport is answered as a
/// broken pipe, any other failure is not answered; all three shut the bridge down.
pub open spec fn spec_verdict(err: gpio::Error) -> Verdict {
    match err {
        gpio::Error::Recoverable(gpio::RecoverableError::Timeout(_)) => Verdict {
            status: None,
            escalate: true,
        },
        gpio::Error::Recoverable(gpio::RecoverableError::Deserialization(_)) => Verdict {
            status: Some(driver::packet::Status::ProtocolError),
            escalate: false,
        },
        gpio::Error::Recoverable(gpio::RecoverableError::Serialization(_)) => Verdict {
            status: Some(driver::packet::Status::ProtocolError),
            escalate: false,
        },
        gpio::Error::Recoverable(gpio::RecoverableError::Packet(status)) => Verdict {
            status: Some(spec_status(status)),
            escalate: false,
        },
        gpio::Error::Unrecoverable(gpio::UnrecoverableError::Interface(_)) => Verdict {
            status: Some(driver::packet::Status::BrokenPipe),
            escalate: true,
        },
        gpio::Error::Unrecoverable(gpio::UnrecoverableError::Anyhow(_)) => Verdict {
            status: None,
            escalate: true,
        },
    }
}

/// Gives the verdict on a failure.
pub fn verdict(err: &gpio::Error) -> (r: Verdict)
    ensures
        r == spec_verdict(*err),
{
    match err {
        gpio::Error::Recoverable(gpio::RecoverableError::Timeout(_)) => Verdict {
            status: None,
            escalate: true,
        },
        gpio::Error::Recoverable(gpio::RecoverableError::Deserialization(_)) => Verdict {
            status: Some(driver::packet::Status::ProtocolError),
            escalate: false,
        },
        gpio::Error::Recoverable(gpio::RecoverableError::Serialization(_)) => Verdict {
            status: Some(driver::packet::Status::ProtocolError),
            escalate: false,
        },
        gpio::Error::Recoverable(gpio::RecoverableError::Packet(status)) => Verdict {
            status: Some(driver::packet::Status::from(*status)),
            escalate: false,
        },
        gpio::Error::Unrecoverable(gpio::UnrecoverableError::Interface(_)) => Verdict {
            status: Some(driver::packet::Status::BrokenPipe),
            escalate: true,
        },
        gpio::Error::Unrecoverable(gpio::UnrecoverableError::Anyhow(_)) => Verdict {
            status: None,
            escalate: true,
        },
    }
}

} // verus!
