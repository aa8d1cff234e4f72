//! Protocol core of a bridge between the GPIO pins of a remote co-processor and the
//! GPIO lines of the local kernel.
//!
//! The crate holds the decisions of the bridge and none of its I/O: the wire codec and
//! the request/response engine of the link to the co-processor (`gpio`), the message
//! model and the handshake of the generic-netlink link to the kernel driver (`driver`),
//! and the rules that couple the two and shut the bridge down (`router`). A program
//! around it owns the sockets, the threads and the clock, and hands plain values in.

pub mod driver;
pub mod gpio;
pub mod outside;
pub mod router;
pub mod utils;
