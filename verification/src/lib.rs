//! Client-side driver for the STK500 in-system-programming protocol, used to
//! flash firmware onto AVR-family microcontrollers over a serial link.
//!
//! The crate is organised around four pieces: the packet codec that frames
//! outgoing commands and validates incoming response frames, a request
//! correlator that matches one in-flight command to its response, a
//! programming orchestrator that sequences the page-wise flash write protocol,
//! and an Intel HEX decoder that turns a firmware image file into an
//! addressed byte buffer.

use vstd::prelude::*;

pub mod bytebuf;
pub mod codec;
pub mod commands;
pub mod correlator;
pub mod hex;
pub mod orchestrator;

verus! {

/// The error kinds a driver operation can end with.
#[derive(Clone, Copy, Debug, PartialEq, Eq, Structural)]
pub enum StkError {
    /// A line of an Intel HEX file was malformed or truncated.
    ParseHexFileError,
    /// A response frame carried a bad leading or trailing sentinel byte.
    FramingError,
    /// No valid frame arrived within the deadline of a call.
    Timeout,
    /// The write sink reported a failure; carried through opaquely.
    TransportError,
}

} // verus!
