//! A serial-transport request/response bridge.
//!
//! The library turns a "fetch this resource, optionally with a body" request
//! into a wire message assembled in a single shared scratch buffer, drives an
//! asynchronous transmit-then-receive exchange one byte at a time, detects the
//! end-of-stream terminator, locates the header/body delimiter in the captured
//! response, compacts the response region to the body alone, and reports one
//! of several distinct outcomes to exactly one waiting client.
//!
//! The byte-oriented transport itself, and the delivery of completion
//! callbacks, are collaborators outside this crate: the bridge is an event
//! machine whose functions take the transport's completions as plain values
//! and say, in their contracts, what the next action is.

use vstd::prelude::*;

pub mod accumulator;
pub mod bridge;
pub mod builder;
pub mod regions;

verus! {

/// An error reported synchronously when a request is admitted, before any
/// transport activity. Admission errors leave all state unchanged.
#[derive(Clone, Copy, PartialEq, Eq, Structural, Debug)]
pub enum SubmitError {
    /// An exchange is already in progress for some client.
    Busy,
    /// The message for a request without a body would not fit the scratch
    /// buffer.
    Size,
    /// The message for a request with a body would not fit the scratch
    /// buffer.
    InvalidArgument,
    /// The scratch buffer is not in the driver's hands.
    OutOfMemory,
}

} // verus!
