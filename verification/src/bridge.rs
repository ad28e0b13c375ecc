//! The request state machine: owns the lifecycle of one outstanding
//! exchange, mediates between the builder, the accumulator and the waiting
//! client, and keeps the single scratch buffer with exactly one owner at
//! any instant.
//!
//! The transport is a collaborator outside this crate. Each function here
//! either accepts a request synchronously or consumes one transport
//! completion, and returns the next action as a plain value: hand the
//! scratch buffer back to the transport for a single-byte receive, or
//! deliver a completion callback to the one waiting client. The caller
//! performs the action and feeds the transport's answer back in.
//!
//! There is no timeout and no cancel entry point: an exchange whose inbound
//! stream never ends in a terminator keeps the bridge busy, and every
//! further request is refused. The gap is a known limitation, kept rather
//! than papered over with invented behaviour.

use vstd::prelude::*;
use crate::SubmitError;
use crate::builder::{build_message, get_message, get_message_len, post_message, post_message_len};
use crate::accumulator::{
    accept_byte, accept_cursor, accept_region, compact, finalize, find_delimiter,
    first_zero_at_or_after, Finalized, TERMINATOR,
};

verus! {

/// The status delivered to the client when an exchange ends with a body.
pub const STATUS_SUCCESS: usize = 0;

/// The status delivered to the client when the captured response holds no
/// header/body delimiter: the exchange itself finished, but the response is
/// malformed or incomplete. Distinct from every transport error.
pub const STATUS_NO_DELIMITER: usize = 418;

/// The bridge's state: no exchange, or one exchange in flight for exactly
/// one client.
#[derive(Clone, Copy, PartialEq, Eq, Structural, Debug)]
pub enum RequestState {
    /// No exchange in progress; the driver holds the scratch buffer.
    Idle,
    /// An exchange is in progress for this client; the scratch buffer is
    /// lent out.
    Requesting { client: u32 },
}

/// A wire message ready for transmission: the scratch buffer, whose prefix
/// of the given length holds the message.
pub struct Transmit {
    pub buffer: Vec<u8>,
    pub length: usize,
}

/// What the caller must do after handing the bridge a transport completion:
/// re-arm a single-byte receive with the returned buffer, or deliver the
/// completion callback `(status, length)` to the given client.
#[derive(Debug)]
pub enum Step {
    /// Arm the next single-byte receive with this buffer.
    Receive(Vec<u8>),
    /// The exchange is over: notify the client.
    Notify { client: u32, status: usize, length: usize },
}

/// The request state machine and the ownership slot of the scratch buffer.
pub struct Bridge {
    /// The current state.
    pub state: RequestState,
    /// The scratch buffer slot: `Some` while the driver holds the buffer,
    /// `None` while it is lent to the transport.
    pub scratch: Option<Vec<u8>>,
    /// The next write offset in the requesting client's response region.
    pub cursor: usize,
}

impl Bridge {
    /// The scratch buffer has exactly one owner: while an exchange is in
    /// flight it is lent out, never also held in the slot.
    pub open spec fn wf(&self) -> bool {
        self.state is Requesting ==> self.scratch is None
    }

    /// A fresh bridge: idle, holding its scratch buffer.
    pub fn new(scratch: Vec<u8>) -> (b: Bridge)
        ensures
            b.state == RequestState::Idle,
            b.scratch == Some(scratch),
            b.cursor == 0,
            b.wf(),
    {
        Bridge { state: RequestState::Idle, scratch: Some(scratch), cursor: 0 }
    }

    /// Admits a request: builds the wire message for `address` and `body`
    /// into the scratch buffer and, on success, lends the buffer out and
    /// records the exchange for `client`. A zero-length `body` means a
    /// request without a body. Every failure is reported synchronously and
    /// leaves the bridge exactly as it was.
    pub fn submit(&mut self, client: u32, address: &Vec<u8>, body: &Vec<u8>) -> (r: Result<
        Transmit,
        SubmitError,
    >)
        requires
            old(self).wf(),
        ensures
            final(self).wf(),
            old(self).state is Requesting ==> {
                &&& r == Err::<Transmit, SubmitError>(SubmitError::Busy)
                &&& *final(self) == *old(self)
            },
            old(self).state is Idle && old(self).scratch is None ==> {
                &&& r == Err::<Transmit, SubmitError>(SubmitError::OutOfMemory)
                &&& *final(self) == *old(self)
            },
            old(self).scratch matches Some(buf) && old(self).state is Idle && body@.len() == 0
                && get_message_len(address@) <= buf@.len() ==> {
                &&& r matches Ok(t)
                &&& t.length == get_message_len(address@)
                &&& t.buffer@.len() == old(self).scratch->Some_0@.len()
                &&& t.buffer@.subrange(0, t.length as int) == get_message(address@)
                &&& final(self).state == (RequestState::Requesting { client })
                &&& final(self).scratch is None
                &&& final(self).cursor == 0
            },
            old(self).scratch matches Some(buf) && old(self).state is Idle && body@.len() == 0
                && get_message_len(address@) > buf@.len() ==> {
                &&& r == Err::<Transmit, SubmitError>(SubmitError::Size)
                &&& final(self).state == old(self).state
                &&& final(self).cursor == old(self).cursor
                &&& final(self).scratch is Some
                &&& final(self).scratch->Some_0@ == old(self).scratch->Some_0@
            },
            old(self).scratch matches Some(buf) && old(self).state is Idle && body@.len() > 0
                && post_message_len(address@, body@) <= buf@.len() ==> {
                &&& r matches Ok(t)
                &&& t.length == post_message_len(address@, body@)
                &&& t.buffer@.len() == old(self).scratch->Some_0@.len()
                &&& t.buffer@.subrange(0, t.length as int) == post_message(address@, body@)
                &&& final(self).state == (RequestState::Requesting { client })
                &&& final(self).scratch is None
                &&& final(self).cursor == 0
            },
            old(self).scratch matches Some(buf) && old(self).state is Idle && body@.len() > 0
                && post_message_len(address@, body@) > buf@.len() ==> {
                &&& r == Err::<Transmit, SubmitError>(SubmitError::InvalidArgument)
                &&& final(self).state == old(self).state
                &&& final(self).cursor == old(self).cursor
                &&& final(self).scratch is Some
                &&& final(self).scratch->Some_0@ == old(self).scratch->Some_0@
            },
    {
        match self.state {
            RequestState::Requesting { .. } => Err(SubmitError::Busy),
            RequestState::Idle => {
                match self.scratch.take() {
                    None => Err(SubmitError::OutOfMemory),
                    Some(mut buf) => {
                        match build_message(&mut buf, address, body) {
                            Ok(length) => {
                                self.state = RequestState::Requesting { client };
                                self.cursor = 0;
                                Ok(Transmit { buffer: buf, length })
                            },
                            Err(e) => {
                                self.scratch = Some(buf);
                                Err(e)
                            },
                        }
                    },
                }
            },
        }
    }

    /// Ends the exchange on a transport failure: the buffer comes home, the
    /// waiting client is notified with the transport's status verbatim, and
    /// the bridge returns to idle. Used when the transport rejects the
    /// submission of a transmit or of a receive.
    pub fn transport_failed(&mut self, buffer: Vec<u8>, status: usize) -> (r: Step)
        requires
            old(self).wf(),
            old(self).state is Requesting,
        ensures
            final(self).wf(),
            r == (Step::Notify { client: old(self).state->client, status, length: 0 }),
            final(self).state is Idle,
            final(self).scratch == Some(buffer),
            final(self).cursor == old(self).cursor,
    {
        let client: u32 = match self.state {
            RequestState::Requesting { client } => client,
            RequestState::Idle => 0,
        };
        self.scratch = Some(buffer);
        self.state = RequestState::Idle;
        Step::Notify { client, status, length: 0 }
    }

    /// Consumes the transmit-completion: on success the response cursor is
    /// reset and the first single-byte receive armed, the exchange going
    /// on; on failure the exchange ends as under `transport_failed`.
    pub fn transmit_complete(&mut self, buffer: Vec<u8>, result: Result<(), usize>) -> (r: Step)
        requires
            old(self).wf(),
            old(self).state is Requesting,
        ensures
            final(self).wf(),
            result is Ok ==> {
                &&& r == Step::Receive(buffer)
                &&& final(self).state == old(self).state
                &&& final(self).scratch is None
                &&& final(self).cursor == 0
            },
            result matches Err(e) ==> {
                &&& r == (Step::Notify {
                    client: old(self).state->client,
                    status: e,
                    length: 0,
                })
                &&& final(self).state is Idle
                &&& final(self).scratch == Some(buffer)
                &&& final(self).cursor == old(self).cursor
            },
    {
        match result {
            Ok(()) => {
                self.cursor = 0;
                Step::Receive(buffer)
            },
            Err(e) => self.transport_failed(buffer, e),
        }
    }

    /// Consumes one receive-completion. A failed receive ends the exchange
    /// with the transport's status. An ordinary byte is written into the
    /// client's response region at the cursor and the next single-byte
    /// receive armed. The terminator ends the exchange: the region is
    /// finalized — compacted to the body alone when the delimiter is found —
    /// and the one waiting client notified with the outcome.
    pub fn byte_received(
        &mut self,
        buffer: Vec<u8>,
        byte: u8,
        result: Result<(), usize>,
        response: &mut Vec<u8>,
    ) -> (r: Step)
        requires
            old(self).wf(),
            old(self).state is Requesting,
        ensures
            final(self).wf(),
            result matches Err(e) ==> {
                &&& r == (Step::Notify {
                    client: old(self).state->client,
                    status: e,
                    length: 0,
                })
                &&& final(self).state is Idle
                &&& final(self).scratch == Some(buffer)
                &&& final(self).cursor == old(self).cursor
                &&& final(response)@ == old(response)@
            },
            result is Ok && byte != TERMINATOR ==> {
                &&& r == Step::Receive(buffer)
                &&& final(response)@ == accept_region(
                    old(response)@,
                    old(self).cursor as int,
                    byte,
                )
                &&& final(self).cursor == accept_cursor(
                    old(response)@.len() as int,
                    old(self).cursor as int,
                    byte,
                )
                &&& final(self).state == old(self).state
                &&& final(self).scratch is None
            },
            result is Ok && byte == TERMINATOR ==> ({
                let after = accept_region(old(response)@, old(self).cursor as int, byte);
                &&& final(self).state is Idle
                &&& final(self).scratch == Some(buffer)
                &&& final(self).cursor == accept_cursor(
                    old(response)@.len() as int,
                    old(self).cursor as int,
                    byte,
                )
                &&& match find_delimiter(after) {
                    Some(i) => {
                        &&& r == (Step::Notify {
                            client: old(self).state->client,
                            status: STATUS_SUCCESS,
                            length: (first_zero_at_or_after(after, i + 4) - (i + 4)) as usize,
                        })
                        &&& final(response)@ == compact(after, i + 4)
                    },
                    None => {
                        &&& r == (Step::Notify {
                            client: old(self).state->client,
                            status: STATUS_NO_DELIMITER,
                            length: 0,
                        })
                        &&& final(response)@ == after
                    },
                }
            }),
    {
        match result {
            Err(e) => self.transport_failed(buffer, e),
            Ok(()) => {
                let mut cur: usize = self.cursor;
                accept_byte(response, &mut cur, byte);
                self.cursor = cur;
                if byte != TERMINATOR {
                    Step::Receive(buffer)
                } else {
                    let outcome = finalize(response);
                    let client: u32 = match self.state {
                        RequestState::Requesting { client } => client,
                        RequestState::Idle => 0,
                    };
                    self.scratch = Some(buffer);
                    self.state = RequestState::Idle;
                    match outcome {
                        Finalized::Body(blen) => Step::Notify {
                            client,
                            status: STATUS_SUCCESS,
                            length: blen,
                        },
                        Finalized::NoDelimiter => Step::Notify {
                            client,
                            status: STATUS_NO_DELIMITER,
                            length: 0,
                        },
                    }
                }
            },
        }
    }
}

} // verus!
