//! The per-client memory regions and their registration.
//!
//! A client supplies three regions: the read-only resource locator, the
//! read-only request body (zero length meaning "no body"), and the
//! read-write destination for the reply. Each registration atomically swaps
//! the new region in and hands the previous one back to the caller, with no
//! data copied.

use vstd::prelude::*;

verus! {

/// The three regions one client has registered.
pub struct ClientRequestContext {
    /// The resource locator; read-only to the driver.
    pub address: Vec<u8>,
    /// The request body; read-only to the driver. Zero length means a
    /// request without a body.
    pub body: Vec<u8>,
    /// The destination of the reply; written by the accumulator, readable
    /// by the client once completion has been signaled.
    pub response: Vec<u8>,
}

impl ClientRequestContext {
    /// A client with no regions registered yet.
    pub fn new() -> (r: ClientRequestContext)
        ensures
            r.address@.len() == 0,
            r.body@.len() == 0,
            r.response@.len() == 0,
    {
        ClientRequestContext { address: Vec::new(), body: Vec::new(), response: Vec::new() }
    }

    /// Registers a new address region and returns the previous one.
    pub fn swap_address(&mut self, new: Vec<u8>) -> (prev: Vec<u8>)
        ensures
            prev == old(self).address,
            final(self).address == new,
            final(self).body == old(self).body,
            final(self).response == old(self).response,
    {
        let mut held = new;
        core::mem::swap(&mut self.address, &mut held);
        held
    }

    /// Registers a new body region and returns the previous one.
    pub fn swap_body(&mut self, new: Vec<u8>) -> (prev: Vec<u8>)
        ensures
            prev == old(self).body,
            final(self).body == new,
            final(self).address == old(self).address,
            final(self).response == old(self).response,
    {
        let mut held = new;
        core::mem::swap(&mut self.body, &mut held);
        held
    }

    /// Registers a new response region and returns the previous one.
    pub fn swap_response(&mut self, new: Vec<u8>) -> (prev: Vec<u8>)
        ensures
            prev == old(self).response,
            final(self).response == new,
            final(self).address == old(self).address,
            final(self).body == old(self).body,
    {
        let mut held = new;
        core::mem::swap(&mut self.response, &mut held);
        held
    }
}

} // verus!
