//! The watch registry and the discovery rules.
//!
//! The registry is the one structure shared between the discovery loop and
//! the sessions: a map from peer address (a 48-bit address held in a `u64`)
//! to "is actively monitored". An address mapped to `true` has exactly one
//! live session; `false` means a session ran and exited, left in place so
//! re-discovery can restart monitoring without racing a finished task;
//! absent means never seen. Synchronisation around the registry is the
//! surroundings' concern; the library defines the operations and the
//! decision of when a session may start.

use vstd::prelude::*;
use std::collections::HashMap;

verus! {

broadcast use vstd::std_specs::hash::group_hash_axioms;

/// Vendor identifier of the accessories the daemon monitors.
pub const APPLE_VENDOR_ID: u32 = 76;

/// Product codes of the supported earphone and headphone models.
pub open spec fn spec_is_ab_model(product: u32) -> bool {
    ||| product == 0x2002
    ||| product == 0x200F
    ||| product == 0x2013
    ||| product == 0x2019
    ||| product == 0x200E
    ||| product == 0x2014
    ||| product == 0x2024
    ||| product == 0x200A
    ||| product == 0x201f
    ||| product == 0x2012
}

pub fn is_ab_model(product: u32) -> (r: bool)
    ensures
        r == spec_is_ab_model(product),
{
    match product {
        0x2002 => true,
        0x200F => true,
        0x2013 => true,
        0x2019 => true,
        0x200E => true,
        0x2014 => true,
        0x2024 => true,
        0x200A => true,
        0x201f => true,
        0x2012 => true,
        _ => false,
    }
}

/// Discovery keeps a peer only when its vendor is Apple's and its product
/// code names a supported model.
pub fn is_supported_accessory(vendor: u32, product: u32) -> (r: bool)
    ensures
        r == (vendor == APPLE_VENDOR_ID && spec_is_ab_model(product)),
{
    vendor == APPLE_VENDOR_ID && is_ab_model(product)
}

/// Discovery may start a session for a peer exactly when the peer is
/// connected and the registry does not already mark it watched.
pub open spec fn spec_should_start(m: Map<u64, bool>, addr: u64, connected: bool) -> bool {
    connected && !(m.contains_key(addr) && m[addr])
}

/// Map from peer address to "is actively monitored".
#[derive(Debug)]
pub struct WatchRegistry {
    map: HashMap<u64, bool>,
}

impl View for WatchRegistry {
    type V = Map<u64, bool>;

    closed spec fn view(&self) -> Map<u64, bool> {
        self.map@
    }
}

impl WatchRegistry {
    /// An empty registry: no peer ever seen.
    pub fn new() -> (r: WatchRegistry)
        ensures
            r@ == Map::<u64, bool>::empty(),
    {
        WatchRegistry { map: HashMap::new() }
    }

    /// Whether the registry has ever recorded this address.
    pub fn contains(&self, addr: u64) -> (r: bool)
        ensures
            r == self@.contains_key(addr),
    {
        self.map.contains_key(&addr)
    }

    /// Whether this address is marked as actively monitored.
    pub fn is_watched(&self, addr: u64) -> (r: bool)
        ensures
            r == (self@.contains_key(addr) && self@[addr]),
    {
        match self.map.get(&addr) {
            Some(b) => *b,
            None => false,
        }
    }

    /// Record that a session now monitors this address.
    pub fn mark_watching(&mut self, addr: u64)
        ensures
            final(self)@ == old(self)@.insert(addr, true),
    {
        self.map.insert(addr, true);
    }

    /// Record that this address's session has ended. The entry stays, as
    /// `false`, so re-discovery can restart it later.
    pub fn mark_idle(&mut self, addr: u64)
        ensures
            final(self)@ == old(self)@.insert(addr, false),
    {
        self.map.insert(addr, false);
    }

    /// Forget this address entirely (used when a connection attempt failed
    /// before a session ever ran, so discovery retries from scratch).
    pub fn remove(&mut self, addr: u64)
        ensures
            final(self)@ == old(self)@.remove(addr),
    {
        self.map.remove(&addr);
    }

    /// Record an address on first sight, as not monitored; an address
    /// already present is left untouched.
    pub fn note_seen(&mut self, addr: u64)
        ensures
            old(self)@.contains_key(addr) ==> final(self)@ == old(self)@,
            !old(self)@.contains_key(addr) ==> final(self)@ == old(self)@.insert(addr, false),
    {
        if !self.map.contains_key(&addr) {
            self.map.insert(addr, false);
        }
    }

    /// The discovery decision for one peer.
    pub fn should_start(&self, addr: u64, connected: bool) -> (r: bool)
        ensures
            r == spec_should_start(self@, addr, connected),
    {
        connected && !self.is_watched(addr)
    }

    /// The discovery decision and the mark in one step, so a caller holding
    /// the registry's lock once cannot race another session's start: when
    /// the peer may be started it is marked watched in the same operation.
    pub fn try_start(&mut self, addr: u64, connected: bool) -> (r: bool)
        ensures
            r == spec_should_start(old(self)@, addr, connected),
            r ==> final(self)@ == old(self)@.insert(addr, true),
            !r ==> final(self)@ == old(self)@,
    {
        if self.should_start(addr, connected) {
            self.mark_watching(addr);
            true
        } else {
            false
        }
    }
}

/// Discovery dedup law: a peer already marked watched is never started
/// again, however often it is rescanned and whether or not it is connected.
pub proof fn lemma_watch_dedup(m: Map<u64, bool>, addr: u64, connected: bool)
    requires
        m.contains_key(addr),
        m[addr] == true,
    ensures
        !spec_should_start(m, addr, connected),
{
}

} // verus!
