//! Removal of expired advertisements.
use vstd::prelude::*;
use crate::discovery::{cleaned, expired, AdvertisementView, DiscoveryQueue};

verus! {

/// Why a clean could not be done.
#[derive(Debug, Clone, Copy, PartialEq, Eq, Structural)]
pub enum CleanError {
    /// The store is locked by someone else.
    LockError,
}

/// A store of things that expire.
pub trait Cleanable {
    /// Cleans each advertisement based on its age and expiration date, as seen
    /// at `now` (milliseconds since the Unix epoch). Returns the number of
    /// advertisements removed.
    fn clean(&mut self, now: u64) -> Result<usize, CleanError>;
}

impl Cleanable for DiscoveryQueue {
    /// Removes exactly the advertisements that have expired at `now`; the
    /// store itself never refuses, so the result is always `Ok` with the
    /// number removed.
    fn clean(&mut self, now: u64) -> (r: Result<usize, CleanError>)
        ensures
            r matches Ok(n) && {
                &&& final(self)@ == cleaned(old(self)@, now)
                &&& n as int == old(self)@.len() - final(self)@.len()
                &&& n as int == old(self)@.dom().filter(|k: Seq<char>| expired(old(self)@[k], now)).len()
            },
    {
        Ok(self.remove_expired(now))
    }
}

/// After a clean at `now` nothing stored has expired at `now`, so a second
/// clean at the same time changes nothing.
pub proof fn lemma_clean_idempotent(q: Map<Seq<char>, AdvertisementView>, now: u64)
    ensures
        forall|k: Seq<char>| #[trigger] cleaned(q, now).contains_key(k) ==> !expired(cleaned(q, now)[k], now),
        cleaned(cleaned(q, now), now) == cleaned(q, now),
{
    assert(cleaned(cleaned(q, now), now) =~= cleaned(q, now));
}

} // verus!
