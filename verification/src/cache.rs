//! The cache that holds the drawn clock face.

use iced_graphics::canvas::Cache;
use vstd::prelude::*;

verus! {

/// The canvas cache of `iced_graphics`, which keeps generated geometry until
/// it is cleared. Nothing of its contents is visible here.
#[verifier::external_type_specification]
#[verifier::external_body]
pub struct ExCache(Cache);

/// Calls `Cache::new` of `iced_graphics`. Nothing is claimed of the result.
#[verifier::external_body]
fn new_cache() -> Cache {
    Cache::new()
}

/// Calls `Cache::clear` of `iced_graphics`, which empties the cache and so
/// forces a redraw at its next use. Nothing is claimed of the cache
/// afterwards.
#[verifier::external_body]
fn clear_cache(cache: &mut Cache) {
    cache.clear()
}

/// The cache of the clock face, together with the count of how often it has
/// been cleared. The count exists in proofs only: it is how the handlers say
/// when they clear the cache.
pub struct ClockCache {
    cache: Cache,
    clears: Ghost<nat>,
}

impl ClockCache {
    /// How often the cache has been cleared since it was made.
    pub closed spec fn clears(&self) -> nat {
        self.clears@
    }

    /// The cache of `iced_graphics` that is held, as it stands.
    pub closed spec fn held(&self) -> Cache {
        self.cache
    }

    /// Creates an empty cache.
    pub fn new() -> (res: ClockCache)
        ensures
            res.clears() == 0,
    {
        ClockCache { cache: new_cache(), clears: Ghost(0) }
    }

    /// Clears the cache, so that the clock face is drawn anew.
    pub fn clear(&mut self)
        ensures
            final(self).clears() == old(self).clears() + 1,
    {
        clear_cache(&mut self.cache);
        self.clears = Ghost((self.clears@ + 1) as nat);
    }

    /// The cache itself, to draw with: the one that is held, and that
    /// [`ClockCache::clear`] clears.
    pub fn cache(&self) -> (res: &Cache)
        ensures
            *res == self.held(),
    {
        &self.cache
    }
}

} // verus!
