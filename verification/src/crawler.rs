//! The fetch scheduler: a counting permit pool bounding simultaneous
//! fetches, and an in-flight visit counter for quiescence detection. The
//! permit pool is the only backpressure device; the counter is incremented
//! when a visit is spawned and decremented when it completes, so that
//! quiescence is detected even for a visit that has been launched but has
//! not yet reached its permit acquisition.

use vstd::prelude::*;

use crate::collector::Handlers;
use crate::context::{Context, PageType};
use crate::respond::Respond;

verus! {

/// Scheduler state: the permit pool (capacity and free permits), the count
/// of spawned-but-unfinished visits, and the registry every visit
/// dispatches against. The driver owns the HTTP client; every counter
/// move goes through the operations below.
#[derive(Debug)]
pub struct Crawler {
    pub max_permit: usize,
    pub free_permits: usize,
    pub in_flight: usize,
    pub handlers: Handlers,
}

impl Crawler {
    /// The number of fetches holding a permit right now.
    pub open spec fn spec_active_fetches(&self) -> int {
        self.max_permit - self.free_permits
    }

    /// The pool never hands out more than its capacity, and every held
    /// permit belongs to a spawned, unfinished visit.
    pub open spec fn wf(&self) -> bool {
        &&& self.free_permits <= self.max_permit
        &&& self.spec_active_fetches() <= self.in_flight
    }

    /// A fresh scheduler: the pool is full and nothing is in flight.
    pub fn new(max_permit: usize, handlers: Handlers) -> (r: Crawler)
        ensures
            r.max_permit == max_permit,
            r.free_permits == max_permit,
            r.in_flight == 0,
            r.handlers == handlers,
            r.wf(),
    {
        Crawler { max_permit, free_permits: max_permit, in_flight: 0, handlers }
    }

    /// Record that a visit has been launched: the in-flight count rises at
    /// spawn time, before the visit reaches its permit acquisition.
    pub fn spawn_visit(&mut self)
        requires
            old(self).wf(),
            old(self).in_flight < usize::MAX,
        ensures
            final(self).wf(),
            final(self).in_flight == old(self).in_flight + 1,
            final(self).free_permits == old(self).free_permits,
            final(self).max_permit == old(self).max_permit,
            final(self).handlers == old(self).handlers,
    {
        self.in_flight = self.in_flight + 1;
    }

    /// Take one permit if a slot is free; a spawned visit calls this and,
    /// told `false`, stays queued at the acquire point.
    pub fn try_acquire(&mut self) -> (r: bool)
        requires
            old(self).wf(),
            old(self).spec_active_fetches() < old(self).in_flight,
        ensures
            final(self).wf(),
            r == (old(self).free_permits > 0),
            r ==> final(self).free_permits == old(self).free_permits - 1,
            !r ==> final(self).free_permits == old(self).free_permits,
            final(self).in_flight == old(self).in_flight,
            final(self).max_permit == old(self).max_permit,
            final(self).handlers == old(self).handlers,
    {
        if self.free_permits > 0 {
            self.free_permits = self.free_permits - 1;
            true
        } else {
            false
        }
    }

    /// Give a held permit back; a visit does this once its fetch, parse
    /// and dispatch are over, before the work its handlers spawned runs.
    pub fn release_permit(&mut self)
        requires
            old(self).wf(),
            old(self).free_permits < old(self).max_permit,
        ensures
            final(self).wf(),
            final(self).free_permits == old(self).free_permits + 1,
            final(self).in_flight == old(self).in_flight,
            final(self).max_permit == old(self).max_permit,
            final(self).handlers == old(self).handlers,
    {
        self.free_permits = self.free_permits + 1;
    }

    /// Record that a visit has completed (its permit already given back,
    /// its handlers launched).
    pub fn finish_visit(&mut self)
        requires
            old(self).wf(),
            old(self).spec_active_fetches() < old(self).in_flight,
        ensures
            final(self).wf(),
            final(self).in_flight == old(self).in_flight - 1,
            final(self).free_permits == old(self).free_permits,
            final(self).max_permit == old(self).max_permit,
            final(self).handlers == old(self).handlers,
    {
        self.in_flight = self.in_flight - 1;
    }

    /// Whether the crawl has quiesced: no visit is in flight, counting
    /// those that have been spawned but have not yet taken a permit.
    pub fn quiescent(&self) -> (r: bool)
        ensures
            r == (self.in_flight == 0),
    {
        self.in_flight == 0
    }
}

/// Build the per-visit context from the classification the visit was
/// scheduled under and the materialized response's final (redirect-
/// resolved) address.
pub fn build_context(page_type: PageType, respond: &Respond) -> (r: Context)
    ensures
        r.page_type == page_type,
        r.current_address@ == respond.url@,
{
    Context { page_type, current_address: respond.url.clone() }
}

/// Law: the concurrency bound. However handlers fan out, the number of
/// simultaneously in-flight fetches never exceeds the configured limit.
pub proof fn lemma_concurrency_bound(c: Crawler)
    ensures
        c.wf() ==> c.spec_active_fetches() <= c.max_permit,
{
}

/// Law: quiescence by counter is sound. When the in-flight counter reads
/// zero, no fetch holds a permit either — a visit spawned but not yet at
/// its acquire point keeps the counter positive, so completion is never
/// reported under it.
pub proof fn lemma_quiescent_means_idle(c: Crawler)
    ensures
        c.wf() && c.in_flight == 0 ==> c.spec_active_fetches() == 0,
{
}

} // verus!
