use vstd::prelude::*;

verus! {

/// The bound on concurrent service work.
///
/// One worker services one live session, inbound or callback, so the number
/// of busy workers never exceeds the configured maximum. The maximum defaults
/// to one — a strictly single-threaded server — and is fixed once the first
/// session is live.
pub struct ThreadPool {
    /// The configured worker count; at least one.
    pub max_threads: usize,
    /// How many workers are busy right now.
    pub active: usize,
}

impl ThreadPool {
    /// What `new` establishes and every method preserves.
    pub open spec fn wf(self) -> bool {
        &&& self.max_threads >= 1
        &&& self.active <= self.max_threads
    }

    /// Whether a worker is free to take on another session.
    pub open spec fn spec_has_idle_worker(self) -> bool {
        self.active < self.max_threads
    }

    /// A pool of the default size: one worker, none busy.
    pub fn new() -> (p: ThreadPool)
        ensures
            p.wf(),
            p.max_threads == 1,
            p.active == 0,
    {
        ThreadPool { max_threads: 1, active: 0 }
    }

    /// Reconfigures the worker count; only allowed while no worker is busy.
    pub fn set_max_threads(&mut self, count: usize)
        requires
            old(self).wf(),
            old(self).active == 0,
            count >= 1,
        ensures
            final(self).wf(),
            final(self).max_threads == count,
            final(self).active == 0,
    {
        self.max_threads = count;
    }

    /// Marks one idle worker busy.
    pub fn acquire(&mut self)
        requires
            old(self).wf(),
            old(self).spec_has_idle_worker(),
        ensures
            final(self).wf(),
            final(self).max_threads == old(self).max_threads,
            final(self).active == old(self).active + 1,
    {
        self.active = self.active + 1;
    }

    /// Marks one busy worker idle again.
    pub fn release(&mut self)
        requires
            old(self).wf(),
            old(self).active >= 1,
        ensures
            final(self).wf(),
            final(self).max_threads == old(self).max_threads,
            final(self).active == old(self).active - 1,
    {
        self.active = self.active - 1;
    }

    /// Executable mirror of `spec_has_idle_worker`.
    pub fn has_idle_worker(&self) -> (r: bool)
        ensures
            r == self.spec_has_idle_worker(),
    {
        self.active < self.max_threads
    }
}

} // verus!
