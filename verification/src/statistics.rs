use vstd::prelude::*;
use std::collections::HashSet;

verus! {

/// Accumulated outcome of a fuzzing run: how many input codes were accepted
/// and dispatched, and which distinct codes were among them. Created empty at
/// driver start and mutated only by the driver, once per accepted dispatch.
#[derive(Debug)]
pub struct Statistics {
    /// Number of fuzzing cases
    pub count: u32,

    /// List of all unique fuzzer keys
    pub unique_keys: HashSet<u32>,
}

impl Statistics {
    /// A code may repeat between dispatches, so the set of distinct codes can
    /// only lag behind the dispatch count.
    pub open spec fn wf(&self) -> bool {
        &&& self.unique_keys@.finite()
        &&& self.unique_keys@.len() <= self.count
    }

    /// An empty record: nothing dispatched yet.
    pub fn new() -> (s: Self)
        ensures
            s.count == 0,
            s.unique_keys@ == Set::<u32>::empty(),
            s.wf(),
    {
        Statistics { count: 0, unique_keys: HashSet::new() }
    }

    /// Record one accepted dispatch: the count rises by exactly one and the
    /// code joins the set of distinct codes seen.
    pub fn record(&mut self, code: u32)
        requires
            old(self).count < u32::MAX,
        ensures
            final(self).count == old(self).count + 1,
            final(self).unique_keys@ == old(self).unique_keys@.insert(code),
            old(self).wf() ==> final(self).wf(),
    {
        self.count = self.count + 1;
        self.unique_keys.insert(code);
    }
}

impl Default for Statistics {
    /// An empty record, as a fresh run starts with.
    fn default() -> (s: Self)
        ensures
            s.count == 0,
            s.unique_keys@ == Set::<u32>::empty(),
            s.wf(),
    {
        Statistics::new()
    }
}

} // verus!
