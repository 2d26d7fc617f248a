use vstd::prelude::*;
use std::collections::HashSet;
use crate::statistics::Statistics;

verus! {

/// Relies on rand::random: draws one value of `T` from the thread-local
/// generator. The draw is not seeded reproducibly, so nothing is assumed of
/// the value returned.
pub assume_specification<T>[ rand::random::<T> ]() -> (r: T)
    where
        rand::distributions::Standard: rand::distributions::Distribution<T>,
;

/// The Super (left) keysym, a focus-stealing modifier the denylist carries.
pub const SUPER_L_KEYSYM: u32 = 0xffeb;

/// The left Windows-key keysym.
pub const WIN_L_KEYSYM: u32 = 0xff5b;

/// The right Windows-key keysym.
pub const WIN_R_KEYSYM: u32 = 0xff5c;

/// The F1 function-key keysym.
pub const F1_KEYSYM: u32 = 0xffbe;

/// The keysym codes every run excludes outright: keys that would steal focus
/// from the target window or open help, before the range exclusions join them.
pub fn black_list() -> (s: HashSet<u32>)
    ensures
        s@ == set![SUPER_L_KEYSYM, WIN_L_KEYSYM, WIN_R_KEYSYM, F1_KEYSYM],
{
    let mut s: HashSet<u32> = HashSet::new();
    s.insert(SUPER_L_KEYSYM);
    s.insert(WIN_L_KEYSYM);
    s.insert(WIN_R_KEYSYM);
    s.insert(F1_KEYSYM);
    proof {
        assert(s@ =~= set![SUPER_L_KEYSYM, WIN_L_KEYSYM, WIN_R_KEYSYM, F1_KEYSYM]);
    }
    s
}

/// Add every code in `lo..=hi` to the denylist.
pub fn deny_range(s: &mut HashSet<u32>, lo: u32, hi: u32)
    requires
        lo <= hi,
    ensures
        final(s)@ == old(s)@.union(Set::new(|c: u32| lo <= c <= hi)),
{
    let ghost init = s@;
    let mut c = lo;
    while c < hi
        invariant
            lo <= c <= hi,
            s@ == init.union(Set::new(|x: u32| lo <= x < c)),
        decreases hi - c,
    {
        s.insert(c);
        proof {
            assert(init.union(Set::new(|x: u32| lo <= x < c)).insert(c) =~= init.union(
                Set::new(|x: u32| lo <= x < c + 1),
            ));
        }
        c = c + 1;
    }
    s.insert(hi);
    proof {
        assert(init.union(Set::new(|x: u32| lo <= x < hi)).insert(hi) =~= init.union(
            Set::new(|x: u32| lo <= x <= hi),
        ));
    }
}

/// Whether the standard run configuration refuses the code `c`: everything
/// below the printable ASCII band, and everything above it up to the 16-bit
/// ceiling. The focus-stealing keysyms all lie inside the upper band.
pub open spec fn standard_denied(c: u32) -> bool {
    c <= 0x22 || (0x7f <= c <= 0xffff)
}

/// The denylist a standard run is configured with: the focus-stealing keys
/// plus the two excluded ranges. Exactly the codes `0x23..=0x7e` stay
/// eligible for dispatch.
pub fn standard_denylist() -> (s: HashSet<u32>)
    ensures
        s@ == Set::new(|c: u32| standard_denied(c)),
{
    let mut s = black_list();
    deny_range(&mut s, 0x00, 0x22);
    deny_range(&mut s, 0x7f, 0xffff);
    proof {
        assert(set![SUPER_L_KEYSYM, WIN_L_KEYSYM, WIN_R_KEYSYM, F1_KEYSYM].union(
            Set::new(|c: u32| 0x00 <= c <= 0x22),
        ).union(Set::new(|c: u32| 0x7f <= c <= 0xffff)) =~= Set::new(
            |c: u32| standard_denied(c),
        ));
    }
    s
}

/// The fixed-count fuzzing loop's decision state: the denylist codes are
/// filtered against, the number of accepted dispatches after which the run
/// stops, and the running statistics. The caller performs the dispatch and
/// the pacing delay between accepted codes; every accept/reject/stop decision
/// is made here.
pub struct FuzzDriver {
    denylist: HashSet<u32>,
    limit: u32,
    stats: Statistics,
}

impl FuzzDriver {
    /// The codes excluded from dispatch for the whole run.
    pub closed spec fn denied(&self) -> Set<u32> {
        self.denylist@
    }

    /// The configured number of accepted dispatches.
    pub closed spec fn limit_of(&self) -> u32 {
        self.limit
    }

    /// How many codes have been accepted and recorded so far.
    pub closed spec fn count(&self) -> u32 {
        self.stats.count
    }

    /// The distinct codes recorded so far.
    pub closed spec fn recorded(&self) -> Set<u32> {
        self.stats.unique_keys@
    }

    /// The driver's invariant: the statistics stay well-formed, and no
    /// denylisted code is ever among the recorded codes.
    pub open spec fn wf(&self) -> bool {
        &&& self.recorded().finite()
        &&& self.recorded().len() <= self.count()
        &&& forall|c: u32| self.denied().contains(c) ==> !self.recorded().contains(c)
    }

    /// A fresh run: the given denylist and limit, and empty statistics.
    pub fn new(denylist: HashSet<u32>, limit: u32) -> (d: Self)
        ensures
            d.wf(),
            d.denied() == denylist@,
            d.limit_of() == limit,
            d.count() == 0,
            d.recorded() == Set::<u32>::empty(),
    {
        FuzzDriver { denylist, limit, stats: Statistics::new() }
    }

    /// Decide one candidate code: a denylisted code is discarded and nothing
    /// changes, so the discarded draw counts toward nothing; any other code
    /// is accepted and recorded as dispatched.
    pub fn offer(&mut self, code: u16) -> (accepted: bool)
        requires
            old(self).count() < u32::MAX,
        ensures
            accepted == !old(self).denied().contains(code as u32),
            final(self).denied() == old(self).denied(),
            final(self).limit_of() == old(self).limit_of(),
            accepted ==> final(self).count() == old(self).count() + 1 && final(self).recorded()
                == old(self).recorded().insert(code as u32),
            !accepted ==> final(self).count() == old(self).count() && final(self).recorded()
                == old(self).recorded(),
            old(self).wf() ==> final(self).wf(),
    {
        let c = code as u32;
        if self.denylist.contains(&c) {
            false
        } else {
            self.stats.record(c);
            true
        }
    }

    /// Draw one candidate uniformly from the 16-bit code space and decide it.
    /// The caller redraws on `None`; a rejected draw leaves no trace.
    pub fn try_random(&mut self) -> (r: Option<u16>)
        requires
            old(self).count() < u32::MAX,
        ensures
            final(self).denied() == old(self).denied(),
            final(self).limit_of() == old(self).limit_of(),
            match r {
                Some(code) => {
                    &&& !old(self).denied().contains(code as u32)
                    &&& final(self).count() == old(self).count() + 1
                    &&& final(self).recorded() == old(self).recorded().insert(code as u32)
                },
                None => final(self).count() == old(self).count() && final(self).recorded()
                    == old(self).recorded(),
            },
            old(self).wf() ==> final(self).wf(),
    {
        let code: u16 = rand::random();
        if self.offer(code) {
            Some(code)
        } else {
            None
        }
    }

    /// Whether the configured number of accepted dispatches has been reached;
    /// on normal completion the count equals the limit exactly.
    pub fn is_done(&self) -> (r: bool)
        ensures
            r == (self.count() == self.limit_of()),
    {
        self.stats.count == self.limit
    }

    /// Read access to the running statistics.
    pub fn stats(&self) -> (s: &Statistics)
        ensures
            s.count == self.count(),
            s.unique_keys@ == self.recorded(),
    {
        &self.stats
    }

    /// Surrender the accumulated statistics for end-of-run reporting.
    pub fn into_stats(self) -> (s: Statistics)
        ensures
            s.count == self.count(),
            s.unique_keys@ == self.recorded(),
    {
        self.stats
    }
}

/// Law: however many iterations have run, a driver never records more
/// distinct codes than it has counted dispatches.
pub proof fn lemma_unique_codes_bounded(d: &FuzzDriver)
    requires
        d.wf(),
    ensures
        d.recorded().len() <= d.count(),
{
}

/// Law: a denylisted code is never recorded; for every code in the denylist,
/// the recorded set does not contain it.
pub proof fn lemma_denied_never_recorded(d: &FuzzDriver, c: u32)
    requires
        d.wf(),
        d.denied().contains(c),
    ensures
        !d.recorded().contains(c),
{
}

/// One interaction of the predicate-driven variant, as its log records it.
#[derive(Clone, Copy, Debug, PartialEq, Eq, PartialOrd, Ord, Hash)]
pub enum Action {
    /// A button click on the given button index.
    Click { idx: usize },
    /// A key press of the given key code.
    KeyPress { key: usize },
    /// A structured close request sent to the target window.
    Close,
}

/// The predicate-driven variant's state: the log of actions taken so far.
/// The caller evaluates its stopping predicate once per iteration, performs
/// the close request logged by `step`, and takes the log with `finish` when
/// the predicate fires.
pub struct FuzzSession {
    actions: Vec<Action>,
}

impl FuzzSession {
    /// The actions logged so far, oldest first.
    pub closed spec fn log(&self) -> Seq<Action> {
        self.actions@
    }

    /// A session starts with an empty log.
    pub fn new() -> (s: Self)
        ensures
            s.log() == Seq::<Action>::empty(),
    {
        FuzzSession { actions: Vec::new() }
    }

    /// One iteration between predicate checks: draw a decimal-digit key code
    /// uniformly, log its press, and log the close request the caller sends
    /// next. Returns the drawn key, always one of the ten digit codes.
    pub fn step(&mut self) -> (key: usize)
        ensures
            0x30 <= key <= 0x39,
            final(self).log() == old(self).log().push(Action::KeyPress { key }).push(
                Action::Close,
            ),
    {
        let draw: usize = rand::random();
        let key: usize = (draw % 10) + 0x30;
        self.actions.push(Action::KeyPress { key });
        self.actions.push(Action::Close);
        key
    }

    /// The completed log, handed back when the stopping predicate fires.
    pub fn finish(self) -> (log: Vec<Action>)
        ensures
            log@ == self.log(),
    {
        self.actions
    }
}

} // verus!
