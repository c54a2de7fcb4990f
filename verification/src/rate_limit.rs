//! Sliding-window rate limiter: per-identity admission control.
//!
//! Each identity maps to the timestamps (in milliseconds) of its admitted
//! requests within the trailing window.  Stale timestamps are pruned lazily
//! on each check; `cleanup` is the explicit maintenance pass that prunes
//! every identity and drops the empty ones.  The caller supplies the current
//! time, so a whole check-and-admit step is one verified transition; the
//! surrounding process is expected to serialize calls through one exclusive
//! lock, which keeps two concurrent requests from the same identity from
//! both crossing the limit.

use vstd::prelude::*;
use crate::text::str_eq;
use crate::seqs::{lemma_filter_push, lemma_filter_all, lemma_filter_none};
use vstd::string::StringExecFns;

verus! {

/// Whether a recorded timestamp still lies within the trailing window at
/// `now`.  A timestamp in the future counts as within the window.
pub open spec fn in_window(t: u64, now: u64, window: u64) -> bool {
    t > now || now - t < window
}

/// The timestamps of `times` still within the window at `now`, in order.
pub open spec fn pruned(times: Seq<u64>, now: u64, window: u64) -> Seq<u64> {
    times.filter(|t: u64| in_window(t, now, window))
}

/// Whether a check at `now` against recorded `times` admits the request.
pub open spec fn admit_decision(times: Seq<u64>, now: u64, max: int, window: u64) -> bool {
    pruned(times, now, window).len() < max
}

/// The recorded timestamps after a check at `now`: pruned, and extended by
/// `now` exactly when the request was admitted.
pub open spec fn step_times(times: Seq<u64>, now: u64, max: int, window: u64) -> Seq<u64> {
    if admit_decision(times, now, max, window) {
        pruned(times, now, window).push(now)
    } else {
        pruned(times, now, window)
    }
}

/// The recorded timestamps after a sequence of checks, first check first.
pub open spec fn run_times(times: Seq<u64>, checks: Seq<u64>, max: int, window: u64) -> Seq<u64>
    decreases checks.len(),
{
    if checks.len() == 0 {
        times
    } else {
        run_times(step_times(times, checks[0], max, window), checks.drop_first(), max, window)
    }
}

/// One identity's recorded admissions.
pub struct IdentityWindow {
    pub key: String,
    pub times: Vec<u64>,
}

/// In-memory sliding-window rate limiter.
pub struct RateLimiter {
    pub entries: Vec<IdentityWindow>,
    pub max_requests: usize,
    pub window_millis: u64,
}

impl RateLimiter {
    /// Well-formedness: positive parameters, distinct identity keys, and no
    /// identity holding more than `max_requests` recorded timestamps.
    pub open spec fn wf(&self) -> bool {
        &&& self.max_requests >= 1
        &&& self.window_millis >= 1
        &&& forall|i: int, j: int|
            0 <= i < j < self.entries@.len() ==> (#[trigger] self.entries@[i].key@) != (
            #[trigger] self.entries@[j].key@)
        &&& forall|i: int|
            0 <= i < self.entries@.len() ==> (#[trigger] self.entries@[i].times@).len()
                <= self.max_requests
    }

    /// Whether some entry is recorded for the identity.
    pub open spec fn has_identity(&self, k: Seq<char>) -> bool {
        exists|i: int| 0 <= i < self.entries@.len() && (#[trigger] self.entries@[i].key@) == k
    }

    /// The timestamps recorded for an identity; an unknown identity has none.
    pub open spec fn times_of(&self, k: Seq<char>) -> Seq<u64> {
        if self.has_identity(k) {
            let i = choose|i: int|
                0 <= i < self.entries@.len() && (#[trigger] self.entries@[i].key@) == k;
            self.entries@[i].times@
        } else {
            Seq::empty()
        }
    }

    proof fn lemma_times_of_at(&self, i: int)
        requires
            self.wf(),
            0 <= i < self.entries@.len(),
        ensures
            self.has_identity(self.entries@[i].key@),
            self.times_of(self.entries@[i].key@) == self.entries@[i].times@,
    {
        let k = self.entries@[i].key@;
        assert(self.has_identity(k));
        let j = choose|j: int|
            0 <= j < self.entries@.len() && (#[trigger] self.entries@[j].key@) == k;
        if i < j {
            assert(self.entries@[i].key@ != self.entries@[j].key@);
        } else if j < i {
            assert(self.entries@[j].key@ != self.entries@[i].key@);
        }
    }

    /// A limiter admitting at most `max_requests` requests per identity in
    /// any trailing window of `window_millis` milliseconds.
    pub fn new(max_requests: usize, window_millis: u64) -> (r: RateLimiter)
        requires
            max_requests >= 1,
            window_millis >= 1,
        ensures
            r.wf(),
            r.max_requests == max_requests,
            r.window_millis == window_millis,
            forall|k: Seq<char>| #[trigger] r.times_of(k) == Seq::<u64>::empty(),
    {
        RateLimiter { entries: Vec::new(), max_requests, window_millis }
    }

    fn find_identity(entries: &Vec<IdentityWindow>, identifier: &str) -> (r: Option<usize>)
        ensures
            match r {
                Some(i) => i < entries@.len() && entries@[i as int].key@ == identifier@,
                None => forall|j: int|
                    0 <= j < entries@.len() ==> (#[trigger] entries@[j].key@) != identifier@,
            },
    {
        let n = entries.len();
        let mut idx: usize = 0;
        while idx < n
            invariant
                n == entries@.len(),
                idx <= n,
                forall|j: int| 0 <= j < idx ==> (#[trigger] entries@[j].key@) != identifier@,
            decreases n - idx,
        {
            if str_eq(entries[idx].key.as_str(), identifier) {
                return Some(idx);
            }
            idx += 1;
        }
        None
    }

    /// Checks whether a request from `identifier` at `now_millis` is
    /// admitted, recording the request exactly when it is.
    pub fn check_rate_limit(&mut self, identifier: &str, now_millis: u64) -> (admitted: bool)
        requires
            old(self).wf(),
        ensures
            final(self).wf(),
            final(self).max_requests == old(self).max_requests,
            final(self).window_millis == old(self).window_millis,
            admitted == admit_decision(
                old(self).times_of(identifier@),
                now_millis,
                old(self).max_requests as int,
                old(self).window_millis,
            ),
            final(self).times_of(identifier@) == step_times(
                old(self).times_of(identifier@),
                now_millis,
                old(self).max_requests as int,
                old(self).window_millis,
            ),
            forall|k: Seq<char>|
                k != identifier@ ==> #[trigger] final(self).times_of(k) == old(self).times_of(k),
    {
        let ghost k = identifier@;
        let window = self.window_millis;
        let max = self.max_requests;
        match Self::find_identity(&self.entries, identifier) {
            None => {
                proof {
                    assert(!old(self).has_identity(k));
                    lemma_pruned_of_empty(now_millis, window);
                }
                let mut times: Vec<u64> = Vec::new();
                times.push(now_millis);
                let key = String::from_str(identifier);
                self.entries.push(IdentityWindow { key, times });
                proof {
                    let n = self.entries@.len() - 1;
                    assert(self.entries@[n].key@ == k);
                    assert(self.entries@[n].times@ =~= Seq::<u64>::empty().push(now_millis));
                    assert(forall|i: int|
                        0 <= i < n ==> #[trigger] self.entries@[i] == old(self).entries@[i]);
                    assert(self.wf());
                    self.lemma_times_of_at(n);
                    assert(self.times_of(k) == step_times(
                        old(self).times_of(k),
                        now_millis,
                        max as int,
                        window,
                    ));
                    assert forall|k2: Seq<char>| k2 != k implies #[trigger] self.times_of(k2)
                        == old(self).times_of(k2) by {
                        lemma_unchanged_identity(*old(self), *self, k2, n);
                    }
                }
                true
            },
            Some(i) => {
                proof {
                    self.lemma_times_of_at(i as int);
                }
                let pruned_vec = prune_times(&self.entries[i].times, now_millis, window);
                proof {
                    old(self).entries@[i as int].times@.lemma_filter_len(
                        |t: u64| in_window(t, now_millis, window),
                    );
                }
                let admitted = pruned_vec.len() < max;
                let mut new_times = pruned_vec;
                if admitted {
                    new_times.push(now_millis);
                }
                self.entries[i].times = new_times;
                proof {
                    assert(self.entries@[i as int].key@ == k);
                    assert(forall|j: int|
                        0 <= j < self.entries@.len() && j != i ==> #[trigger] self.entries@[j]
                            == old(self).entries@[j]);
                    assert(forall|j: int|
                        0 <= j < self.entries@.len() ==> #[trigger] self.entries@[j].key@ == old(
                            self,
                        ).entries@[j].key@);
                    assert(self.wf());
                    self.lemma_times_of_at(i as int);
                    assert(self.times_of(k) == step_times(
                        old(self).times_of(k),
                        now_millis,
                        max as int,
                        window,
                    ));
                    assert forall|k2: Seq<char>| k2 != k implies #[trigger] self.times_of(k2)
                        == old(self).times_of(k2) by {
                        lemma_unchanged_identity_update(*old(self), *self, k2);
                    }
                }
                admitted
            },
        }
    }

    /// Reports how many more requests the identity may issue right now,
    /// without mutating any state: `max_requests` minus the count of
    /// currently-valid timestamps.  The result can never go negative.
    pub fn remaining(&self, identifier: &str, now_millis: u64) -> (r: usize)
        requires
            self.wf(),
        ensures
            r == self.max_requests - pruned(
                self.times_of(identifier@),
                now_millis,
                self.window_millis,
            ).len(),
    {
        match Self::find_identity(&self.entries, identifier) {
            None => {
                proof {
                    assert(!self.has_identity(identifier@));
                    lemma_pruned_of_empty(now_millis, self.window_millis);
                }
                self.max_requests
            },
            Some(i) => {
                proof {
                    self.lemma_times_of_at(i as int);
                }
                let count = count_valid(&self.entries[i].times, now_millis, self.window_millis);
                proof {
                    self.entries@[i as int].times@.lemma_filter_len(
                        |t: u64| in_window(t, now_millis, self.window_millis),
                    );
                }
                self.max_requests - count
            },
        }
    }

    /// Maintenance pass: prunes every identity's stale timestamps and drops
    /// identities left with none, to bound memory in a long-lived process.
    /// Idempotent at any fixed time.
    #[verifier::rlimit(100)]
    pub fn cleanup(&mut self, now_millis: u64)
        requires
            old(self).wf(),
        ensures
            final(self).wf(),
            final(self).max_requests == old(self).max_requests,
            final(self).window_millis == old(self).window_millis,
            forall|k: Seq<char>| #[trigger]
                final(self).times_of(k) == pruned(
                    old(self).times_of(k),
                    now_millis,
                    old(self).window_millis,
                ),
            forall|i: int|
                0 <= i < final(self).entries@.len()
                    ==> (#[trigger] final(self).entries@[i].times@).len() > 0,
    {
        let window = self.window_millis;
        let n = self.entries.len();
        let mut kept: Vec<IdentityWindow> = Vec::new();
        let mut i: usize = 0;
        while i < n
            invariant
                n == old(self).entries@.len(),
                self.entries@ == old(self).entries@,
                i <= n,
                forall|i1: int, j1: int|
                    0 <= i1 < j1 < old(self).entries@.len() ==> (#[trigger] old(self).entries@[i1].key@) != (
                    #[trigger] old(self).entries@[j1].key@),
                forall|j: int|
                    0 <= j < kept@.len() ==> exists|l: int|
                        0 <= l < i && (#[trigger] kept@[j].key@) == old(self).entries@[l].key@ && kept@[j].times@
                            == pruned(old(self).entries@[l].times@, now_millis, window),
                forall|l: int|
                    0 <= l < i ==> (pruned((#[trigger] old(self).entries@[l]).times@, now_millis, window).len()
                        > 0 <==> exists|j: int|
                        0 <= j < kept@.len() && (#[trigger] kept@[j].key@) == old(self).entries@[l].key@),
                forall|j: int| 0 <= j < kept@.len() ==> (#[trigger] kept@[j].times@).len() > 0,
                forall|j1: int, j2: int|
                    0 <= j1 < j2 < kept@.len() ==> (#[trigger] kept@[j1].key@) != (
                    #[trigger] kept@[j2].key@),
            decreases n - i,
        {
            let ghost prev_kept = kept@;
            let pruned_vec = prune_times(&self.entries[i].times, now_millis, window);
            if pruned_vec.len() > 0 {
                let key = self.entries[i].key.clone();
                kept.push(IdentityWindow { key, times: pruned_vec });
                proof {
                    let m = kept@.len() - 1;
                    assert(kept@[m].key@ == old(self).entries@[i as int].key@);
                    assert(kept@[m].times@ == pruned(old(self).entries@[i as int].times@, now_millis, window));
                    assert(forall|j: int| 0 <= j < m ==> #[trigger] kept@[j] == prev_kept[j]);
                    assert forall|l: int| 0 <= l < i + 1 implies (pruned(
                        (#[trigger] old(self).entries@[l]).times@,
                        now_millis,
                        window,
                    ).len() > 0 <==> exists|j: int|
                        0 <= j < kept@.len() && (#[trigger] kept@[j].key@) == old(self).entries@[l].key@) by {
                        if l < i {
                            if pruned(old(self).entries@[l].times@, now_millis, window).len() > 0 {
                                let j = choose|j: int|
                                    0 <= j < prev_kept.len() && (#[trigger] prev_kept[j].key@)
                                        == old(self).entries@[l].key@;
                                assert(kept@[j].key@ == old(self).entries@[l].key@);
                            } else {
                                assert forall|j: int|
                                    0 <= j < kept@.len() implies (#[trigger] kept@[j].key@)
                                    != old(self).entries@[l].key@ by {
                                    if j == m {
                                        assert(old(self).entries@[l].key@ != old(self).entries@[i as int].key@);
                                    }
                                }
                            }
                        } else {
                            assert(kept@[m].key@ == old(self).entries@[l].key@);
                        }
                    }
                    assert forall|j1: int, j2: int|
                        0 <= j1 < j2 < kept@.len() implies (#[trigger] kept@[j1].key@) != (
                    #[trigger] kept@[j2].key@) by {
                        if j2 == m {
                            let l1 = choose|l: int|
                                0 <= l < i && (#[trigger] prev_kept[j1].key@) == old(self).entries@[l].key@
                                    && prev_kept[j1].times@ == pruned(
                                    old(self).entries@[l].times@,
                                    now_millis,
                                    window,
                                );
                            assert(old(self).entries@[l1].key@ != old(self).entries@[i as int].key@);
                        }
                    }
                }
            } else {
                proof {
                    assert forall|l: int| 0 <= l < i + 1 implies (pruned(
                        (#[trigger] old(self).entries@[l]).times@,
                        now_millis,
                        window,
                    ).len() > 0 <==> exists|j: int|
                        0 <= j < kept@.len() && (#[trigger] kept@[j].key@) == old(self).entries@[l].key@) by {
                        if l == i {
                            assert forall|j: int|
                                0 <= j < kept@.len() implies (#[trigger] kept@[j].key@)
                                != old(self).entries@[l].key@ by {
                                let l2 = choose|l2: int|
                                    0 <= l2 < i && (#[trigger] kept@[j].key@) == old(self).entries@[l2].key@
                                        && kept@[j].times@ == pruned(
                                        old(self).entries@[l2].times@,
                                        now_millis,
                                        window,
                                    );
                                assert(old(self).entries@[l2].key@ != old(self).entries@[i as int].key@);
                            }
                        }
                    }
                }
            }
            i += 1;
        }
        let ghost keptv = kept@;
        proof {
            assert(i == n);
            assert forall|j: int| 0 <= j < keptv.len() implies exists|l: int|
                0 <= l < old(self).entries@.len() && (#[trigger] keptv[j].key@) == old(self).entries@[l].key@
                    && keptv[j].times@ == pruned(old(self).entries@[l].times@, now_millis, window) by {
                assert(keptv[j].key@ == kept@[j].key@);
                let l = choose|l: int|
                    0 <= l < i && (#[trigger] kept@[j].key@) == old(self).entries@[l].key@ && kept@[j].times@
                        == pruned(old(self).entries@[l].times@, now_millis, window);
                assert(0 <= l < old(self).entries@.len() && keptv[j].key@ == old(self).entries@[l].key@ && keptv[j].times@
                    == pruned(old(self).entries@[l].times@, now_millis, window));
            }
            assert forall|l: int| 0 <= l < old(self).entries@.len() implies (pruned(
                (#[trigger] old(self).entries@[l]).times@,
                now_millis,
                window,
            ).len() > 0 <==> exists|j: int|
                0 <= j < keptv.len() && (#[trigger] keptv[j].key@) == old(self).entries@[l].key@) by {
                if pruned(old(self).entries@[l].times@, now_millis, window).len() > 0 {
                    let j = choose|j: int|
                        0 <= j < kept@.len() && (#[trigger] kept@[j].key@) == old(self).entries@[l].key@;
                    assert(0 <= j < keptv.len() && keptv[j].key@ == old(self).entries@[l].key@);
                } else {
                    if exists|j: int|
                        0 <= j < keptv.len() && (#[trigger] keptv[j].key@) == old(self).entries@[l].key@ {
                        let j = choose|j: int|
                            0 <= j < keptv.len() && (#[trigger] keptv[j].key@) == old(self).entries@[l].key@;
                        assert(0 <= j < kept@.len() && kept@[j].key@ == old(self).entries@[l].key@);
                    }
                }
            }
            assert forall|j: int|
                0 <= j < keptv.len() implies (#[trigger] keptv[j].times@).len() > 0 by {
                assert(kept@[j].times@.len() > 0);
            }
            assert forall|j1: int, j2: int|
                0 <= j1 < j2 < keptv.len() implies (#[trigger] keptv[j1].key@) != (
            #[trigger] keptv[j2].key@) by {
                assert(kept@[j1].key@ != kept@[j2].key@);
            }
            assert forall|j: int|
                0 <= j < keptv.len() implies (#[trigger] keptv[j].times@).len()
                <= self.max_requests by {
                assert(keptv[j].key@ == kept@[j].key@);
                let l = choose|l: int|
                    0 <= l < i && (#[trigger] kept@[j].key@) == old(self).entries@[l].key@ && kept@[j].times@
                        == pruned(old(self).entries@[l].times@, now_millis, window);
                old(self).entries@[l].times@.lemma_filter_len(|t: u64| in_window(t, now_millis, window));
            }
        }
        self.entries = kept;
        proof {
            assert(self.entries@ == keptv);
            assert forall|j: int| 0 <= j < self.entries@.len() implies exists|l: int|
                0 <= l < old(self).entries@.len() && (#[trigger] self.entries@[j].key@) == old(self).entries@[l].key@
                    && self.entries@[j].times@ == pruned(old(self).entries@[l].times@, now_millis, window) by {
                assert(self.entries@[j].key@ == keptv[j].key@);
                let l = choose|l: int|
                    0 <= l < old(self).entries@.len() && (#[trigger] keptv[j].key@) == old(self).entries@[l].key@
                        && keptv[j].times@ == pruned(old(self).entries@[l].times@, now_millis, window);
                assert(0 <= l < old(self).entries@.len() && self.entries@[j].key@ == old(self).entries@[l].key@
                    && self.entries@[j].times@ == pruned(old(self).entries@[l].times@, now_millis, window));
            }
            assert forall|l: int| 0 <= l < old(self).entries@.len() implies (pruned(
                (#[trigger] old(self).entries@[l]).times@,
                now_millis,
                window,
            ).len() > 0 <==> exists|j: int|
                0 <= j < self.entries@.len() && (#[trigger] self.entries@[j].key@)
                    == old(self).entries@[l].key@) by {
                if pruned(old(self).entries@[l].times@, now_millis, window).len() > 0 {
                    let j = choose|j: int|
                        0 <= j < keptv.len() && (#[trigger] keptv[j].key@) == old(self).entries@[l].key@;
                    assert(0 <= j < self.entries@.len() && self.entries@[j].key@ == old(self).entries@[l].key@);
                } else {
                    if exists|j: int|
                        0 <= j < self.entries@.len() && (#[trigger] self.entries@[j].key@)
                            == old(self).entries@[l].key@ {
                        let j = choose|j: int|
                            0 <= j < self.entries@.len() && (#[trigger] self.entries@[j].key@)
                                == old(self).entries@[l].key@;
                        assert(0 <= j < keptv.len() && keptv[j].key@ == old(self).entries@[l].key@);
                    }
                }
            }
            assert forall|j: int|
                0 <= j < self.entries@.len() implies (#[trigger] self.entries@[j].times@).len()
                > 0 by {
                assert(keptv[j].times@.len() > 0);
            }
            assert forall|j1: int, j2: int|
                0 <= j1 < j2 < self.entries@.len() implies (#[trigger] self.entries@[j1].key@)
                != (#[trigger] self.entries@[j2].key@) by {
                assert(keptv[j1].key@ != keptv[j2].key@);
            }
            assert forall|j: int|
                0 <= j < self.entries@.len() implies (#[trigger] self.entries@[j].times@).len()
                <= self.max_requests by {
                assert(keptv[j].times@.len() <= self.max_requests);
            }
            assert(self.wf());
            assert forall|k: Seq<char>| #[trigger]
                self.times_of(k) == pruned(old(self).times_of(k), now_millis, window) by {
                if self.has_identity(k) {
                    let j = choose|j: int|
                        0 <= j < self.entries@.len() && (#[trigger] self.entries@[j].key@) == k;
                    self.lemma_times_of_at(j);
                    let l = choose|l: int|
                        0 <= l < old(self).entries@.len() && (#[trigger] old(
                            self,
                        ).entries@[l].key@) == self.entries@[j].key@ && self.entries@[j].times@
                            == pruned(old(self).entries@[l].times@, now_millis, window);
                    old(self).lemma_times_of_at(l);
                } else {
                    if old(self).has_identity(k) {
                        let l = choose|l: int|
                            0 <= l < old(self).entries@.len() && (#[trigger] old(
                                self,
                            ).entries@[l].key@) == k;
                        old(self).lemma_times_of_at(l);
                        if pruned(old(self).entries@[l].times@, now_millis, window).len() > 0 {
                            let j = choose|j: int|
                                0 <= j < self.entries@.len() && (#[trigger] self.entries@[j].key@)
                                    == old(self).entries@[l].key@;
                            assert(self.has_identity(k));
                        }
                        assert(self.times_of(k) =~= pruned(
                            old(self).times_of(k),
                            now_millis,
                            window,
                        ));
                    } else {
                        lemma_pruned_of_empty(now_millis, window);
                    }
                }
            }
        }
    }
}

/// Pruning an empty record leaves it empty.
proof fn lemma_pruned_of_empty(now: u64, window: u64)
    ensures
        pruned(Seq::<u64>::empty(), now, window) == Seq::<u64>::empty(),
{
    reveal(Seq::filter);
}

proof fn lemma_unchanged_identity(prev: RateLimiter, next: RateLimiter, k: Seq<char>, n: int)
    requires
        prev.wf(),
        next.wf(),
        next.entries@.len() == prev.entries@.len() + 1,
        n == prev.entries@.len(),
        forall|i: int| 0 <= i < n ==> #[trigger] next.entries@[i] == prev.entries@[i],
        next.entries@[n].key@ != k,
    ensures
        next.times_of(k) == prev.times_of(k),
{
    if prev.has_identity(k) {
        let i = choose|i: int|
            0 <= i < prev.entries@.len() && (#[trigger] prev.entries@[i].key@) == k;
        prev.lemma_times_of_at(i);
        assert(next.entries@[i].key@ == k);
        next.lemma_times_of_at(i);
    } else {
        assert(!next.has_identity(k)) by {
            if next.has_identity(k) {
                let i = choose|i: int|
                    0 <= i < next.entries@.len() && (#[trigger] next.entries@[i].key@) == k;
                assert(i < n);
                assert(prev.entries@[i].key@ == k);
            }
        }
    }
}

proof fn lemma_unchanged_identity_update(prev: RateLimiter, next: RateLimiter, k: Seq<char>)
    requires
        prev.wf(),
        next.wf(),
        next.entries@.len() == prev.entries@.len(),
        forall|j: int|
            0 <= j < next.entries@.len() ==> #[trigger] next.entries@[j].key@
                == prev.entries@[j].key@,
        forall|j: int|
            0 <= j < next.entries@.len() && prev.entries@[j].key@ == k
                ==> #[trigger] next.entries@[j] == prev.entries@[j],
    ensures
        next.times_of(k) == prev.times_of(k),
{
    if prev.has_identity(k) {
        let i = choose|i: int|
            0 <= i < prev.entries@.len() && (#[trigger] prev.entries@[i].key@) == k;
        prev.lemma_times_of_at(i);
        assert(next.entries@[i] == prev.entries@[i]);
        next.lemma_times_of_at(i);
    } else {
        assert(!next.has_identity(k)) by {
            if next.has_identity(k) {
                let i = choose|i: int|
                    0 <= i < next.entries@.len() && (#[trigger] next.entries@[i].key@) == k;
                assert(prev.entries@[i].key@ == k);
            }
        }
    }
}

fn prune_times(times: &Vec<u64>, now: u64, window: u64) -> (r: Vec<u64>)
    ensures
        r@ == pruned(times@, now, window),
{
    let mut r: Vec<u64> = Vec::new();
    let n = times.len();
    let mut i: usize = 0;
    proof {
        lemma_pruned_of_empty(now, window);
        assert(times@.take(0) =~= Seq::<u64>::empty());
    }
    while i < n
        invariant
            n == times@.len(),
            i <= n,
            r@ == pruned(times@.take(i as int), now, window),
        decreases n - i,
    {
        let t = times[i];
        proof {
            assert(times@.take(i + 1) =~= times@.take(i as int).push(t));
            lemma_filter_push(times@.take(i as int), t, |x: u64| in_window(x, now, window));
        }
        if t > now || now - t < window {
            r.push(t);
        }
        i += 1;
    }
    proof {
        assert(times@.take(n as int) =~= times@);
    }
    r
}

fn count_valid(times: &Vec<u64>, now: u64, window: u64) -> (r: usize)
    ensures
        r == pruned(times@, now, window).len(),
{
    let pruned_vec = prune_times(times, now, window);
    pruned_vec.len()
}

proof fn lemma_run_push(times: Seq<u64>, checks: Seq<u64>, c: u64, max: int, window: u64)
    ensures
        run_times(times, checks.push(c), max, window) == step_times(
            run_times(times, checks, max, window),
            c,
            max,
            window,
        ),
    decreases checks.len(),
{
    if checks.len() == 0 {
        let s = checks.push(c);
        assert(s[0] == c);
        assert(s.drop_first() =~= checks);
        assert(run_times(times, s, max, window) == run_times(
            step_times(times, c, max, window),
            checks,
            max,
            window,
        ));
    } else {
        assert(checks.push(c)[0] == checks[0]);
        assert(checks.push(c).drop_first() =~= checks.drop_first().push(c));
        lemma_run_push(
            step_times(times, checks[0], max, window),
            checks.drop_first(),
            c,
            max,
            window,
        );
    }
}

/// The record an identity with no prior requests holds after the first `k`
/// checks of a burst.
pub open spec fn burst_state(checks: Seq<u64>, k: int, max: int, window: u64) -> Seq<u64> {
    run_times(Seq::<u64>::empty(), checks.take(k), max, window)
}

/// Burst admission: starting from an identity with no recorded requests,
/// for checks all falling within one window span, the k-th check (counting
/// from zero) is admitted exactly when k is below the limit.  In particular,
/// issuing exactly `max` checks admits every one, and the next check within
/// the same span is denied.
pub proof fn lemma_window_burst(checks: Seq<u64>, t0: u64, max: int, window: u64, k: int)
    requires
        max >= 1,
        forall|i: int|
            0 <= i < checks.len() ==> t0 <= #[trigger] checks[i] && (checks[i] as int) < t0
                as int + window as int,
        0 <= k <= checks.len(),
    ensures
        burst_state(checks, k, max, window).len() == if k <= max {
            k
        } else {
            max
        },
        forall|i: int|
            0 <= i < burst_state(checks, k, max, window).len() ==> t0 <= (#[trigger] burst_state(
                checks,
                k,
                max,
                window,
            )[i]) && (burst_state(checks, k, max, window)[i] as int) < t0 as int + window as int,
        k < checks.len() ==> (admit_decision(
            burst_state(checks, k, max, window),
            checks[k],
            max,
            window,
        ) <==> k < max),
    decreases k,
{
    if k == 0 {
        assert(checks.take(0) =~= Seq::<u64>::empty());
        if k < checks.len() {
            lemma_pruned_of_empty(checks[k], window);
        }
    } else {
        lemma_window_burst(checks, t0, max, window, k - 1);
        let prev = burst_state(checks, k - 1, max, window);
        let c = checks[k - 1];
        assert(checks.take(k) =~= checks.take(k - 1).push(c));
        lemma_run_push(Seq::<u64>::empty(), checks.take(k - 1), c, max, window);
        assert(forall|i: int| 0 <= i < prev.len() ==> in_window(#[trigger] prev[i], c, window));
        lemma_filter_all(prev, |t: u64| in_window(t, c, window));
        let cur = burst_state(checks, k, max, window);
        assert(forall|i: int|
            0 <= i < cur.len() ==> t0 <= (#[trigger] cur[i]) && (cur[i] as int) < t0 as int
                + window as int);
        if k < checks.len() {
            assert(forall|i: int|
                0 <= i < cur.len() ==> in_window(#[trigger] cur[i], checks[k], window));
            lemma_filter_all(cur, |t: u64| in_window(t, checks[k], window));
        }
    }
}

/// Pruning is idempotent at any fixed time, so running `cleanup` twice at
/// one instant leaves the same records as running it once.
pub proof fn lemma_pruned_idempotent(times: Seq<u64>, now: u64, window: u64)
    ensures
        pruned(pruned(times, now, window), now, window) == pruned(times, now, window),
{
    let p = |t: u64| in_window(t, now, window);
    broadcast use vstd::seq_lib::group_filter_ensures;

    assert(forall|i: int| 0 <= i < pruned(times, now, window).len() ==> p(
        #[trigger] pruned(times, now, window)[i],
    ));
    lemma_filter_all(pruned(times, now, window), p);
}

/// Admission resumes once the window has elapsed: if every recorded
/// timestamp is at or before `latest` and `now` lies at least one full
/// window later, a check at `now` is admitted and finds nothing to keep.
pub proof fn lemma_window_elapsed(times: Seq<u64>, latest: u64, now: u64, max: int, window: u64)
    requires
        forall|i: int| 0 <= i < times.len() ==> #[trigger] times[i] <= latest,
        now as int >= latest as int + window as int,
        max >= 1,
    ensures
        pruned(times, now, window) == Seq::<u64>::empty(),
        admit_decision(times, now, max, window),
{
    assert(forall|i: int| 0 <= i < times.len() ==> !in_window(#[trigger] times[i], now, window));
    lemma_filter_none(times, |t: u64| in_window(t, now, window));
}

} // verus!
