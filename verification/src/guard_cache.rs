//! Memoization of compiled guards.
//!
//! Within one compilation, each guard function — keyed by its identity — is
//! evaluated at most once: the first request computes and caches the compiled
//! policy expression, every later request returns the cached value, from
//! whichever structural position it is made. A key is marked while its guard
//! is being computed, so a re-entrant request for the same key fails fast
//! instead of looping.
use crate::clause::{Clause, ClauseV};
use vstd::prelude::*;

verus! {

/// The view of an optional clause.
pub open spec fn opt_clause_v(o: &Option<Clause>) -> Option<ClauseV> {
    match o {
        Option::None => None,
        Option::Some(c) => Some(c@),
    }
}

/// The memoization state of one guard key.
pub enum GuardState {
    /// The guard is being computed; a request for it now is re-entrant.
    InProgress,
    /// The compiled expression, or nothing where the guard is not applicable.
    Done(Option<Clause>),
}

/// The shape of a memoization state.
pub enum GuardStateV {
    InProgress,
    Done(Option<ClauseV>),
}

impl View for GuardState {
    type V = GuardStateV;

    open spec fn view(&self) -> GuardStateV {
        match self {
            GuardState::InProgress => GuardStateV::InProgress,
            GuardState::Done(o) => GuardStateV::Done(opt_clause_v(o)),
        }
    }
}

/// The per-compilation guard cache: a map from guard identity to state.
pub struct GuardCache {
    entries: Vec<(u64, GuardState)>,
}

impl View for GuardCache {
    type V = Map<u64, GuardStateV>;

    closed spec fn view(&self) -> Map<u64, GuardStateV> {
        Map::new(
            |k: u64| exists|i: int| 0 <= i < self.entries@.len() && self.entries@[i].0 == k,
            |k: u64|
                self.entries@[choose|i: int|
                    0 <= i < self.entries@.len() && self.entries@[i].0 == k].1@,
        )
    }
}

impl GuardCache {
    /// Every key occurs once.
    pub closed spec fn wf(&self) -> bool {
        forall|i: int, j: int|
            0 <= i < j < self.entries@.len() ==> self.entries@[i].0 != self.entries@[j].0
    }

    /// An empty cache.
    pub fn new() -> (r: GuardCache)
        ensures
            r.wf(),
            r@ =~= Map::<u64, GuardStateV>::empty(),
    {
        GuardCache { entries: Vec::new() }
    }

    /// The state recorded for a key, if any.
    pub fn cached(&self, key: u64) -> (r: Option<&GuardState>)
        requires
            self.wf(),
        ensures
            match r {
                Some(st) => self@.contains_key(key) && st@ == self@[key],
                None => !self@.contains_key(key),
            },
    {
        let mut i: usize = 0;
        while i < self.entries.len()
            invariant
                self.wf(),
                0 <= i <= self.entries@.len(),
                forall|j: int| 0 <= j < i ==> self.entries@[j].0 != key,
            decreases self.entries@.len() - i,
        {
            if self.entries[i].0 == key {
                proof {
                    let c = choose|j: int|
                        0 <= j < self.entries@.len() && self.entries@[j].0 == key;
                    assert(c == i);
                }
                return Some(&self.entries[i].1);
            }
            i += 1;
        }
        None
    }

    /// Mark a fresh key as being computed.
    pub fn begin(&mut self, key: u64)
        requires
            old(self).wf(),
            !old(self)@.contains_key(key),
        ensures
            final(self).wf(),
            final(self)@ =~= old(self)@.insert(key, GuardStateV::InProgress),
    {
        let ghost pre = self.entries@;
        self.entries.push((key, GuardState::InProgress));
        proof {
            assert forall|i: int, j: int|
                0 <= i < j < self.entries@.len() implies self.entries@[i].0
                != self.entries@[j].0 by {
                if j == self.entries@.len() - 1 {
                    assert(pre[i].0 != key);
                }
            }
            assert forall|k: u64| #[trigger]
                self@.contains_key(k) == old(self)@.insert(
                    key,
                    GuardStateV::InProgress,
                ).contains_key(k) && (self@.contains_key(k) ==> self@[k] == old(self)@.insert(
                key,
                GuardStateV::InProgress,
            )[k]) by {
                if k == key {
                    assert(self.entries@[self.entries@.len() - 1].0 == k);
                    let c = choose|i: int| 0 <= i < self.entries@.len() && self.entries@[i].0 == k;
                    assert(c == self.entries@.len() - 1);
                } else {
                    if exists|i: int| 0 <= i < pre.len() && pre[i].0 == k {
                        let w = choose|i: int| 0 <= i < pre.len() && pre[i].0 == k;
                        assert(self.entries@[w].0 == k);
                        let c = choose|i: int|
                            0 <= i < self.entries@.len() && self.entries@[i].0 == k;
                        let c0 = choose|i: int| 0 <= i < pre.len() && pre[i].0 == k;
                        assert(c == c0 == w);
                    }
                }
            }
            assert(self@ =~= old(self)@.insert(key, GuardStateV::InProgress));
        }
    }

    /// Record the computed value for a key that is being computed.
    pub fn store(&mut self, key: u64, value: Option<Clause>)
        requires
            old(self).wf(),
            old(self)@.contains_key(key),
        ensures
            final(self).wf(),
            final(self)@ =~= old(self)@.insert(key, GuardStateV::Done(opt_clause_v(&value))),
    {
        let ghost pre = self.entries@;
        let ghost gv = opt_clause_v(&value);
        let idx = self.index_of(key);
        self.entries[idx] = (key, GuardState::Done(value));
        proof {
            assert forall|a: int, b: int|
                0 <= a < b < self.entries@.len() implies self.entries@[a].0
                != self.entries@[b].0 by {
                assert(pre[a].0 != pre[b].0);
            }
            assert forall|k: u64| #[trigger]
                self@.contains_key(k) == old(self)@.insert(
                    key,
                    GuardStateV::Done(gv),
                ).contains_key(k) && (self@.contains_key(k) ==> self@[k] == old(self)@.insert(
                key,
                GuardStateV::Done(gv),
            )[k]) by {
                if exists|a: int| 0 <= a < pre.len() && pre[a].0 == k {
                    let w = choose|a: int| 0 <= a < pre.len() && pre[a].0 == k;
                    assert(self.entries@[w].0 == k);
                    assert(self@.contains_key(k));
                    let c = choose|a: int| 0 <= a < self.entries@.len() && self.entries@[a].0 == k;
                    assert(c == w);
                    if k == key {
                        assert(w == idx);
                    } else {
                        assert(w != idx);
                        let c0 = choose|a: int| 0 <= a < pre.len() && pre[a].0 == k;
                        assert(c0 == w);
                    }
                } else {
                    assert forall|a: int|
                        0 <= a < self.entries@.len() implies self.entries@[a].0 != k by {
                        if a != idx {
                            assert(pre[a].0 != k);
                        } else {
                            assert(pre[a].0 == key);
                        }
                    }
                    assert(!self@.contains_key(k));
                }
            }
            assert(self@ =~= old(self)@.insert(key, GuardStateV::Done(gv)));
        }
    }

    fn index_of(&self, key: u64) -> (r: usize)
        requires
            self.wf(),
            self@.contains_key(key),
        ensures
            0 <= r < self.entries@.len(),
            self.entries@[r as int].0 == key,
    {
        let mut i: usize = 0;
        while i < self.entries.len()
            invariant
                0 <= i <= self.entries@.len(),
                forall|j: int| 0 <= j < i ==> self.entries@[j].0 != key,
            decreases self.entries@.len() - i,
        {
            if self.entries[i].0 == key {
                return i;
            }
            i += 1;
        }
        proof {
            let w = choose|a: int| 0 <= a < self.entries@.len() && self.entries@[a].0 == key;
            assert(false);
        }
        unreached()
    }
}

} // verus!
