//! Template maps keyed by commitment hash.
//!
//! The gated and the suggested template sets deduplicate templates by their
//! content hash: the first template recorded for a hash stays. The map is an
//! association list with provably distinct keys, viewed as a mathematical map
//! from hash bytes to templates.
use crate::template::Template;
use vstd::prelude::*;

verus! {

/// Whether two hashes are the same digest.
pub fn hash_eq(a: &[u8; 32], b: &[u8; 32]) -> (r: bool)
    ensures
        r == (a@ == b@),
{
    let mut i: usize = 0;
    while i < 32
        invariant
            0 <= i <= 32,
            forall|j: int| 0 <= j < i ==> a@[j] == b@[j],
        decreases 32 - i,
    {
        if a[i] != b[i] {
            return false;
        }
        i += 1;
    }
    proof {
        assert(a@ =~= b@);
    }
    true
}

/// A deduplicating map from commitment hash to transaction template.
pub struct TemplateMap {
    entries: Vec<([u8; 32], Template)>,
}

impl View for TemplateMap {
    type V = Map<Seq<u8>, Template>;

    closed spec fn view(&self) -> Map<Seq<u8>, Template> {
        Map::new(
            |k: Seq<u8>|
                exists|i: int| 0 <= i < self.entries@.len() && self.entries@[i].0@ == k,
            |k: Seq<u8>|
                self.entries@[choose|i: int|
                    0 <= i < self.entries@.len() && self.entries@[i].0@ == k].1,
        )
    }
}

impl TemplateMap {
    /// The recorded entries, in insertion order.
    pub closed spec fn entries_v(&self) -> Seq<([u8; 32], Template)> {
        self.entries@
    }

    /// Every recorded hash occurs once.
    pub closed spec fn wf(&self) -> bool {
        forall|i: int, j: int|
            0 <= i < j < self.entries@.len() ==> self.entries@[i].0@ != self.entries@[j].0@
    }

    /// Each entry is in the map, and everything in the map is an entry.
    pub proof fn lemma_entries(&self)
        requires
            self.wf(),
        ensures
            forall|i: int|
                0 <= i < self.entries_v().len() ==> self@.contains_key(
                    #[trigger] self.entries_v()[i].0@,
                ) && self@[self.entries_v()[i].0@] == self.entries_v()[i].1,
            forall|k: Seq<u8>|
                self@.contains_key(k) ==> exists|i: int|
                    0 <= i < self.entries_v().len() && #[trigger] self.entries_v()[i].0@ == k,
    {
        assert forall|i: int| 0 <= i < self.entries_v().len() implies self@.contains_key(
            #[trigger] self.entries_v()[i].0@,
        ) && self@[self.entries_v()[i].0@] == self.entries_v()[i].1 by {
            let k = self.entries@[i].0@;
            assert(self@.contains_key(k));
            let c = choose|j: int| 0 <= j < self.entries@.len() && self.entries@[j].0@ == k;
            assert(c == i);
        }
        assert forall|k: Seq<u8>| self@.contains_key(k) implies exists|i: int|
            0 <= i < self.entries_v().len() && #[trigger] self.entries_v()[i].0@ == k by {
            let w = choose|i: int| 0 <= i < self.entries@.len() && self.entries@[i].0@ == k;
            assert(self.entries_v()[w].0@ == k);
        }
    }

    /// An empty map.
    pub fn new() -> (r: TemplateMap)
        ensures
            r.wf(),
            r@ =~= Map::<Seq<u8>, Template>::empty(),
            r.entries_v() =~= Seq::<([u8; 32], Template)>::empty(),
    {
        TemplateMap { entries: Vec::new() }
    }

    /// The number of recorded templates.
    pub fn len(&self) -> (r: usize)
        ensures
            r == self.entries_v().len(),
    {
        self.entries.len()
    }

    /// The hash of the entry at `i`.
    pub fn hash_at(&self, i: usize) -> (r: &[u8; 32])
        requires
            i < self.entries_v().len(),
        ensures
            *r == self.entries_v()[i as int].0,
    {
        &self.entries[i].0
    }

    /// The template of the entry at `i`.
    pub fn template_at(&self, i: usize) -> (r: &Template)
        requires
            i < self.entries_v().len(),
        ensures
            *r == self.entries_v()[i as int].1,
    {
        &self.entries[i].1
    }

    /// The template recorded for a hash, if any.
    pub fn get(&self, h: &[u8; 32]) -> (r: Option<&Template>)
        requires
            self.wf(),
        ensures
            match r {
                Some(t) => self@.contains_key(h@) && *t == self@[h@],
                None => !self@.contains_key(h@),
            },
    {
        let mut i: usize = 0;
        while i < self.entries.len()
            invariant
                self.wf(),
                0 <= i <= self.entries@.len(),
                forall|j: int| 0 <= j < i ==> self.entries@[j].0@ != h@,
            decreases self.entries@.len() - i,
        {
            if hash_eq(&self.entries[i].0, h) {
                proof {
                    self.lemma_entries();
                }
                return Some(&self.entries[i].1);
            }
            i += 1;
        }
        proof {
            if self@.contains_key(h@) {
                self.lemma_entries();
            }
        }
        None
    }

    /// Whether a template is recorded for this hash.
    pub fn contains_hash(&self, h: &[u8; 32]) -> (r: bool)
        requires
            self.wf(),
        ensures
            r == self@.contains_key(h@),
    {
        match self.get(h) {
            Some(_) => true,
            None => false,
        }
    }

    /// Record a template under a hash nothing was recorded for yet.
    pub fn insert(&mut self, h: [u8; 32], t: Template)
        requires
            old(self).wf(),
            !old(self)@.contains_key(h@),
        ensures
            final(self).wf(),
            final(self)@ =~= old(self)@.insert(h@, t),
            final(self).entries_v() =~= old(self).entries_v().push((h, t)),
    {
        proof {
            self.lemma_entries();
        }
        let ghost pre = self.entries@;
        self.entries.push((h, t));
        proof {
            assert forall|i: int, j: int|
                0 <= i < j < self.entries@.len() implies self.entries@[i].0@
                != self.entries@[j].0@ by {
                if j == self.entries@.len() - 1 {
                    assert(pre[i].0@ != h@);
                }
            }
            assert(self@ =~= old(self)@.insert(h@, t)) by {
                assert forall|k: Seq<u8>| #[trigger]
                    self@.contains_key(k) == old(self)@.insert(h@, t).contains_key(k) && (
                self@.contains_key(k) ==> self@[k] == old(self)@.insert(h@, t)[k]) by {
                    if k == h@ {
                        assert(self.entries@[self.entries@.len() - 1].0@ == k);
                        let c = choose|i: int|
                            0 <= i < self.entries@.len() && self.entries@[i].0@ == k;
                        assert(self.entries@[c].1 == t);
                    } else {
                        if exists|i: int| 0 <= i < pre.len() && pre[i].0@ == k {
                            let w = choose|i: int| 0 <= i < pre.len() && pre[i].0@ == k;
                            assert(self.entries@[w].0@ == k);
                            let c = choose|i: int|
                                0 <= i < self.entries@.len() && self.entries@[i].0@ == k;
                            let c0 = choose|i: int| 0 <= i < pre.len() && pre[i].0@ == k;
                            assert(self.entries@[c].1 == pre[c0].1);
                        }
                    }
                }
            }
        }
    }
}

} // verus!
