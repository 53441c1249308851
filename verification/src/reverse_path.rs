//! Shared, reverse-linked paths.
//!
//! A `ReversePath` is an immutable, non-empty sequence of segments, stored as
//! a singly-linked chain from child to parent. Parents are held behind `Arc`
//! so sibling derivations share their common prefix instead of copying it.
//! The view of a path is its logical, parent-to-child segment sequence.
use std::sync::Arc;
use vstd::prelude::*;
use vstd::std_specs::cmp::PartialEqSpec;

verus! {

/// Used to build a shared path for all children of a given context.
#[derive(Debug, Clone)]
pub struct ReversePath<T> {
    past: Option<Arc<ReversePath<T>>>,
    this: T,
}

impl<T> ReversePath<T> {
    /// The logical, parent-to-child segment sequence.
    pub closed spec fn segments(&self) -> Seq<T>
        decreases self,
    {
        match self.past {
            Option::None => seq![self.this],
            Option::Some(p) => (*p).segments().push(self.this),
        }
    }
}

impl<T> View for ReversePath<T> {
    type V = Seq<T>;

    open spec fn view(&self) -> Seq<T> {
        self.segments()
    }
}

/// The logical segment sequence of an optional path: empty when absent.
pub open spec fn opt_segments<T>(v: Option<Arc<ReversePath<T>>>) -> Seq<T> {
    match v {
        Option::None => Seq::empty(),
        Option::Some(p) => p@,
    }
}

/// A path always holds at least one segment.
pub proof fn lemma_path_nonempty<T>(p: &ReversePath<T>)
    ensures
        p@.len() >= 1,
    decreases p,
{
    match p.past {
        Option::None => {},
        Option::Some(q) => {
            lemma_path_nonempty(&q);
        },
    }
}

/// A path is determined by its segment sequence: equality and hashing go by
/// the full sequence, never by identity or sharing.
pub proof fn lemma_path_view_injective<T>(a: &ReversePath<T>, b: &ReversePath<T>)
    requires
        a@ == b@,
    ensures
        a == b,
    decreases a,
{
    assert(a@.last() == a.this);
    assert(b@.last() == b.this);
    assert(a.this == b.this);
    match (a.past, b.past) {
        (Option::None, Option::None) => {
            assert(a.past == b.past);
        },
        (Option::Some(x), Option::Some(y)) => {
            assert(x@ =~= a@.drop_last());
            assert(y@ =~= b@.drop_last());
            lemma_path_view_injective(&x, &y);
            assert(a.past == b.past);
        },
        (Option::None, Option::Some(y)) => {
            lemma_path_nonempty(&y);
            assert(b@.len() >= 2);
        },
        (Option::Some(x), Option::None) => {
            lemma_path_nonempty(&x);
            assert(a@.len() >= 2);
        },
    }
}

/// `rp_eq_spec` is equality of the full logical segment sequences, element by
/// element under the segment type's equality specification: never identity,
/// never prefix sharing.
pub proof fn lemma_rp_eq_spec_is_seq_eq<T: PartialEq>(a: &ReversePath<T>, b: &ReversePath<T>)
    ensures
        rp_eq_spec(a, b) <==> (a@.len() == b@.len() && (forall|i: int|
            0 <= i < a@.len() ==> #[trigger] a@[i].eq_spec(&b@[i]))),
    decreases a,
{
    lemma_path_nonempty(a);
    lemma_path_nonempty(b);
    assert(a@.last() == a.this);
    assert(b@.last() == b.this);
    match (a.past, b.past) {
        (Option::None, Option::None) => {
            assert(a@ =~= seq![a.this]);
            assert(b@ =~= seq![b.this]);
        },
        (Option::Some(x), Option::Some(y)) => {
            assert(x@ =~= a@.drop_last());
            assert(y@ =~= b@.drop_last());
            lemma_rp_eq_spec_is_seq_eq(&x, &y);
            if rp_eq_spec(a, b) {
                assert forall|i: int| 0 <= i < a@.len() implies #[trigger] a@[i].eq_spec(
                    &b@[i],
                ) by {
                    if i < a@.len() - 1 {
                        assert(x@[i].eq_spec(&y@[i]));
                    }
                }
            }
            if a@.len() == b@.len() && (forall|i: int|
                0 <= i < a@.len() ==> #[trigger] a@[i].eq_spec(&b@[i])) {
                assert forall|i: int| 0 <= i < x@.len() implies #[trigger] x@[i].eq_spec(
                    &y@[i],
                ) by {
                    assert(a@[i].eq_spec(&b@[i]));
                }
                assert(a@[a@.len() - 1].eq_spec(&b@[b@.len() - 1]));
            }
        },
        (Option::None, Option::Some(y)) => {
            lemma_path_nonempty(&y);
            assert(a@.len() == 1 && b@.len() >= 2);
        },
        (Option::Some(x), Option::None) => {
            lemma_path_nonempty(&x);
            assert(a@.len() >= 2 && b@.len() == 1);
        },
    }
}

/// Segment-wise equality of two paths, in terms of the segment type's own
/// equality specification.
pub closed spec fn rp_eq_spec<T: PartialEq>(a: &ReversePath<T>, b: &ReversePath<T>) -> bool
    decreases a,
{
    &&& a.this.eq_spec(&b.this)
    &&& match (a.past, b.past) {
        (Option::None, Option::None) => true,
        (Option::Some(x), Option::Some(y)) => rp_eq_spec(&x, &y),
        _ => false,
    }
}

fn rp_eq<T: PartialEq>(a: &ReversePath<T>, b: &ReversePath<T>) -> (r: bool)
    ensures
        T::obeys_eq_spec() ==> r == rp_eq_spec(a, b),
    decreases a,
{
    let same_segment = a.this == b.this;
    if !same_segment {
        return false;
    }
    match (&a.past, &b.past) {
        (Some(x), Some(y)) => rp_eq(&**x, &**y),
        (None, None) => true,
        _ => false,
    }
}

impl<T: PartialEq> PartialEq for ReversePath<T> {
    /// Paths are equal when their full segment sequences are equal, whether
    /// or not they share structure in memory.
    fn eq(&self, other: &Self) -> (r: bool) {
        rp_eq(self, other)
    }
}

impl<T: PartialEq> vstd::std_specs::cmp::PartialEqSpecImpl for ReversePath<T> {
    open spec fn obeys_eq_spec() -> bool {
        T::obeys_eq_spec()
    }

    open spec fn eq_spec(&self, other: &Self) -> bool {
        rp_eq_spec(self, other)
    }
}

impl<T> ReversePath<T> {
    /// Add an element to a `ReversePath`.
    pub fn push(v: Option<Arc<ReversePath<T>>>, s: T) -> (r: Arc<ReversePath<T>>)
        ensures
            r@ == opt_segments(v).push(s),
    {
        Arc::new(ReversePath { past: v, this: s })
    }

    /// Iterate over a `ReversePath`, child to parent.
    pub fn iter(&self) -> (r: RPI<'_, T>)
        ensures
            r.remaining() == self@,
    {
        RPI { inner: Some(self) }
    }
}

/// RPI = ReversePathIterator. Walks a path from its last segment up to its
/// root; note that this order is the reverse of the logical order.
pub struct RPI<'a, T> {
    inner: Option<&'a ReversePath<T>>,
}

impl<'a, T> RPI<'a, T> {
    /// The segments this iterator has not yet produced, in logical order;
    /// `next` yields the last of them.
    pub closed spec fn remaining(&self) -> Seq<T> {
        match self.inner {
            Option::None => Seq::empty(),
            Option::Some(p) => p@,
        }
    }

    /// The next segment, walking child to parent.
    pub fn next(&mut self) -> (r: Option<&'a T>)
        ensures
            old(self).remaining().len() == 0 ==> {
                &&& r is None
                &&& final(self).remaining() == old(self).remaining()
            },
            old(self).remaining().len() > 0 ==> {
                &&& r matches Some(s) && *s == old(self).remaining().last()
                &&& final(self).remaining() == old(self).remaining().drop_last()
            },
    {
        proof {
            match self.inner {
                Option::None => {},
                Option::Some(p) => {
                    lemma_path_nonempty(p);
                },
            }
        }
        match self.inner {
            None => None,
            Some(x) => {
                let ret = Some(&x.this);
                match &x.past {
                    Some(prev) => {
                        proof {
                            assert((**prev)@ =~= x@.drop_last());
                        }
                        self.inner = Some(&**prev);
                    },
                    None => {
                        self.inner = None;
                    },
                }
                ret
            },
        }
    }
}

/// Helper for making a `ReversePath`.
pub struct MkReversePath<T>(Option<Arc<ReversePath<T>>>);

impl<T> View for MkReversePath<T> {
    type V = Seq<T>;

    closed spec fn view(&self) -> Seq<T> {
        opt_segments(self.0)
    }
}

impl<T> MkReversePath<T> {
    /// Pop open a `ReversePath`. The source sequence must have held at least
    /// one element.
    pub fn unwrap(self) -> (r: Arc<ReversePath<T>>)
        requires
            self@.len() > 0,
        ensures
            r@ == self@,
    {
        match self.0 {
            Some(x) => x,
            None => unreached(),
        }
    }
}

impl<T> From<Vec<T>> for MkReversePath<T> {
    fn from(v: Vec<T>) -> (r: MkReversePath<T>)
        ensures
            r@ == v@,
    {
        let ghost orig = v@;
        let mut rest = v;
        let mut rp: Option<Arc<ReversePath<T>>> = None;
        while rest.len() > 0
            invariant
                opt_segments(rp) + rest@ =~= orig,
            decreases rest@.len(),
        {
            let x = rest.remove(0);
            rp = Some(ReversePath::push(rp, x));
            proof {
                assert(opt_segments(rp) + rest@ =~= orig);
            }
        }
        proof {
            assert(opt_segments(rp) =~= orig);
        }
        MkReversePath(rp)
    }
}

impl<T> vstd::std_specs::convert::FromSpecImpl<Vec<T>> for MkReversePath<T> {
    open spec fn obeys_from_spec() -> bool {
        false
    }

    open spec fn from_spec(v: Vec<T>) -> MkReversePath<T> {
        choose|m: MkReversePath<T>| m@ == v@
    }
}

impl<T> TryFrom<Vec<T>> for ReversePath<T> {
    type Error = &'static str;

    /// Reconstruct a path from its logical segment sequence; an empty
    /// sequence is rejected with an explicit error.
    fn try_from(v: Vec<T>) -> (r: Result<ReversePath<T>, &'static str>)
        ensures
            v@.len() == 0 <==> r is Err,
            r matches Ok(p) ==> p@ == v@,
            r matches Err(m) ==> m@ == "Reverse Path must have at least one element."@,
    {
        let ghost orig = v@;
        let mut rest = v;
        if rest.len() == 0 {
            return Err("Reverse Path must have at least one element.");
        }
        let mut rp: Option<Arc<ReversePath<T>>> = None;
        while rest.len() > 1
            invariant
                rest@.len() >= 1,
                opt_segments(rp) + rest@ =~= orig,
            decreases rest@.len(),
        {
            let x = rest.remove(0);
            rp = Some(ReversePath::push(rp, x));
            proof {
                assert(opt_segments(rp) + rest@ =~= orig);
            }
        }
        let last = rest.remove(0);
        let p = ReversePath { past: rp, this: last };
        proof {
            assert(p@ =~= orig);
        }
        Ok(p)
    }
}

impl<T> vstd::std_specs::convert::TryFromSpecImpl<Vec<T>> for ReversePath<T> {
    open spec fn obeys_try_from_spec() -> bool {
        false
    }

    open spec fn try_from_spec(v: Vec<T>) -> Result<ReversePath<T>, &'static str> {
        arbitrary()
    }
}

impl<T: Clone> From<ReversePath<T>> for Vec<T> {
    /// The logical segment sequence of a path, each segment cloned.
    fn from(r: ReversePath<T>) -> (v: Vec<T>)
        ensures
            v@.len() == r@.len(),
            forall|i: int| 0 <= i < v@.len() ==> cloned(r@[i], #[trigger] v@[i]),
    {
        let mut rev: Vec<T> = Vec::new();
        let mut it = r.iter();
        loop
            invariant
                it.remaining().len() + rev@.len() == r@.len(),
                it.remaining() == r@.subrange(0, it.remaining().len() as int),
                forall|j: int|
                    0 <= j < rev@.len() ==> cloned(r@[r@.len() - 1 - j], #[trigger] rev@[j]),
            ensures
                rev@.len() == r@.len(),
                forall|j: int|
                    0 <= j < rev@.len() ==> cloned(r@[r@.len() - 1 - j], #[trigger] rev@[j]),
            decreases it.remaining().len(),
        {
            let ghost pre = it.remaining();
            match it.next() {
                Some(x) => {
                    rev.push(x.clone());
                    proof {
                        assert(it.remaining() =~= r@.subrange(0, it.remaining().len() as int));
                        assert(pre.last() == r@[r@.len() - (rev@.len() as int)]);
                    }
                },
                None => {
                    break ;
                },
            }
        }
        let mut out: Vec<T> = Vec::new();
        loop
            invariant
                out@.len() + rev@.len() == r@.len(),
                forall|j: int|
                    0 <= j < rev@.len() ==> cloned(r@[r@.len() - 1 - j], #[trigger] rev@[j]),
                forall|i: int| 0 <= i < out@.len() ==> cloned(r@[i], #[trigger] out@[i]),
            ensures
                out@.len() == r@.len(),
                forall|i: int| 0 <= i < out@.len() ==> cloned(r@[i], #[trigger] out@[i]),
            decreases rev@.len(),
        {
            match rev.pop() {
                Some(x) => {
                    out.push(x);
                },
                None => {
                    break ;
                },
            }
        }
        out
    }
}

impl<T: Clone> vstd::std_specs::convert::FromSpecImpl<ReversePath<T>> for Vec<T> {
    open spec fn obeys_from_spec() -> bool {
        false
    }

    open spec fn from_spec(r: ReversePath<T>) -> Vec<T> {
        choose|v: Vec<T>| v@.len() == r@.len()
    }
}

} // verus!
