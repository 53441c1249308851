//! Policy expressions: algebraic spending conditions.
//!
//! A `Clause` describes under which condition an output may be spent: a key
//! signature, a threshold of sub-conditions, a relative or absolute timelock,
//! a conjunction or disjunction, the trivially-true condition, or the
//! unsatisfiable one. Clauses are composed by the compiler and lowered to
//! script fragments by the policy compiler of the `miniscript` crate.
use vstd::prelude::*;

verus! {

/// An x-only public key, as its 32 raw bytes.
pub type Key = [u8; 32];

/// A spending-condition expression.
#[derive(Debug, PartialEq, Eq)]
pub enum Clause {
    /// A public key which must sign.
    Key(Key),
    /// At least `k` of the sub-conditions must be satisfied.
    Threshold(usize, Vec<Clause>),
    /// All sub-conditions must be satisfied.
    And(Vec<Clause>),
    /// One of the sub-conditions must be satisfied.
    Or(Vec<Clause>),
    /// A relative timelock: the input being spent must have aged this many
    /// blocks.
    Older(u32),
    /// An absolute timelock: the chain must have reached this height.
    After(u32),
    /// Trivially satisfiable.
    Trivial,
    /// Never satisfiable.
    Unsatisfiable,
}

/// The mathematical shape of a `Clause`, with keys as byte sequences.
pub enum ClauseV {
    Key(Seq<u8>),
    Threshold(int, Seq<ClauseV>),
    And(Seq<ClauseV>),
    Or(Seq<ClauseV>),
    Older(u32),
    After(u32),
    Trivial,
    Unsatisfiable,
}

impl Clause {
    /// The view of a clause list, element-wise.
    pub open spec fn seq_view(v: Seq<Clause>) -> Seq<ClauseV>
        decreases v,
    {
        Seq::new(v.len(), |i: int| if 0 <= i < v.len() {
            v[i].view()
        } else {
            arbitrary()
        })
    }
}

impl View for Clause {
    type V = ClauseV;

    open spec fn view(&self) -> ClauseV
        decreases self,
    {
        match self {
            Clause::Key(k) => ClauseV::Key(k@),
            Clause::Threshold(k, v) => ClauseV::Threshold(*k as int, Clause::seq_view(v@)),
            Clause::And(v) => ClauseV::And(Clause::seq_view(v@)),
            Clause::Or(v) => ClauseV::Or(Clause::seq_view(v@)),
            Clause::Older(n) => ClauseV::Older(*n),
            Clause::After(n) => ClauseV::After(*n),
            Clause::Trivial => ClauseV::Trivial,
            Clause::Unsatisfiable => ClauseV::Unsatisfiable,
        }
    }
}

impl Clause {
    /// Deep copy; the copy has the same view.
    pub fn duplicate(&self) -> (r: Clause)
        ensures
            r@ == self@,
        decreases self,
    {
        match self {
            Clause::Key(k) => Clause::Key(*k),
            Clause::Threshold(k, v) => Clause::Threshold(*k, Self::duplicate_list(v)),
            Clause::And(v) => Clause::And(Self::duplicate_list(v)),
            Clause::Or(v) => Clause::Or(Self::duplicate_list(v)),
            Clause::Older(n) => Clause::Older(*n),
            Clause::After(n) => Clause::After(*n),
            Clause::Trivial => Clause::Trivial,
            Clause::Unsatisfiable => Clause::Unsatisfiable,
        }
    }

    /// Deep copy of a clause list, element-wise.
    pub fn duplicate_list(v: &Vec<Clause>) -> (r: Vec<Clause>)
        ensures
            r@.len() == v@.len(),
            forall|i: int| 0 <= i < v@.len() ==> #[trigger] r@[i]@ == v@[i]@,
            Clause::seq_view(r@) == Clause::seq_view(v@),
        decreases v,
    {
        let mut out: Vec<Clause> = Vec::new();
        let mut i: usize = 0;
        while i < v.len()
            invariant
                0 <= i <= v@.len(),
                out@.len() == i,
                forall|j: int| 0 <= j < i ==> #[trigger] out@[j]@ == v@[j]@,
            decreases v@.len() - i,
        {
            out.push(v[i].duplicate());
            i += 1;
        }
        proof {
            assert forall|j: int| 0 <= j < v@.len() implies Clause::seq_view(out@)[j]
                == Clause::seq_view(v@)[j] by {
                assert(out@[j]@ == v@[j]@);
            }
            assert(Clause::seq_view(out@) =~= Clause::seq_view(v@));
        }
        out
    }
}

/// A copy of a key list; the copy holds the same keys.
pub fn duplicate_keys(keys: &Vec<Key>) -> (r: Vec<Key>)
    ensures
        r@ == keys@,
{
    let mut out: Vec<Key> = Vec::new();
    let mut i: usize = 0;
    while i < keys.len()
        invariant
            0 <= i <= keys@.len(),
            out@ =~= keys@.subrange(0, i as int),
        decreases keys@.len() - i,
    {
        out.push(keys[i]);
        i += 1;
    }
    proof {
        assert(out@ =~= keys@);
    }
    out
}

} // verus!
