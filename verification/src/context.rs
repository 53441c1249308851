//! Derivation contexts and the hierarchical path namespace.
//!
//! A `Context` is the derivation scope handed to every structural position of
//! a contract: it carries the network, the funding amount and the position's
//! path. Deriving a child extends the path by one segment and fails when the
//! same sibling segment is derived twice under one parent, so every compiled
//! sub-node gets a globally unique, deterministic identifier.
use crate::error::CompilationError;
use crate::reverse_path::ReversePath;
use std::sync::Arc;
use vstd::prelude::*;

verus! {

/// The ledger a contract is compiled for.
#[derive(Debug, Clone, Copy, PartialEq, Eq, Structural)]
pub enum NetworkId {
    Bitcoin,
    Testnet,
    Signet,
    Regtest,
}

/// One segment of a derivation path: a structural tag or a user-chosen name.
#[derive(Debug)]
pub enum PathSegment {
    /// The root of a compilation.
    Root,
    /// A numbered branch, used for terminal finish functions.
    Branch(u64),
    /// A user-chosen name, such as a transition function's name.
    Named(String),
    /// The committed-next-transaction transitions of a node.
    ThenFn,
    /// The terminal finish functions of a node.
    FinishFn,
    /// The argument-driven finish-or transitions of a node.
    FinishOrFn,
    /// Conditional-compile evaluation.
    CondCompIf,
    /// Guard compilation.
    Guard,
    /// Template production for committed transitions.
    Next,
    /// Template production for suggested transitions.
    Suggested,
    /// Keyed effect expansions of a finish-or transition.
    Effects,
    /// The default-argument expansion of a finish-or transition.
    DefaultEffect,
}

/// The mathematical shape of a path segment, with names as char sequences.
pub enum SegV {
    Root,
    Branch(u64),
    Named(Seq<char>),
    ThenFn,
    FinishFn,
    FinishOrFn,
    CondCompIf,
    Guard,
    Next,
    Suggested,
    Effects,
    DefaultEffect,
}

impl View for PathSegment {
    type V = SegV;

    open spec fn view(&self) -> SegV {
        match self {
            PathSegment::Root => SegV::Root,
            PathSegment::Branch(n) => SegV::Branch(*n),
            PathSegment::Named(s) => SegV::Named(s@),
            PathSegment::ThenFn => SegV::ThenFn,
            PathSegment::FinishFn => SegV::FinishFn,
            PathSegment::FinishOrFn => SegV::FinishOrFn,
            PathSegment::CondCompIf => SegV::CondCompIf,
            PathSegment::Guard => SegV::Guard,
            PathSegment::Next => SegV::Next,
            PathSegment::Suggested => SegV::Suggested,
            PathSegment::Effects => SegV::Effects,
            PathSegment::DefaultEffect => SegV::DefaultEffect,
        }
    }
}

impl Clone for PathSegment {
    /// The clone is the same segment.
    fn clone(&self) -> (r: Self)
        ensures
            r == *self,
    {
        match self {
            PathSegment::Root => PathSegment::Root,
            PathSegment::Branch(n) => PathSegment::Branch(*n),
            PathSegment::Named(s) => PathSegment::Named(s.clone()),
            PathSegment::ThenFn => PathSegment::ThenFn,
            PathSegment::FinishFn => PathSegment::FinishFn,
            PathSegment::FinishOrFn => PathSegment::FinishOrFn,
            PathSegment::CondCompIf => PathSegment::CondCompIf,
            PathSegment::Guard => PathSegment::Guard,
            PathSegment::Next => PathSegment::Next,
            PathSegment::Suggested => PathSegment::Suggested,
            PathSegment::Effects => PathSegment::Effects,
            PathSegment::DefaultEffect => PathSegment::DefaultEffect,
        }
    }
}

/// Whether two segments denote the same path component.
pub fn seg_eq(a: &PathSegment, b: &PathSegment) -> (r: bool)
    ensures
        r == (a@ == b@),
{
    match a {
        PathSegment::Root => match b {
            PathSegment::Root => true,
            _ => false,
        },
        PathSegment::Branch(x) => match b {
            PathSegment::Branch(y) => *x == *y,
            _ => false,
        },
        PathSegment::Named(x) => match b {
            PathSegment::Named(y) => *x == *y,
            _ => false,
        },
        PathSegment::ThenFn => match b {
            PathSegment::ThenFn => true,
            _ => false,
        },
        PathSegment::FinishFn => match b {
            PathSegment::FinishFn => true,
            _ => false,
        },
        PathSegment::FinishOrFn => match b {
            PathSegment::FinishOrFn => true,
            _ => false,
        },
        PathSegment::CondCompIf => match b {
            PathSegment::CondCompIf => true,
            _ => false,
        },
        PathSegment::Guard => match b {
            PathSegment::Guard => true,
            _ => false,
        },
        PathSegment::Next => match b {
            PathSegment::Next => true,
            _ => false,
        },
        PathSegment::Suggested => match b {
            PathSegment::Suggested => true,
            _ => false,
        },
        PathSegment::Effects => match b {
            PathSegment::Effects => true,
            _ => false,
        },
        PathSegment::DefaultEffect => match b {
            PathSegment::DefaultEffect => true,
            _ => false,
        },
    }
}

/// A shared path of segments.
pub type Path = Arc<ReversePath<PathSegment>>;

/// The logical segment sequence of a path, segment views in parent-to-child
/// order.
pub open spec fn path_view(p: &ReversePath<PathSegment>) -> Seq<SegV> {
    Seq::new(p@.len(), |i: int| if 0 <= i < p@.len() {
        p@[i]@
    } else {
        arbitrary()
    })
}

/// Relies on std's `Arc::clone`: the clone is the same shared value.
#[verifier::external_body]
pub(crate) fn clone_path(p: &Path) -> (r: Path)
    ensures
        r == *p,
{
    p.clone()
}

/// A derivation scope: one per structural position of a contract.
#[derive(Debug)]
pub struct Context {
    network: NetworkId,
    funds: u64,
    path: Path,
    used: Vec<PathSegment>,
}

impl Context {
    /// The segment views of this context's path.
    pub closed spec fn path_v(&self) -> Seq<SegV> {
        path_view(&self.path)
    }

    /// The sibling segments already derived under this context.
    pub closed spec fn used_v(&self) -> Seq<SegV> {
        Seq::new(self.used@.len(), |i: int| if 0 <= i < self.used@.len() {
            self.used@[i]@
        } else {
            arbitrary()
        })
    }

    /// The funding amount available to this position, in satoshis.
    pub closed spec fn funds_v(&self) -> u64 {
        self.funds
    }

    /// The ledger compiled for.
    pub closed spec fn network_v(&self) -> NetworkId {
        self.network
    }

    /// An entry context for one compilation: the root of the namespace.
    pub fn new(network: NetworkId, funds: u64) -> (r: Context)
        ensures
            r.network_v() == network,
            r.funds_v() == funds,
            r.path_v() =~= seq![SegV::Root],
            r.used_v() =~= Seq::<SegV>::empty(),
    {
        Context {
            network,
            funds,
            path: ReversePath::push(None, PathSegment::Root),
            used: Vec::new(),
        }
    }

    /// The funding amount available to this position, in satoshis.
    pub fn funds(&self) -> (r: u64)
        ensures
            r == self.funds_v(),
    {
        self.funds
    }

    /// The ledger compiled for.
    pub fn network(&self) -> (r: NetworkId)
        ensures
            r == self.network_v(),
    {
        self.network
    }

    /// This position's path.
    pub fn path(&self) -> (r: Path)
        ensures
            path_view(&r) == self.path_v(),
    {
        clone_path(&self.path)
    }

    /// Derive the child context for `seg`. Fails if and only if the same
    /// sibling segment was already derived under this context; the child
    /// shares this context's network and funds and extends its path.
    pub fn derive(&mut self, seg: PathSegment) -> (r: Result<Context, CompilationError>)
        ensures
            r is Ok <==> !old(self).used_v().contains(seg@),
            r matches Ok(c) ==> {
                &&& c.network_v() == old(self).network_v()
                &&& c.funds_v() == old(self).funds_v()
                &&& c.path_v() =~= old(self).path_v().push(seg@)
                &&& c.used_v() =~= Seq::<SegV>::empty()
                &&& final(self).used_v() =~= old(self).used_v().push(seg@)
            },
            r is Err ==> {
                &&& r matches Err(e) && e is DuplicatePathSegment
                &&& *final(self) == *old(self)
            },
            final(self).network_v() == old(self).network_v() && final(self).funds_v() == old(
                self,
            ).funds_v() && final(self).path_v() == old(self).path_v(),
    {
        let ghost gs = seg@;
        let mut i: usize = 0;
        while i < self.used.len()
            invariant
                0 <= i <= self.used@.len(),
                forall|j: int| 0 <= j < i ==> self.used_v()[j] != seg@,
            decreases self.used@.len() - i,
        {
            if seg_eq(&self.used[i], &seg) {
                proof {
                    assert(old(self).used_v()[i as int] == seg@);
                    assert(old(self).used_v().contains(seg@));
                }
                return Err(CompilationError::DuplicatePathSegment);
            }
            i += 1;
        }
        let child_path = ReversePath::push(Some(clone_path(&self.path)), seg.clone());
        self.used.push(seg);
        let child = Context {
            network: self.network,
            funds: self.funds,
            path: child_path,
            used: Vec::new(),
        };
        proof {
            assert(!old(self).used_v().contains(gs));
            assert(child.path_v() =~= old(self).path_v().push(gs));
            assert(self.used_v() =~= old(self).used_v().push(gs));
        }
        Ok(child)
    }
}

} // verus!
