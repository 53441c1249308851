//! Script fragments and the weight-balanced script tree.
//!
//! Each top-level spending clause is lowered to a script fragment; the
//! fragments are then assembled into a binary tree by repeatedly merging the
//! two lowest-weight subtrees (stable tie-breaking: the earliest minimum
//! wins, and a merged subtree joins the end of the working list), so a fixed
//! fragment list always yields the same tree shape.
use vstd::prelude::*;

verus! {

/// A compiled script fragment: the script's encoding, together with the
/// underlying `miniscript` representation it was compiled to, which the
/// descriptor assembly consumes.
pub struct Fragment {
    pub(crate) script: Vec<u8>,
    pub(crate) ms: crate::bridge::MsRepr,
}

impl View for Fragment {
    type V = Seq<u8>;

    closed spec fn view(&self) -> Seq<u8> {
        self.script@
    }
}

/// A binary tree of script fragments.
pub enum ScriptTree {
    /// One spending condition.
    Leaf(Fragment),
    /// Both children are committed; either may later be revealed alone.
    Node(Box<ScriptTree>, Box<ScriptTree>),
}

/// The shape of a script tree, with fragments as their script bytes.
pub enum TreeShape {
    Leaf(Seq<u8>),
    Node(Box<TreeShape>, Box<TreeShape>),
}

impl View for ScriptTree {
    type V = TreeShape;

    closed spec fn view(&self) -> TreeShape
        decreases self,
    {
        match self {
            ScriptTree::Leaf(f) => TreeShape::Leaf(f@),
            ScriptTree::Node(l, r) => TreeShape::Node(Box::new((**l)@), Box::new((**r)@)),
        }
    }
}

/// Addition on weights, saturating at the largest representable weight.
pub open spec fn sat_add64(a: u64, b: u64) -> u64 {
    if a + b > u64::MAX {
        u64::MAX
    } else {
        (a + b) as u64
    }
}

/// The index of the first entry of least weight.
pub open spec fn min_weight_index(items: Seq<(u64, ScriptTree)>) -> int
    decreases items.len(),
{
    if items.len() <= 1 {
        0
    } else {
        let k = min_weight_index(items.drop_last());
        if items.last().0 < items[k].0 {
            items.len() - 1
        } else {
            k
        }
    }
}

/// The first entry of least weight is a least-weight entry, and the earliest
/// one.
pub proof fn lemma_min_weight_index(items: Seq<(u64, ScriptTree)>)
    requires
        items.len() > 0,
    ensures
        0 <= min_weight_index(items) < items.len(),
        forall|i: int|
            0 <= i < items.len() ==> items[min_weight_index(items)].0 <= #[trigger] items[i].0,
        forall|i: int|
            0 <= i < min_weight_index(items) ==> items[min_weight_index(items)].0 < #[trigger] items[i].0
                || items[min_weight_index(items)].0 == items[i].0,
    decreases items.len(),
{
    if items.len() > 1 {
        lemma_min_weight_index(items.drop_last());
        assert(forall|i: int| 0 <= i < items.len() - 1 ==> items[i] == items.drop_last()[i]);
    }
}

/// The result of merging a weighted list of subtrees, two lowest-weight
/// entries at a time, until one remains; the merged subtree joins the end of
/// the list. An empty list yields no tree.
pub open spec fn merge_trees(items: Seq<(u64, ScriptTree)>) -> Option<ScriptTree>
    decreases items.len(),
    via merge_trees_decreases
{
    if items.len() == 0 {
        None
    } else if items.len() == 1 {
        Some(items[0].1)
    } else {
        let i = min_weight_index(items);
        let first = items[i];
        let rest1 = items.remove(i);
        let j = min_weight_index(rest1);
        let second = rest1[j];
        let rest2 = rest1.remove(j);
        let merged = (
            sat_add64(first.0, second.0),
            ScriptTree::Node(Box::new(first.1), Box::new(second.1)),
        );
        merge_trees(rest2.push(merged))
    }
}

#[via_fn]
proof fn merge_trees_decreases(items: Seq<(u64, ScriptTree)>) {
    if items.len() >= 2 {
        lemma_min_weight_index(items);
        let rest1 = items.remove(min_weight_index(items));
        lemma_min_weight_index(rest1);
    }
}

/// The weighted leaf list a fragment list starts from: uniform weight one.
pub open spec fn uniform_leaves(frags: Seq<Fragment>) -> Seq<(u64, ScriptTree)> {
    Seq::new(frags.len(), |i: int| (1u64, ScriptTree::Leaf(frags[i])))
}

fn min_index(items: &Vec<(u64, ScriptTree)>) -> (k: usize)
    requires
        items@.len() > 0,
    ensures
        k == min_weight_index(items@),
{
    let mut k: usize = 0;
    let mut i: usize = 1;
    while i < items.len()
        invariant
            0 <= k < i <= items@.len(),
            items@.len() > 0,
            k == min_weight_index(items@.subrange(0, i as int)),
        decreases items@.len() - i,
    {
        proof {
            assert(items@.subrange(0, i + 1).drop_last() =~= items@.subrange(0, i as int));
            assert(items@.subrange(0, i + 1).last() == items@[i as int]);
        }
        if items[i].0 < items[k].0 {
            k = i;
        }
        i += 1;
    }
    proof {
        assert(items@.subrange(0, items@.len() as int) =~= items@);
    }
    k
}

/// Build the script tree over the given fragments, each with uniform weight
/// one. The result is the deterministic merge of the weighted leaf list; an
/// empty fragment list yields no tree.
pub fn build_tree(frags: Vec<Fragment>) -> (r: Option<ScriptTree>)
    ensures
        r == merge_trees(uniform_leaves(frags@)),
{
    let mut items: Vec<(u64, ScriptTree)> = Vec::new();
    let mut rest = frags;
    let ghost all = rest@;
    loop
        invariant
            items@.len() + rest@.len() == all.len(),
            rest@ =~= all.subrange(items@.len() as int, all.len() as int),
            items@ =~= uniform_leaves(all).subrange(0, items@.len() as int),
        ensures
            items@ =~= uniform_leaves(all),
        decreases rest@.len(),
    {
        if rest.len() == 0 {
            proof {
                assert(uniform_leaves(all).subrange(0, items@.len() as int) =~= uniform_leaves(
                    all,
                ));
            }
            break ;
        }
        let f = rest.remove(0);
        items.push((1u64, ScriptTree::Leaf(f)));
    }
    while items.len() > 1
        invariant
            merge_trees(items@) == merge_trees(uniform_leaves(all)),
        decreases items@.len(),
    {
        let ghost pre = items@;
        proof {
            lemma_min_weight_index(pre);
        }
        let i = min_index(&items);
        let (w1, t1) = items.remove(i);
        proof {
            lemma_min_weight_index(items@);
        }
        let j = min_index(&items);
        let (w2, t2) = items.remove(j);
        let w = if w1 <= u64::MAX - w2 {
            w1 + w2
        } else {
            u64::MAX
        };
        items.push((w, ScriptTree::Node(Box::new(t1), Box::new(t2))));
        proof {
            let gi = min_weight_index(pre);
            let rest1 = pre.remove(gi);
            let gj = min_weight_index(rest1);
            let rest2 = rest1.remove(gj);
            let merged = (
                sat_add64(pre[gi].0, rest1[gj].0),
                ScriptTree::Node(Box::new(pre[gi].1), Box::new(rest1[gj].1)),
            );
            assert(w == sat_add64(pre[gi].0, rest1[gj].0));
            assert(items@ =~= rest2.push(merged));
            assert(merge_trees(pre) == merge_trees(rest2.push(merged)));
        }
    }
    if items.len() == 0 {
        None
    } else {
        let (_, t) = items.remove(0);
        Some(t)
    }
}

} // verus!
