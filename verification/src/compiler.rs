//! The compilation engine.
//!
//! A contract — its committed-next-transaction transitions, its terminal
//! finish functions and its argument-driven finish-or transitions — is driven
//! through conditional-compile evaluation, guard memoization, clause
//! accumulation, script-tree assembly and fee-safety validation, and yields a
//! compiled artifact or fails atomically.
use crate::bridge::{
    compile_policy, finalize_descriptor, finalized_of, key_only_address, opt_shape, sha256,
};
use crate::clause::{Clause, ClauseV};
use crate::context::{clone_path, Context, Path, PathSegment, SegV};
use crate::error::CompilationError;
use crate::guard_cache::{opt_clause_v, GuardCache, GuardState, GuardStateV};
use crate::template::{lemma_outputs_weight_nonneg, total_of, AmountRange, Template};
use crate::template_map::TemplateMap;
use crate::tree::{build_tree, Fragment, TreeShape};
use vstd::arithmetic::mul::lemma_mul_nonnegative;
use vstd::prelude::*;

verus! {

/// Every suggested template carries no extra guards.
pub open spec fn suggested_ok(m: Map<Seq<u8>, Template>) -> bool {
    forall|k: Seq<u8>| m.contains_key(k) ==> m[k].guards@.len() == 0
}

/// A hash recorded in both the gated and the suggested map never carries
/// differing guard sets: two templates with the same hash are the same
/// logical next transaction, and the guards of both recordings are empty.
pub open spec fn maps_agree(g: Map<Seq<u8>, Template>, s: Map<Seq<u8>, Template>) -> bool {
    forall|k: Seq<u8>|
        #![trigger g.contains_key(k), s.contains_key(k)]
        g.contains_key(k) && s.contains_key(k) ==> g[k].guards@.len() == 0
}

/// Whether a template's declared minimum fee rate is satisfied by the fees
/// available at the estimated spending-transaction size: the template's
/// weight plus the tree's worst-case satisfaction weight.
pub open spec fn fee_ok(t: Template, max_amount: u64, sat_weight: u64) -> bool {
    match t.min_feerate_sats_vbyte {
        None => true,
        Some(m) => max_amount - total_of(t.outputs@) >= m * (t.weight_v() + sat_weight),
    }
}

/// Every gated template's declared minimum fee rate is satisfied.
pub open spec fn fee_safe(m: Map<Seq<u8>, Template>, max_amount: u64, sat_weight: u64) -> bool {
    forall|k: Seq<u8>| m.contains_key(k) ==> fee_ok(m[k], max_amount, sat_weight)
}

/// Check every commitment-gated template against its declared minimum fee
/// rate, at the estimated size of its spending transaction. Passes if and
/// only if every declared rate is satisfied; a template whose available fees
/// exactly meet the required amount passes.
pub fn check_fee_safety(gated: &TemplateMap, max_amount: u64, sat_weight: u64) -> (r: Result<
    (),
    CompilationError,
>)
    requires
        gated.wf(),
    ensures
        r is Ok <==> fee_safe(gated@, max_amount, sat_weight),
        r matches Err(e) ==> e is MinFeerateError,
{
    proof {
        gated.lemma_entries();
    }
    let n = gated.len();
    let mut i: usize = 0;
    while i < n
        invariant
            gated.wf(),
            n == gated.entries_v().len(),
            0 <= i <= n,
            forall|j: int|
                0 <= j < i ==> fee_ok(#[trigger] gated.entries_v()[j].1, max_amount, sat_weight),
        decreases n - i,
    {
        let t = gated.template_at(i);
        proof {
            gated.lemma_entries();
            lemma_outputs_weight_nonneg(t.outputs@);
            match t.min_feerate_sats_vbyte {
                None => {},
                Some(m) => {
                    lemma_mul_nonnegative(m as int, t.weight_v() + sat_weight);
                },
            }
        }
        match t.min_feerate_sats_vbyte {
            None => {},
            Some(m) => {
                let total = match t.total_amount() {
                    Some(x) => x,
                    None => {
                        proof {
                            assert(!fee_ok(gated.entries_v()[i as int].1, max_amount, sat_weight));
                            assert(gated@.contains_key(gated.entries_v()[i as int].0@));
                            assert(!fee_safe(gated@, max_amount, sat_weight));
                        }
                        return Err(CompilationError::MinFeerateError);
                    },
                };
                if total > max_amount {
                    proof {
                        assert(!fee_ok(gated.entries_v()[i as int].1, max_amount, sat_weight));
                        assert(gated@.contains_key(gated.entries_v()[i as int].0@));
                        assert(!fee_safe(gated@, max_amount, sat_weight));
                    }
                    return Err(CompilationError::MinFeerateError);
                }
                let fees = max_amount - total;
                let w = t.weight();
                let size: u128 = w as u128 + sat_weight as u128;
                if size > u64::MAX as u128 {
                    if m > 0 {
                        proof {
                            assert((m as int) * ((w as int) + (sat_weight as int)) >= (w as int)
                                + (sat_weight as int)) by (nonlinear_arith)
                                requires
                                    m >= 1,
                                    w as int + sat_weight as int >= 0,
                            ;
                            assert(!fee_ok(gated.entries_v()[i as int].1, max_amount, sat_weight));
                            assert(gated@.contains_key(gated.entries_v()[i as int].0@));
                            assert(!fee_safe(gated@, max_amount, sat_weight));
                        }
                        return Err(CompilationError::MinFeerateError);
                    }
                    proof {
                        assert(0 * ((w as int) + (sat_weight as int)) == 0) by (nonlinear_arith);
                    }
                    i += 1;
                    continue ;
                }
                proof {
                    assert((m as int) * (size as int) <= u128::MAX) by (nonlinear_arith)
                        requires
                            0 <= m <= u64::MAX && 0 <= size <= u64::MAX,
                    ;
                }
                let required: u128 = (m as u128) * size;
                proof {
                    assert((m as u128) * size == (m as int) * ((w as int) + (sat_weight as int)))
                        by (nonlinear_arith)
                        requires
                            size == w as int + sat_weight as int,
                            m <= u64::MAX && w <= u64::MAX && sat_weight <= u64::MAX,
                    ;
                }
                if (fees as u128) < required {
                    proof {
                        assert(!fee_ok(gated.entries_v()[i as int].1, max_amount, sat_weight));
                        assert(gated@.contains_key(gated.entries_v()[i as int].0@));
                        assert(!fee_safe(gated@, max_amount, sat_weight));
                    }
                    return Err(CompilationError::MinFeerateError);
                }
            },
        }
        i += 1;
    }
    proof {
        assert forall|k: Seq<u8>| gated@.contains_key(k) implies fee_ok(
            gated@[k],
            max_amount,
            sat_weight,
        ) by {
            gated.lemma_entries();
            let w = choose|j: int|
                0 <= j < gated.entries_v().len() && gated.entries_v()[j].0@ == k;
            assert(fee_ok(gated.entries_v()[w].1, max_amount, sat_weight));
        }
    }
    Ok(())
}

/// The running accumulator state of one compilation: the commitment-gated
/// templates, the suggested templates and the amount range.
pub struct Accumulator {
    /// Templates enforced through the commitment-hash mechanism, by hash.
    pub gated: TemplateMap,
    /// Templates merely suggested, by hash.
    pub suggested: TemplateMap,
    /// The amount range covering every recorded committed total.
    pub amount_range: AmountRange,
}

impl Accumulator {
    /// Both maps have distinct keys.
    pub open spec fn wf(&self) -> bool {
        self.gated.wf() && self.suggested.wf()
    }
}

/// Join the branch guard with each accumulated hash condition: each emitted
/// clause is the conjunction of the guard and one condition, in order.
fn join_guards(guards: &Clause, clauses: Vec<Clause>) -> (r: Vec<Clause>)
    ensures
        r@.len() == clauses@.len(),
        forall|i: int|
            0 <= i < r@.len() ==> (#[trigger] r@[i]@) == ClauseV::And(
                seq![guards@, clauses@[i]@],
            ),
{
    let ghost orig = clauses@;
    let mut rest = clauses;
    let mut joined: Vec<Clause> = Vec::new();
    while rest.len() > 0
        invariant
            joined@.len() + rest@.len() == orig.len(),
            rest@ =~= orig.subrange(joined@.len() as int, orig.len() as int),
            forall|i: int|
                0 <= i < joined@.len() ==> (#[trigger] joined@[i]@) == ClauseV::And(
                    seq![guards@, orig[i]@],
                ),
        decreases rest@.len(),
    {
        let c = rest.remove(0);
        let ghost gc = c@;
        let mut pair: Vec<Clause> = Vec::new();
        pair.push(guards.duplicate());
        pair.push(c);
        let ghost gpair = pair@;
        let joined_one = Clause::And(pair);
        proof {
            assert(Clause::seq_view(gpair)[0] == gpair[0]@);
            assert(Clause::seq_view(gpair)[1] == gpair[1]@);
            assert(Clause::seq_view(gpair) =~= seq![guards@, gc]);
        }
        joined.push(joined_one);
    }
    joined
}

/// Resolve one transition's result into the clause accumulator.
///
/// The templates are deduplicated by content hash into the gated or the
/// suggested map — the first writer wins, so every recorded entry is either
/// one of the accumulator's prior entries or one of this transition's
/// templates — and the amount range is widened exactly by every occurrence's
/// committed total. The resolution policy: a nullable commitment-gated
/// transition with no templates is silently pruned and leaves the
/// accumulator untouched; a non-nullable one with no templates is an error;
/// templates under a guard that can never be satisfied are an error; a
/// suggested template that would need guards beyond what was first recorded
/// for its hash — in either map — is an error, and guard-free suggested
/// templates always succeed; otherwise one clause per gated template
/// occurrence is emitted: the commitment condition, conjoined with the
/// hash's first-recorded guards where there are any, and with the branch
/// guard on top unless it is trivially satisfiable.
pub fn resolve_transition<E: Emulator>(
    nullable: bool,
    uses_ctv: bool,
    guards: Clause,
    r_templates: Result<Vec<Template>, CompilationError>,
    acc: Accumulator,
    emulator: &E,
) -> (r: Result<(Vec<Clause>, Accumulator), CompilationError>)
    requires
        acc.wf(),
    ensures
        r matches Ok(out) ==> {
            &&& out.1.wf()
            &&& forall|k: Seq<u8>|
                acc.gated@.contains_key(k) ==> out.1.gated@.contains_key(k) && out.1.gated@[k]
                    == acc.gated@[k]
            &&& forall|k: Seq<u8>|
                acc.suggested@.contains_key(k) ==> out.1.suggested@.contains_key(k)
                    && out.1.suggested@[k] == acc.suggested@[k]
            &&& (uses_ctv ==> out.1.suggested@ == acc.suggested@)
            &&& (!uses_ctv ==> out.1.gated@ == acc.gated@)
            &&& (suggested_ok(acc.suggested@) ==> suggested_ok(out.1.suggested@))
            &&& (maps_agree(acc.gated@, acc.suggested@) ==> maps_agree(
                out.1.gated@,
                out.1.suggested@,
            ))
            &&& (!uses_ctv ==> out.0@.len() == 0)
        },
        r_templates is Err ==> r is Err,
        r_templates matches Ok(ts) ==> {
            &&& (r is Ok) ==> {
                let range = r->Ok_0.1.amount_range;
                &&& range.max_v() >= acc.amount_range.max_v() && range.min_v()
                    <= acc.amount_range.min_v()
                &&& forall|i: int|
                    0 <= i < ts@.len() ==> range.min_v() <= total_of(
                        #[trigger] ts@[i].outputs@,
                    ) <= range.max_v()
                &&& range.max_v() == acc.amount_range.max_v() || (exists|i: int|
                    0 <= i < ts@.len() && range.max_v() == total_of(#[trigger] ts@[i].outputs@))
                &&& range.min_v() == acc.amount_range.min_v() || (exists|i: int|
                    0 <= i < ts@.len() && range.min_v() == total_of(#[trigger] ts@[i].outputs@))
            }
            &&& (uses_ctv && r is Ok) ==> r->Ok_0.0@.len() == ts@.len()
            &&& (uses_ctv && r is Ok) ==> forall|i: int|
                0 <= i < ts@.len() ==> r->Ok_0.1.gated@.contains_key(#[trigger] ts@[i].hash_v())
            &&& (!uses_ctv && r is Ok) ==> forall|i: int|
                0 <= i < ts@.len() ==> r->Ok_0.1.suggested@.contains_key(
                    #[trigger] ts@[i].hash_v(),
                )
            &&& (r is Ok) ==> forall|k: Seq<u8>|
                #![trigger r->Ok_0.1.gated@.contains_key(k)]
                r->Ok_0.1.gated@.contains_key(k) && !acc.gated@.contains_key(k) ==> exists|i: int|
                    0 <= i < ts@.len() && (#[trigger] ts@[i]).hash_v() == k
                        && r->Ok_0.1.gated@[k] == ts@[i]
            &&& (r is Ok) ==> forall|k: Seq<u8>|
                #![trigger r->Ok_0.1.suggested@.contains_key(k)]
                r->Ok_0.1.suggested@.contains_key(k) && !acc.suggested@.contains_key(k) ==> exists|
                    i: int,
                |
                    0 <= i < ts@.len() && (#[trigger] ts@[i]).hash_v() == k
                        && r->Ok_0.1.suggested@[k] == ts@[i]
            &&& (uses_ctv && !(guards@ is Trivial) && r is Ok) ==> forall|i: int|
                0 <= i < r->Ok_0.0@.len() ==> {
                    &&& (#[trigger] r->Ok_0.0@[i]@) is And
                    &&& r->Ok_0.0@[i]@->And_0.len() == 2
                    &&& r->Ok_0.0@[i]@->And_0[0] == guards@
                }
            &&& (uses_ctv && r is Ok) ==> forall|i: int|
                #![trigger r->Ok_0.0@[i]]
                0 <= i < ts@.len() ==> {
                    let inner = if guards@ is Trivial {
                        r->Ok_0.0@[i]@
                    } else {
                        r->Ok_0.0@[i]@->And_0[1]
                    };
                    let g = r->Ok_0.1.gated@[ts@[i].hash_v()].guards;
                    g@.len() > 0 ==> {
                        &&& inner is And
                        &&& inner->And_0.len() == g@.len() + 1
                        &&& forall|j: int|
                            0 <= j < g@.len() ==> inner->And_0[j] == #[trigger] g@[j]@
                    }
                }
            &&& (uses_ctv && nullable && ts@.len() == 0) ==> (r matches Ok(out) && out.0@.len()
                == 0 && out.1 == acc)
            &&& (uses_ctv && !nullable && ts@.len() == 0) ==> (r matches Err(e)
                && e is MissingTemplates)
            &&& (uses_ctv && ts@.len() > 0 && guards@ is Unsatisfiable) ==> (r matches Err(e) && (
            e is UnsatisfiableGuardWithTemplates || e is EmulatorFailure
                || e is TemplateAmountOverflow || e is AdditionalGuardsNotAllowedHere))
            &&& (!uses_ctv && suggested_ok(acc.suggested@) && (forall|i: int|
                0 <= i < ts@.len() ==> {
                    &&& (#[trigger] ts@[i]).guards@.len() == 0
                    &&& total_of(ts@[i].outputs@) <= u64::MAX
                    &&& (acc.gated@.contains_key(ts@[i].hash_v())
                        ==> acc.gated@[ts@[i].hash_v()].guards@.len() == 0)
                })) ==> r is Ok
        },
{
    let Accumulator { mut gated, mut suggested, mut amount_range } = acc;
    let ghost acc_gat = gated@;
    let ghost acc_sug = suggested@;
    let ghost acc_ar = amount_range;
    let mut ts = match r_templates {
        Ok(ts) => ts,
        Err(e) => {
            return Err(e);
        },
    };
    let ghost ots = ts@;
    let n0 = ts.len();
    if uses_ctv && n0 == 0 {
        if nullable {
            return Ok((Vec::new(), Accumulator { gated, suggested, amount_range }));
        }
        return Err(CompilationError::MissingTemplates);
    }
    let mut clauses: Vec<Clause> = Vec::new();
    while ts.len() > 0
        invariant
            r_templates matches Ok(ts0) && ts0@ == ots && ots.len() == n0,
            uses_ctv ==> n0 > 0,
            acc.gated@ == acc_gat,
            acc.suggested@ == acc_sug,
            acc.amount_range == acc_ar,
            ts@.len() <= n0,
            ts@ =~= ots.subrange(n0 - ts@.len(), n0 as int),
            amount_range.max_v() >= acc_ar.max_v() && amount_range.min_v() <= acc_ar.min_v(),
            forall|i: int|
                0 <= i < n0 - ts@.len() ==> amount_range.min_v() <= total_of(
                    #[trigger] ots[i].outputs@,
                ) <= amount_range.max_v(),
            amount_range.max_v() == acc_ar.max_v() || (exists|i: int|
                0 <= i < n0 - ts@.len() && amount_range.max_v() == total_of(
                    #[trigger] ots[i].outputs@,
                )),
            amount_range.min_v() == acc_ar.min_v() || (exists|i: int|
                0 <= i < n0 - ts@.len() && amount_range.min_v() == total_of(
                    #[trigger] ots[i].outputs@,
                )),
            gated.wf(),
            suggested.wf(),
            forall|k: Seq<u8>| #[trigger]
                acc_gat.contains_key(k) ==> gated@.contains_key(k) && gated@[k] == acc_gat[k],
            forall|k: Seq<u8>| #[trigger]
                acc_sug.contains_key(k) ==> suggested@.contains_key(k) && suggested@[k]
                    == acc_sug[k],
            uses_ctv ==> suggested@ == acc_sug,
            !uses_ctv ==> gated@ == acc_gat,
            suggested_ok(acc_sug) ==> suggested_ok(suggested@),
            maps_agree(acc_gat, acc_sug) ==> maps_agree(gated@, suggested@),
            uses_ctv ==> clauses@.len() + ts@.len() == n0,
            !uses_ctv ==> clauses@.len() == 0,
            uses_ctv ==> forall|i: int|
                0 <= i < n0 - ts@.len() ==> gated@.contains_key(#[trigger] ots[i].hash_v()),
            !uses_ctv ==> forall|i: int|
                0 <= i < n0 - ts@.len() ==> suggested@.contains_key(#[trigger] ots[i].hash_v()),
            forall|k: Seq<u8>|
                #![trigger suggested@.contains_key(k)]
                suggested@.contains_key(k) && !acc_sug.contains_key(k) ==> exists|j: int|
                    0 <= j < n0 - ts@.len() && (#[trigger] ots[j]).hash_v() == k && suggested@[k]
                        == ots[j],
            forall|k: Seq<u8>|
                #![trigger gated@.contains_key(k)]
                gated@.contains_key(k) && !acc_gat.contains_key(k) ==> exists|j: int|
                    0 <= j < n0 - ts@.len() && (#[trigger] ots[j]).hash_v() == k && gated@[k]
                        == ots[j],
            uses_ctv ==> forall|i: int|
                #![trigger clauses@[i]]
                0 <= i < n0 - ts@.len() ==> {
                    let g = gated@[ots[i].hash_v()].guards;
                    g@.len() > 0 ==> {
                        &&& clauses@[i]@ is And
                        &&& clauses@[i]@->And_0.len() == g@.len() + 1
                        &&& forall|j: int|
                            0 <= j < g@.len() ==> clauses@[i]@->And_0[j] == #[trigger] g@[j]@
                    }
                },
        decreases ts@.len(),
    {
        let ghost done = n0 - ts@.len();
        let t = ts.remove(0);
        proof {
            assert(t == ots[done]);
        }
        let h = t.hash();
        let total = match t.total_amount() {
            Some(x) => x,
            None => {
                proof {
                    assert(total_of(ots[done].outputs@) > u64::MAX);
                }
                return Err(CompilationError::TemplateAmountOverflow);
            },
        };
        amount_range.update_range(total);
        proof {
            assert(ts@ =~= ots.subrange(n0 - ts@.len(), n0 as int));
            assert(amount_range.min_v() <= total_of(ots[done].outputs@) <= amount_range.max_v());
        }
        let ghost pre_gated = gated@;
        let ghost pre_suggested = suggested@;
        proof {
            assert forall|k: Seq<u8>| acc_gat.contains_key(k) implies pre_gated.contains_key(k)
                && pre_gated[k] == acc_gat[k] by {}
        }
        if uses_ctv {
            if !gated.contains_hash(&h) {
                if t.guards.len() > 0 && suggested.contains_hash(&h) {
                    return Err(CompilationError::AdditionalGuardsNotAllowedHere);
                }
                let ghost gt = t;
                gated.insert(h, t);
                proof {
                    assert forall|k: Seq<u8>|
                        #![trigger gated@.contains_key(k)]
                        gated@.contains_key(k) && !acc_gat.contains_key(k) implies exists|j: int|
                        0 <= j < n0 - ts@.len() && (#[trigger] ots[j]).hash_v() == k && gated@[k]
                            == ots[j] by {
                        if k == h@ {
                            assert(ots[done].hash_v() == k && gated@[k] == ots[done]);
                        } else {
                            assert(pre_gated.contains_key(k));
                            let j0 = choose|j: int|
                                0 <= j < done && (#[trigger] ots[j]).hash_v() == k && pre_gated[k]
                                    == ots[j];
                            assert(ots[j0].hash_v() == k && gated@[k] == ots[j0]);
                        }
                    }
                    if maps_agree(acc_gat, acc_sug) {
                        assert forall|k: Seq<u8>|
                            gated@.contains_key(k) && suggested@.contains_key(
                                k,
                            ) implies gated@[k].guards@.len() == 0 by {
                            if k == h@ {
                                assert(gated@[k] == gt);
                            } else {
                                assert(pre_gated.contains_key(k) && pre_gated[k] == gated@[k]);
                            }
                        }
                    }
                }
            }
            proof {
                assert forall|k: Seq<u8>| acc_gat.contains_key(k) implies gated@.contains_key(k)
                    && gated@[k] == acc_gat[k] by {
                    assert(pre_gated.contains_key(k) && pre_gated[k] == acc_gat[k]);
                }
            }
            let entry = match gated.get(&h) {
                Some(e) => e,
                None => unreached(),
            };
            let cond = match emulator.condition_for(&h) {
                Ok(c) => c,
                Err(msg) => {
                    return Err(CompilationError::EmulatorFailure(msg));
                },
            };
            let ghost entry_guards = entry.guards@;
            proof {
                assert(gated@[h@].guards@ == entry_guards);
            }
            if entry.guards.len() == 0 {
                clauses.push(cond);
            } else {
                let mut g = Clause::duplicate_list(&entry.guards);
                let ghost gcond = cond@;
                g.push(cond);
                let ghost gg = g@;
                clauses.push(Clause::And(g));
                proof {
                    assert forall|j: int|
                        0 <= j < entry_guards.len() implies #[trigger] Clause::seq_view(gg)[j]
                        == entry_guards[j]@ by {
                        assert(gg[j]@ == entry_guards[j]@);
                    }
                    assert(Clause::seq_view(gg).len() == entry_guards.len() + 1);
                    assert(clauses@.last()@ == ClauseV::And(Clause::seq_view(gg)));
                }
            }
        } else {
            if !suggested.contains_hash(&h) {
                match gated.get(&h) {
                    Some(e) => {
                        if e.guards.len() > 0 {
                            proof {
                                assert(acc_gat.contains_key(ots[done].hash_v())
                                    && acc_gat[ots[done].hash_v()].guards@.len() > 0);
                            }
                            return Err(CompilationError::AdditionalGuardsNotAllowedHere);
                        }
                    },
                    None => {},
                }
                suggested.insert(h, t);
                proof {
                    assert forall|k: Seq<u8>|
                        #![trigger suggested@.contains_key(k)]
                        suggested@.contains_key(k) && !acc_sug.contains_key(k) implies exists|
                        j: int,
                    |
                        0 <= j < n0 - ts@.len() && (#[trigger] ots[j]).hash_v() == k
                            && suggested@[k] == ots[j] by {
                        if k == h@ {
                            assert(ots[done].hash_v() == k && suggested@[k] == ots[done]);
                        } else {
                            assert(pre_suggested.contains_key(k));
                            let j0 = choose|j: int|
                                0 <= j < done && (#[trigger] ots[j]).hash_v() == k
                                    && pre_suggested[k] == ots[j];
                            assert(ots[j0].hash_v() == k && suggested@[k] == ots[j0]);
                        }
                    }
                    if maps_agree(acc_gat, acc_sug) {
                        assert forall|k: Seq<u8>|
                            gated@.contains_key(k) && suggested@.contains_key(
                                k,
                            ) implies gated@[k].guards@.len() == 0 by {
                            if k != h@ {
                                assert(pre_suggested.contains_key(k));
                            }
                        }
                    }
                }
            }
            proof {
                assert forall|k: Seq<u8>|
                    acc_sug.contains_key(k) implies suggested@.contains_key(k) && suggested@[k]
                    == acc_sug[k] by {
                    assert(pre_suggested.contains_key(k) && pre_suggested[k] == acc_sug[k]);
                }
            }
            let entry = match suggested.get(&h) {
                Some(e) => e,
                None => unreached(),
            };
            if entry.guards.len() != 0 {
                proof {
                    if suggested_ok(acc_sug) {
                        if acc_sug.contains_key(h@) {
                            assert(suggested@[h@] == acc_sug[h@]);
                            assert(false);
                        } else {
                            let j0 = choose|j: int|
                                0 <= j < n0 - ts@.len() && (#[trigger] ots[j]).hash_v() == h@
                                    && suggested@[h@] == ots[j];
                            assert(ots[j0].guards@.len() > 0);
                        }
                    }
                }
                return Err(CompilationError::AdditionalGuardsNotAllowedHere);
            }
            proof {
                assert(suggested@[h@].guards@.len() == 0);
                if suggested_ok(acc_sug) {
                    assert forall|k: Seq<u8>| suggested@.contains_key(k) implies suggested@[k].guards@.len()
                        == 0 by {
                        if k != h@ {
                            assert(pre_suggested.contains_key(k) && pre_suggested[k]
                                == suggested@[k]);
                            assert(suggested_ok(pre_suggested));
                        }
                    }
                }
            }
        }
    }
    if uses_ctv {
        if let Clause::Unsatisfiable = guards {
            return Err(CompilationError::UnsatisfiableGuardWithTemplates);
        }
        if let Clause::Trivial = guards {
            return Ok((clauses, Accumulator { gated, suggested, amount_range }));
        }
    }
    let joined = join_guards(&guards, clauses);
    Ok((joined, Accumulator { gated, suggested, amount_range }))
}

/// The oracle that turns a commitment hash into the concrete on-chain
/// spending condition. It stands for an external collaborator, possibly
/// across a network boundary, and every call may fail; a failure aborts the
/// compilation.
pub trait Emulator {
    /// The spending condition enforcing commitment to the template with this
    /// content hash.
    fn condition_for(&self, hash: &[u8; 32]) -> Result<Clause, String>;
}

/// The external-argument lookup service: the values recorded for a path, as
/// pairs of argument key and argument value. Used only by finish-or
/// expansion; may return no entries.
pub trait EffectDB {
    /// The externally supplied arguments recorded under `path`.
    fn get_value(&self, path: &Path) -> Vec<(String, String)>;
}

/// What a conditional-compile predicate decides for one transition.
pub enum CompileIf {
    /// The transition must produce at least one template.
    Required,
    /// Zero or more templates are fine.
    NoConstraint,
    /// Zero templates prune the branch silently.
    Nullable,
    /// The transition is excluded and not even attempted.
    Skippable,
    /// The transition is excluded and not even attempted.
    Never,
    /// The transition is attempted, its templates are discarded, and the
    /// collected diagnostics surface if the branch turns out non-empty.
    Fail(Vec<String>),
}

/// The declaration of a committed-next-transaction transition.
pub struct ThenFnDecl {
    /// The transition's name; also its path segment.
    pub name: String,
    /// The identities of the transition's guard functions.
    pub guards: Vec<u64>,
}

/// The declaration of an argument-driven finish-or transition.
pub struct FinishOrFnDecl {
    /// The transition's name; also its path segment.
    pub name: String,
    /// The identities of the transition's guard functions.
    pub guards: Vec<u64>,
    /// The schema of the arguments an external actor may later supply.
    pub schema: String,
}

/// The capability set a compilable contract exposes: its transition
/// declarations, its conditional-compile predicates, its guard functions and
/// its template-producing functions. Implementors are unverified callers'
/// code; the engine is verified for every behaviour of them.
pub trait AnyContract {
    /// The committed-next-transaction transitions.
    fn then_fns(&self) -> Vec<ThenFnDecl>;

    /// The argument-driven finish-or transitions.
    fn finish_or_fns(&self) -> Vec<FinishOrFnDecl>;

    /// The guard identities of the terminal finish functions.
    fn finish_fns(&self) -> Vec<u64>;

    /// The conditional-compile predicate of the `i`th then-transition.
    fn compile_if_then(&self, i: usize, ctx: Context) -> CompileIf;

    /// The conditional-compile predicate of the `i`th finish-or transition.
    fn compile_if_finish_or(&self, i: usize, ctx: Context) -> CompileIf;

    /// The guard function with identity `key`: a policy expression, or
    /// nothing where the guard is not applicable.
    fn guard(&self, key: u64, ctx: Context) -> Option<Clause>;

    /// Produce the templates of the `i`th then-transition.
    fn call_then<E: Emulator, D: EffectDB>(
        &self,
        i: usize,
        ctx: Context,
        emulator: &E,
        effects: &D,
    ) -> Result<Vec<Template>, CompilationError>;

    /// Produce the templates of the `i`th finish-or transition, for the
    /// default argument or for one externally supplied argument.
    fn call_finish_or<E: Emulator, D: EffectDB>(
        &self,
        i: usize,
        ctx: Context,
        emulator: &E,
        effects: &D,
        arg: Option<&String>,
    ) -> Result<Vec<Template>, CompilationError>;
}

/// A deep copy of an optional clause; the copy has the same view.
pub fn duplicate_opt_clause(o: &Option<Clause>) -> (r: Option<Clause>)
    ensures
        opt_clause_v(&r) == opt_clause_v(o),
{
    match o {
        Some(c) => Some(c.duplicate()),
        None => None,
    }
}

/// Fetch the compiled clause of one guard function, computing it at most
/// once. A request for a key whose clause is already cached returns the
/// cached value and leaves the cache unchanged — whatever structural position
/// it is made from — and the guard function is not invoked again; a request
/// for a key that is being computed fails fast.
pub fn get_or_compile<C: AnyContract>(
    cache: &mut GuardCache,
    contract: &C,
    key: u64,
    ctx: Context,
) -> (r: Result<Option<Clause>, CompilationError>)
    requires
        old(cache).wf(),
    ensures
        final(cache).wf(),
        (old(cache)@.contains_key(key) && old(cache)@[key] is Done) ==> {
            &&& final(cache)@ == old(cache)@
            &&& r matches Ok(c) && opt_clause_v(&c) == old(cache)@[key]->Done_0
        },
        old(cache)@.contains_key(key) && old(cache)@[key] is InProgress ==> {
            &&& final(cache)@ == old(cache)@
            &&& r matches Err(e) && e is RecursiveGuardInvocation
        },
        !old(cache)@.contains_key(key) ==> (r matches Ok(c) && final(cache)@ =~= old(
            cache,
        )@.insert(key, GuardStateV::Done(opt_clause_v(&c)))),
{
    match cache.cached(key) {
        Some(state) => match state {
            GuardState::InProgress => Err(CompilationError::RecursiveGuardInvocation),
            GuardState::Done(v) => Ok(duplicate_opt_clause(v)),
        },
        None => {
            cache.begin(key);
            let g = contract.guard(key, ctx);
            let out = duplicate_opt_clause(&g);
            cache.store(key, g);
            Ok(out)
        },
    }
}

/// The clauses of the applicable guards among `keys`, in order: the payloads
/// of the cache's computed entries, skipping the keys whose guard is not
/// applicable.
pub open spec fn collected_guards(keys: Seq<u64>, m: Map<u64, GuardStateV>) -> Seq<ClauseV>
    decreases keys.len(),
{
    if keys.len() == 0 {
        Seq::empty()
    } else {
        let init = collected_guards(keys.drop_last(), m);
        match m[keys.last()] {
            GuardStateV::Done(Some(c)) => init.push(c),
            _ => init,
        }
    }
}

/// The collected guards depend only on the cache states of the listed keys.
proof fn lemma_collected_guards_agree(
    keys: Seq<u64>,
    m1: Map<u64, GuardStateV>,
    m2: Map<u64, GuardStateV>,
)
    requires
        forall|i: int| 0 <= i < keys.len() ==> m1[#[trigger] keys[i]] == m2[keys[i]],
    ensures
        collected_guards(keys, m1) == collected_guards(keys, m2),
    decreases keys.len(),
{
    if keys.len() > 0 {
        assert(forall|i: int|
            0 <= i < keys.drop_last().len() ==> #[trigger] keys.drop_last()[i] == keys[i]);
        lemma_collected_guards_agree(keys.drop_last(), m1, m2);
    }
}

/// Compile the guard list of one transition into its branch guard. On
/// success every listed key's guard has been computed — at most once, through
/// the cache — and the result combines the applicable guards' clauses:
/// trivially satisfiable where none applies, the single clause where one
/// does, and their conjunction otherwise.
pub fn create_guards<C: AnyContract>(
    cache: &mut GuardCache,
    contract: &C,
    keys: &Vec<u64>,
    ctx: Context,
) -> (r: Result<Clause, CompilationError>)
    requires
        old(cache).wf(),
    ensures
        final(cache).wf(),
        r matches Ok(c) ==> {
            &&& forall|i: int|
                0 <= i < keys@.len() ==> final(cache)@.contains_key(#[trigger] keys@[i])
                    && final(cache)@[keys@[i]] is Done
            &&& ({
                let gs = collected_guards(keys@, final(cache)@);
                if gs.len() == 0 {
                    c@ == ClauseV::Trivial
                } else if gs.len() == 1 {
                    c@ == gs[0]
                } else {
                    c@ == ClauseV::And(gs)
                }
            })
        },
{
    let mut ctx = ctx;
    let mut found: Vec<Clause> = Vec::new();
    let mut i: usize = 0;
    while i < keys.len()
        invariant
            cache.wf(),
            0 <= i <= keys@.len(),
            forall|j: int|
                0 <= j < i ==> cache@.contains_key(#[trigger] keys@[j]) && cache@[keys@[j]] is Done,
            Clause::seq_view(found@) == collected_guards(keys@.subrange(0, i as int), cache@),
        decreases keys@.len() - i,
    {
        let sub = match ctx.derive(PathSegment::Branch(i as u64)) {
            Ok(c) => c,
            Err(e) => {
                return Err(e);
            },
        };
        let ghost pre = cache@;
        let ghost pre_found = found@;
        let fetched = get_or_compile(cache, contract, keys[i], sub)?;
        proof {
            assert forall|j: int| 0 <= j < i implies cache@.contains_key(#[trigger] keys@[j])
                && cache@[keys@[j]] is Done && cache@[keys@[j]] == pre[keys@[j]] by {
                assert(pre.contains_key(keys@[j]) && pre[keys@[j]] is Done);
            }
            lemma_collected_guards_agree(keys@.subrange(0, i as int), pre, cache@);
            assert(keys@.subrange(0, i + 1).drop_last() =~= keys@.subrange(0, i as int));
            assert(keys@.subrange(0, i + 1).last() == keys@[i as int]);
        }
        match fetched {
            Some(c) => {
                let ghost gc = c@;
                found.push(c);
                proof {
                    assert(cache@[keys@[i as int]] == GuardStateV::Done(Some(gc)));
                    assert forall|j: int|
                        0 <= j < found@.len() implies #[trigger] Clause::seq_view(found@)[j]
                        == collected_guards(keys@.subrange(0, i + 1), cache@)[j] by {
                        if j < pre_found.len() {
                            assert(found@[j] == pre_found[j]);
                            assert(Clause::seq_view(pre_found)[j] == pre_found[j]@);
                        } else {
                            assert(found@[j] == c);
                        }
                    }
                    assert(Clause::seq_view(found@) =~= collected_guards(
                        keys@.subrange(0, i + 1),
                        cache@,
                    ));
                }
            },
            None => {
                proof {
                    assert(cache@[keys@[i as int]] == GuardStateV::Done(None));
                    assert(Clause::seq_view(found@) =~= collected_guards(
                        keys@.subrange(0, i + 1),
                        cache@,
                    ));
                }
            },
        }
        i += 1;
    }
    proof {
        assert(keys@.subrange(0, keys@.len() as int) =~= keys@);
    }
    let ghost gs = collected_guards(keys@, cache@);
    if found.len() == 0 {
        Ok(Clause::Trivial)
    } else if found.len() == 1 {
        let c = found.remove(0);
        proof {
            assert(c@ == Clause::seq_view(found@.insert(0, c))[0]);
        }
        Ok(c)
    } else {
        let ghost gfound = found@;
        let r = Clause::And(found);
        proof {
            assert(r@ == ClauseV::And(Clause::seq_view(gfound)));
        }
        Ok(r)
    }
}

/// The merged template sequence of one finish-or transition: the default
/// expansion's templates, followed by each keyed expansion's templates in
/// order.
pub open spec fn merged_expansions(default_expansion: Seq<Template>, keyed: Seq<Vec<Template>>) -> Seq<
    Template,
>
    decreases keyed.len(),
{
    if keyed.len() == 0 {
        default_expansion
    } else {
        merged_expansions(default_expansion, keyed.drop_last()) + keyed.last()@
    }
}

/// Merge the expansions of one finish-or transition: exactly the default
/// expansion's templates first, then each keyed expansion's templates in the
/// order the arguments were found.
pub fn merge_expansions(default_expansion: Vec<Template>, keyed: Vec<Vec<Template>>) -> (r: Vec<
    Template,
>)
    ensures
        r@ == merged_expansions(default_expansion@, keyed@),
{
    let ghost gdefault = default_expansion@;
    let ghost gkeyed = keyed@;
    let mut out = default_expansion;
    let mut rest = keyed;
    while rest.len() > 0
        invariant
            rest@.len() <= gkeyed.len(),
            rest@ =~= gkeyed.subrange(gkeyed.len() - rest@.len(), gkeyed.len() as int),
            out@ == merged_expansions(gdefault, gkeyed.subrange(0, gkeyed.len() - rest@.len())),
        decreases rest@.len(),
    {
        let ghost done = gkeyed.len() - rest@.len();
        let mut v = rest.remove(0);
        proof {
            assert(gkeyed.subrange(0, done + 1).drop_last() =~= gkeyed.subrange(0, done));
            assert(gkeyed.subrange(0, done + 1).last() == gkeyed[done]);
        }
        out.append(&mut v);
        proof {
            assert(rest@ =~= gkeyed.subrange(gkeyed.len() - rest@.len(), gkeyed.len() as int));
        }
    }
    proof {
        assert(gkeyed.subrange(0, gkeyed.len() as int) =~= gkeyed);
    }
    out
}

/// Expand one finish-or transition: always the default-argument expansion,
/// and additionally one expansion per externally supplied argument found in
/// the effect-lookup service under the transition's path. On success the
/// result merges the expansions through `merge_expansions`, the default
/// expansion's templates first; the first failing expansion — the default
/// one, then the keyed ones in order — aborts the compilation with its error.
/// A context whose derivations are already taken fails before any expansion.
pub fn compute_all_effects<C: AnyContract, E: Emulator, D: EffectDB>(
    contract: &C,
    i: usize,
    top_effect_ctx: Context,
    emulator: &E,
    effects: &D,
) -> (r: Result<Vec<Template>, CompilationError>)
    ensures
        top_effect_ctx.used_v().contains(SegV::Effects) ==> (r matches Err(e)
            && e is DuplicatePathSegment),
{
    let mut top = top_effect_ctx;
    let path = top.path();
    let mut applied = top.derive(PathSegment::Effects)?;
    let default_ctx = top.derive(PathSegment::DefaultEffect)?;
    let default_expansion = contract.call_finish_or(i, default_ctx, emulator, effects, None)?;
    let mut keyed: Vec<Vec<Template>> = Vec::new();
    let mut kvs = effects.get_value(&path);
    while kvs.len() > 0
        invariant
            !top_effect_ctx.used_v().contains(SegV::Effects),
        decreases kvs@.len(),
    {
        let (k, arg) = kvs.remove(0);
        let keyed_ctx = applied.derive(PathSegment::Named(k))?;
        let expansion = contract.call_finish_or(i, keyed_ctx, emulator, effects, Some(&arg))?;
        keyed.push(expansion);
    }
    Ok(merge_expansions(default_expansion, keyed))
}

/// A named, schema-typed extension point where an external actor may later
/// supply arguments to resume compilation along a path.
pub struct ContinuationPoint {
    /// The schema of the arguments the extension point takes.
    pub schema: String,
    /// The extension point's path.
    pub path: Path,
}

/// A compiled artifact: the address and descriptor of the contract's single
/// output, the commitment-gated and the suggested template sets, the
/// continuation points, the amount range and the root path. Created exactly
/// once as the successful result of one compilation; immutable thereafter.
pub struct Compiled {
    /// The output address.
    pub address: String,
    /// The output descriptor, where one was assembled.
    pub descriptor: Option<String>,
    /// The commitment-gated templates, by commitment hash.
    pub ctv_to_tx: TemplateMap,
    /// The suggested templates, by commitment hash.
    pub suggested_txs: TemplateMap,
    /// The continuation points, by path.
    pub continue_apis: Vec<(Path, ContinuationPoint)>,
    /// The least and greatest amounts the contract's output may hold.
    pub amount_range: AmountRange,
    /// The path of the compilation this artifact came from.
    pub root_path: Path,
}

impl Compiled {
    /// An already compiled artifact compiles to itself.
    pub fn compile(self, _ctx: Context) -> (r: Result<Compiled, CompilationError>)
        ensures
            r matches Ok(c) && c == self,
    {
        Ok(self)
    }
}

/// The tree's internal key, as chosen from a branch list: the first branch
/// that is a bare public key; where none is, the fixed, provably unspendable
/// key derived by hashing a public constant.
pub open spec fn selected_key(bs: Seq<Clause>) -> Seq<u8>
    decreases bs.len(),
{
    if bs.len() == 0 {
        crate::bridge::sha256_of(Seq::new(32, |i: int| 1u8))
    } else if bs[0] is Key {
        bs[0]->Key_0@
    } else {
        selected_key(bs.drop_first())
    }
}

/// The first branch that is a bare public key, as the tree's internal key; a
/// fixed, publicly known, hash-derived key where none is.
pub fn select_internal_key(branches: &Vec<Clause>) -> (r: [u8; 32])
    ensures
        r@ == selected_key(branches@),
{
    let mut i: usize = 0;
    proof {
        assert(branches@.skip(0) =~= branches@);
    }
    while i < branches.len()
        invariant
            0 <= i <= branches@.len(),
            selected_key(branches@) == selected_key(branches@.skip(i as int)),
        decreases branches@.len() - i,
    {
        proof {
            assert(branches@.skip(i as int)[0] == branches@[i as int]);
            assert(branches@.skip(i as int).drop_first() =~= branches@.skip(i + 1));
        }
        if let Clause::Key(k) = &branches[i] {
            return *k;
        }
        i += 1;
    }
    proof {
        assert(branches@.skip(branches@.len() as int).len() == 0);
    }
    let mut ones: Vec<u8> = Vec::new();
    let mut j: usize = 0;
    while j < 32
        invariant
            0 <= j <= 32,
            ones@ =~= Seq::new(j as nat, |n: int| 1u8),
        decreases 32 - j,
    {
        ones.push(1u8);
        j += 1;
    }
    proof {
        assert(ones@ =~= Seq::new(32, |n: int| 1u8));
    }
    sha256(&ones)
}

/// Compile a bare x-only public key: a key-path-only output holding the
/// context's funds, with no templates and no continuation points.
pub fn compile_key(key: &[u8; 32], ctx: Context) -> (r: Result<Compiled, CompilationError>)
    ensures
        r is Ok <==> crate::bridge::key_address_of(key@, ctx.network_v()) is Some,
        r matches Ok(c) ==> {
            &&& Some(c.address@) == crate::bridge::key_address_of(key@, ctx.network_v())
            &&& c.ctv_to_tx@ =~= Map::<Seq<u8>, Template>::empty()
            &&& c.suggested_txs@ =~= Map::<Seq<u8>, Template>::empty()
            &&& c.ctv_to_tx.wf() && c.suggested_txs.wf()
            &&& c.amount_range.min_v() == ctx.funds_v() && c.amount_range.max_v() == ctx.funds_v()
            &&& crate::context::path_view(&c.root_path) == ctx.path_v()
        },
{
    let address = key_only_address(key, ctx.network())?;
    let mut amount_range = AmountRange::new();
    amount_range.update_range(ctx.funds());
    Ok(
        Compiled {
            address,
            descriptor: None,
            ctv_to_tx: TemplateMap::new(),
            suggested_txs: TemplateMap::new(),
            continue_apis: Vec::new(),
            amount_range,
            root_path: ctx.path(),
        },
    )
}

/// Compile a contract: enumerate its transitions, evaluate their
/// conditional-compile predicates, compile their guards once each through the
/// cache, accumulate the commitment-gated and suggested templates and the
/// top-level clauses, build the script tree, and validate fee safety. On
/// success the artifact's address and descriptor are the assembled taproot
/// output of some internal key and tree shape on the context's network, its
/// suggested templates carry no extra guards, its gated templates satisfy
/// their declared minimum fee rates at that descriptor's worst-case
/// satisfaction weight, and its root path is the entry context's path. A
/// context whose root already derived the then-transition tag fails before
/// any contract method runs.
pub fn compile_contract<C: AnyContract, E: Emulator, D: EffectDB>(
    contract: &C,
    ctx: Context,
    emulator: &E,
    effects: &D,
) -> (r: Result<Compiled, CompilationError>)
    ensures
        r matches Ok(c) ==> {
            &&& c.ctv_to_tx.wf() && c.suggested_txs.wf()
            &&& suggested_ok(c.suggested_txs@)
            &&& maps_agree(c.ctv_to_tx@, c.suggested_txs@)
            &&& c.descriptor matches Some(d) && (exists|key: Seq<u8>, shape: Option<TreeShape>|
                (#[trigger] finalized_of(key, shape, ctx.network_v())) matches Some(f) && {
                    &&& f.address == c.address@
                    &&& f.descriptor == d@
                    &&& fee_safe(c.ctv_to_tx@, c.amount_range.max_v(), f.max_sat_weight)
                })
            &&& crate::context::path_view(&c.root_path) == ctx.path_v()
        },
        ctx.used_v().contains(SegV::ThenFn) ==> (r matches Err(e) && e is DuplicatePathSegment),
{
    let mut root_ctx = ctx;
    let mut cache = GuardCache::new();
    let mut entries: Vec<(bool, bool, Clause, Result<Vec<Template>, CompilationError>)> =
        Vec::new();

    let mut then_fn_ctx = root_ctx.derive(PathSegment::ThenFn)?;
    let mut ccif_ctx = then_fn_ctx.derive(PathSegment::CondCompIf)?;
    let mut guards_ctx = then_fn_ctx.derive(PathSegment::Guard)?;
    let mut next_tx_ctx = then_fn_ctx.derive(PathSegment::Next)?;
    let then_decls = contract.then_fns();
    let mut i: usize = 0;
    while i < then_decls.len()
        invariant
            !ctx.used_v().contains(SegV::ThenFn),
            cache.wf(),
        decreases then_decls@.len() - i,
    {
        let name = PathSegment::Named(then_decls[i].name.clone());
        let this_ctx = ccif_ctx.derive(name.clone())?;
        let verdict = contract.compile_if_then(i, this_ctx);
        let included: Option<(Vec<String>, bool)> = match verdict {
            CompileIf::Fail(errors) => Some((errors, false)),
            CompileIf::Required => Some((Vec::new(), false)),
            CompileIf::NoConstraint => Some((Vec::new(), false)),
            CompileIf::Nullable => Some((Vec::new(), true)),
            CompileIf::Skippable => None,
            CompileIf::Never => None,
        };
        match included {
            None => {},
            Some((errors, nullable)) => {
                let gctx = guards_ctx.derive(name.clone())?;
                let ntx_ctx = next_tx_ctx.derive(name)?;
                let guards = create_guards(&mut cache, contract, &then_decls[i].guards, gctx)?;
                let r_tmpls = if errors.len() == 0 {
                    contract.call_then(i, ntx_ctx, emulator, effects)
                } else {
                    Err(CompilationError::ConditionalCompilationFailed(errors))
                };
                entries.push((nullable, true, guards, r_tmpls));
            },
        }
        i += 1;
    }

    let mut fo_ctx = root_ctx.derive(PathSegment::FinishOrFn)?;
    let mut ccif2_ctx = fo_ctx.derive(PathSegment::CondCompIf)?;
    let mut guard2_ctx = fo_ctx.derive(PathSegment::Guard)?;
    let mut sugg_ctx = fo_ctx.derive(PathSegment::Suggested)?;
    let mut continue_apis: Vec<(Path, ContinuationPoint)> = Vec::new();
    let fo_decls = contract.finish_or_fns();
    let mut j: usize = 0;
    while j < fo_decls.len()
        invariant
            !ctx.used_v().contains(SegV::ThenFn),
            cache.wf(),
        decreases fo_decls@.len() - j,
    {
        let name = PathSegment::Named(fo_decls[j].name.clone());
        let this_ctx = ccif2_ctx.derive(name.clone())?;
        let verdict = contract.compile_if_finish_or(j, this_ctx);
        let included: Option<Vec<String>> = match verdict {
            CompileIf::Fail(errors) => Some(errors),
            CompileIf::Required => Some(Vec::new()),
            CompileIf::NoConstraint => Some(Vec::new()),
            CompileIf::Nullable => Some(Vec::new()),
            CompileIf::Skippable => None,
            CompileIf::Never => None,
        };
        match included {
            None => {},
            Some(errors) => {
                let gctx = guard2_ctx.derive(name.clone())?;
                let guard = create_guards(&mut cache, contract, &fo_decls[j].guards, gctx)?;
                let top_effect_ctx = sugg_ctx.derive(name)?;
                let cp_path = top_effect_ctx.path();
                continue_apis.push(
                    (
                        clone_path(&cp_path),
                        ContinuationPoint { schema: fo_decls[j].schema.clone(), path: cp_path },
                    ),
                );
                let r_tmpls = if errors.len() == 0 {
                    compute_all_effects(contract, j, top_effect_ctx, emulator, effects)
                } else {
                    Err(CompilationError::ConditionalCompilationFailed(errors))
                };
                entries.push((true, false, guard, r_tmpls));
            },
        }
        j += 1;
    }

    let mut acc = Accumulator {
        gated: TemplateMap::new(),
        suggested: TemplateMap::new(),
        amount_range: AmountRange::new(),
    };
    let mut clause_acc: Vec<Clause> = Vec::new();
    let mut rest = entries;
    while rest.len() > 0
        invariant
            !ctx.used_v().contains(SegV::ThenFn),
            acc.wf(),
            suggested_ok(acc.suggested@),
            maps_agree(acc.gated@, acc.suggested@),
        decreases rest@.len(),
    {
        let (nullable, uses_ctv, guards, r_tmpls) = rest.remove(0);
        let (mut cs, acc2) = resolve_transition(nullable, uses_ctv, guards, r_tmpls, acc, emulator)?;
        acc = acc2;
        clause_acc.append(&mut cs);
    }

    let mut finish_ctx = root_ctx.derive(PathSegment::FinishFn)?;
    let finish_keys = contract.finish_fns();
    let mut branches: Vec<Clause> = Vec::new();
    let mut b: usize = 0;
    while b < finish_keys.len()
        invariant
            !ctx.used_v().contains(SegV::ThenFn),
            cache.wf(),
        decreases finish_keys@.len() - b,
    {
        let c = finish_ctx.derive(PathSegment::Branch(b as u64))?;
        match get_or_compile(&mut cache, contract, finish_keys[b], c)? {
            Some(clause) => branches.push(clause),
            None => {},
        }
        b += 1;
    }
    branches.append(&mut clause_acc);

    let internal_key = select_internal_key(&branches);
    let mut frags: Vec<Fragment> = Vec::new();
    let mut rest_branches = branches;
    while rest_branches.len() > 0
        invariant
            !ctx.used_v().contains(SegV::ThenFn),
        decreases rest_branches@.len(),
    {
        let c = rest_branches.remove(0);
        let f = compile_policy(&c)?;
        frags.push(f);
    }
    let tree = build_tree(frags);
    let parts = finalize_descriptor(&internal_key, &tree, root_ctx.network())?;
    check_fee_safety(&acc.gated, acc.amount_range.max(), parts.max_sat_weight)?;
    let Accumulator { gated, suggested, amount_range } = acc;
    let out = Compiled {
        address: parts.address,
        descriptor: Some(parts.descriptor),
        ctv_to_tx: gated,
        suggested_txs: suggested,
        continue_apis,
        amount_range,
        root_path: root_ctx.path(),
    };
    proof {
        assert(fee_safe(out.ctv_to_tx@, out.amount_range.max_v(), parts.max_sat_weight));
        assert(finalized_of(internal_key@, opt_shape(&tree), ctx.network_v()) matches Some(f) && {
            &&& f.address == out.address@
            &&& f.descriptor == out.descriptor->Some_0@
            &&& fee_safe(out.ctv_to_tx@, out.amount_range.max_v(), f.max_sat_weight)
        });
    }
    Ok(out)
}

/// An emulator backed by a federation of oracle keys: the commitment to any
/// template hash is enforced by a threshold of oracles that only sign the
/// committed transaction. Every hash gets the same threshold condition.
pub struct FederationEmulator {
    /// The oracle keys.
    pub oracle_keys: Vec<crate::clause::Key>,
    /// How many oracles must sign.
    pub threshold: usize,
}

impl Emulator for FederationEmulator {
    /// The federation's threshold; the same condition whatever the hash.
    fn condition_for(&self, _hash: &[u8; 32]) -> (r: Result<Clause, String>)
        ensures
            r matches Ok(c) && c@ == crate::federated_sidechain::threshold_v(
                self.threshold as int,
                self.oracle_keys@,
            ),
    {
        Ok(crate::federated_sidechain::threshold_of(self.threshold, &self.oracle_keys))
    }
}

/// An effect-lookup service with nothing in it: every path has no externally
/// supplied arguments.
pub struct EmptyEffectDB;

impl EffectDB for EmptyEffectDB {
    fn get_value(&self, _path: &Path) -> (r: Vec<(String, String)>)
        ensures
            r@.len() == 0,
    {
        Vec::new()
    }
}

} // verus!

