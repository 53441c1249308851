//! A federated peg-in contract.
//!
//! Funds pegged into a federated sidechain are held under a threshold of the
//! federation's operational keys; a threshold of recovery keys may instead
//! begin a recovery, which moves the funds into a state that can be swept by
//! the operational threshold or, after a four-week relative timelock, by the
//! recovery threshold.
use crate::clause::{Clause, ClauseV, Key};
use crate::compiler::{
    compile_contract, AnyContract, CompileIf, EffectDB, Emulator, FinishOrFnDecl, ThenFnDecl,
};
use crate::context::{Context, PathSegment};
use crate::error::CompilationError;
use crate::template::{Output, Template};
use core::marker::PhantomData;
use vstd::prelude::*;
use vstd::string::{StrSliceExecFns, StringExecFns};

verus! {

/// The peg-in state in which a recovery may be begun.
pub struct CanBeginRecovery;

/// The peg-in state in which a begun recovery may be finished.
pub struct CanFinishRecovery;

/// The states a federated peg-in passes through.
pub trait RecoveryState {

}

impl RecoveryState for CanBeginRecovery {

}

impl RecoveryState for CanFinishRecovery {

}

/// The guard identity of the operational-threshold signature.
pub const NORMAL_SIGNED: u64 = 1;

/// The guard identity of the recovery-threshold signature.
pub const RECOVERY_SIGNED: u64 = 2;

/// The guard identity of the timelocked recovery finish.
pub const FINISH_RECOVERY: u64 = 3;

/// The relative timelock, in blocks, before a begun recovery may be finished
/// by the recovery threshold: roughly four weeks.
pub const RECOVERY_DELAY: u32 = 4725;

/// The views of a key list as bare key clauses.
pub open spec fn keys_clause_v(keys: Seq<Key>) -> Seq<ClauseV> {
    Seq::new(keys.len(), |i: int| if 0 <= i < keys.len() {
        ClauseV::Key(keys[i]@)
    } else {
        arbitrary()
    })
}

/// The view of a threshold over a key list.
pub open spec fn threshold_v(k: int, keys: Seq<Key>) -> ClauseV {
    ClauseV::Threshold(k, keys_clause_v(keys))
}

/// A threshold of the given keys.
pub fn threshold_of(k: usize, keys: &Vec<Key>) -> (r: Clause)
    ensures
        r@ == threshold_v(k as int, keys@),
{
    let mut subs: Vec<Clause> = Vec::new();
    let mut i: usize = 0;
    while i < keys.len()
        invariant
            0 <= i <= keys@.len(),
            subs@.len() == i,
            forall|j: int| 0 <= j < i ==> #[trigger] subs@[j]@ == ClauseV::Key(keys@[j]@),
        decreases keys@.len() - i,
    {
        subs.push(Clause::Key(keys[i]));
        i += 1;
    }
    let ghost gsubs = subs@;
    proof {
        assert forall|j: int| 0 <= j < keys@.len() implies Clause::seq_view(gsubs)[j]
            == keys_clause_v(keys@)[j] by {
            assert(gsubs[j]@ == ClauseV::Key(keys@[j]@));
        }
        assert(Clause::seq_view(gsubs) =~= keys_clause_v(keys@));
    }
    Clause::Threshold(k, subs)
}

/// Funds pegged into a federated sidechain.
pub struct FederatedPegIn<T: RecoveryState> {
    /// The federation's operational keys.
    pub keys: Vec<Key>,
    /// How many operational keys must sign.
    pub thresh_normal: usize,
    /// The federation's recovery keys.
    pub keys_recovery: Vec<Key>,
    /// How many recovery keys must sign.
    pub thresh_recovery: usize,
    /// The pegged amount, in satoshis.
    pub amount: u64,
    /// The recovery state this peg-in is in.
    pub state: PhantomData<T>,
}

/// A fresh peg-in, from which a recovery may be begun.
pub type PegIn = FederatedPegIn<CanBeginRecovery>;

impl<T: RecoveryState> FederatedPegIn<T> {
    /// The operational threshold's spending condition.
    pub fn normal_signed(&self) -> (r: Clause)
        ensures
            r@ == threshold_v(self.thresh_normal as int, self.keys@),
    {
        threshold_of(self.thresh_normal, &self.keys)
    }

    /// The recovery threshold's spending condition.
    pub fn recovery_signed(&self) -> (r: Clause)
        ensures
            r@ == threshold_v(self.thresh_recovery as int, self.keys_recovery@),
    {
        threshold_of(self.thresh_recovery, &self.keys_recovery)
    }
}

impl FederatedPegIn<CanFinishRecovery> {
    /// The timelocked recovery finish: the recovery threshold, no earlier
    /// than the recovery delay after the recovery began.
    pub fn finish_recovery(&self) -> (r: Clause)
        ensures
            r@ == ClauseV::And(
                seq![
                    ClauseV::Older(RECOVERY_DELAY),
                    threshold_v(self.thresh_recovery as int, self.keys_recovery@),
                ],
            ),
    {
        let mut parts: Vec<Clause> = Vec::new();
        parts.push(Clause::Older(RECOVERY_DELAY));
        parts.push(self.recovery_signed());
        let ghost gparts = parts@;
        proof {
            assert(Clause::seq_view(gparts)[0] == gparts[0]@);
            assert(Clause::seq_view(gparts)[1] == gparts[1]@);
            assert(Clause::seq_view(gparts) =~= seq![
                ClauseV::Older(RECOVERY_DELAY),
                threshold_v(self.thresh_recovery as int, self.keys_recovery@),
            ]);
        }
        Clause::And(parts)
    }
}

impl AnyContract for FederatedPegIn<CanBeginRecovery> {
    /// One committed transition: beginning a recovery, guarded by the
    /// recovery threshold.
    fn then_fns(&self) -> (r: Vec<ThenFnDecl>)
        ensures
            r@.len() == 1,
            r@[0].guards@ =~= seq![RECOVERY_SIGNED],
            r@[0].name@ == "begin_recovery"@,
    {
        let mut guards: Vec<u64> = Vec::new();
        guards.push(RECOVERY_SIGNED);
        let mut r: Vec<ThenFnDecl> = Vec::new();
        r.push(ThenFnDecl { name: String::from_str("begin_recovery"), guards });
        r
    }

    fn finish_or_fns(&self) -> (r: Vec<FinishOrFnDecl>)
        ensures
            r@.len() == 0,
    {
        Vec::new()
    }

    /// The operational threshold may always spend directly.
    fn finish_fns(&self) -> (r: Vec<u64>)
        ensures
            r@ =~= seq![NORMAL_SIGNED],
    {
        let mut r: Vec<u64> = Vec::new();
        r.push(NORMAL_SIGNED);
        r
    }

    fn compile_if_then(&self, _i: usize, _ctx: Context) -> (r: CompileIf) {
        CompileIf::NoConstraint
    }

    fn compile_if_finish_or(&self, _i: usize, _ctx: Context) -> (r: CompileIf) {
        CompileIf::NoConstraint
    }

    /// The recovery-finish guard belongs to the other state and is absent
    /// here.
    fn guard(&self, key: u64, _ctx: Context) -> (r: Option<Clause>)
        ensures
            key == NORMAL_SIGNED ==> (r matches Some(c) && c@ == threshold_v(
                self.thresh_normal as int,
                self.keys@,
            )),
            key == RECOVERY_SIGNED ==> (r matches Some(c) && c@ == threshold_v(
                self.thresh_recovery as int,
                self.keys_recovery@,
            )),
            key != NORMAL_SIGNED && key != RECOVERY_SIGNED ==> r is None,
    {
        if key == NORMAL_SIGNED {
            Some(self.normal_signed())
        } else if key == RECOVERY_SIGNED {
            Some(self.recovery_signed())
        } else {
            None
        }
    }

    /// Beginning a recovery commits the pegged amount to the same federation
    /// in the finish-recovery state.
    fn call_then<E: Emulator, D: EffectDB>(
        &self,
        _i: usize,
        ctx: Context,
        emulator: &E,
        effects: &D,
    ) -> (r: Result<Vec<Template>, CompilationError>)
        ensures
            r matches Ok(ts) ==> {
                &&& ts@.len() == 1
                &&& ts@[0].outputs@.len() == 1
                &&& ts@[0].outputs@[0].amount == self.amount
                &&& ts@[0].guards@.len() == 0
            },
    {
        let mut ctx = ctx;
        let keys = crate::clause::duplicate_keys(&self.keys);
        let keys_recovery = crate::clause::duplicate_keys(&self.keys_recovery);
        let next = FederatedPegIn::<CanFinishRecovery> {
            keys,
            thresh_normal: self.thresh_normal,
            keys_recovery,
            thresh_recovery: self.thresh_recovery,
            amount: self.amount,
            state: PhantomData,
        };
        let sub_ctx = ctx.derive(PathSegment::Named(String::from_str("recovering")))?;
        let sub = compile_contract(&next, sub_ctx, emulator, effects)?;
        let mut templates: Vec<Template> = Vec::new();
        templates.push(Template::pay_to(self.amount, sub.address.as_str().as_bytes_vec()));
        Ok(templates)
    }

    fn call_finish_or<E: Emulator, D: EffectDB>(
        &self,
        _i: usize,
        _ctx: Context,
        _emulator: &E,
        _effects: &D,
        _arg: Option<&String>,
    ) -> (r: Result<Vec<Template>, CompilationError>) {
        Ok(Vec::new())
    }
}

impl AnyContract for FederatedPegIn<CanFinishRecovery> {
    /// No committed transitions: this state only terminates.
    fn then_fns(&self) -> (r: Vec<ThenFnDecl>)
        ensures
            r@.len() == 0,
    {
        Vec::new()
    }

    fn finish_or_fns(&self) -> (r: Vec<FinishOrFnDecl>)
        ensures
            r@.len() == 0,
    {
        Vec::new()
    }

    /// The operational threshold, or the timelocked recovery threshold.
    fn finish_fns(&self) -> (r: Vec<u64>)
        ensures
            r@ =~= seq![NORMAL_SIGNED, FINISH_RECOVERY],
    {
        let mut r: Vec<u64> = Vec::new();
        r.push(NORMAL_SIGNED);
        r.push(FINISH_RECOVERY);
        r
    }

    fn compile_if_then(&self, _i: usize, _ctx: Context) -> (r: CompileIf) {
        CompileIf::NoConstraint
    }

    fn compile_if_finish_or(&self, _i: usize, _ctx: Context) -> (r: CompileIf) {
        CompileIf::NoConstraint
    }

    fn guard(&self, key: u64, _ctx: Context) -> (r: Option<Clause>)
        ensures
            key == NORMAL_SIGNED ==> (r matches Some(c) && c@ == threshold_v(
                self.thresh_normal as int,
                self.keys@,
            )),
            key == FINISH_RECOVERY ==> (r matches Some(c) && c@ == ClauseV::And(
                seq![
                    ClauseV::Older(RECOVERY_DELAY),
                    threshold_v(self.thresh_recovery as int, self.keys_recovery@),
                ],
            )),
            key != NORMAL_SIGNED && key != FINISH_RECOVERY ==> r is None,
    {
        if key == NORMAL_SIGNED {
            Some(self.normal_signed())
        } else if key == FINISH_RECOVERY {
            Some(self.finish_recovery())
        } else {
            None
        }
    }

    fn call_then<E: Emulator, D: EffectDB>(
        &self,
        _i: usize,
        _ctx: Context,
        _emulator: &E,
        _effects: &D,
    ) -> (r: Result<Vec<Template>, CompilationError>) {
        Ok(Vec::new())
    }

    fn call_finish_or<E: Emulator, D: EffectDB>(
        &self,
        _i: usize,
        _ctx: Context,
        _emulator: &E,
        _effects: &D,
        _arg: Option<&String>,
    ) -> (r: Result<Vec<Template>, CompilationError>) {
        Ok(Vec::new())
    }
}

} // verus!
