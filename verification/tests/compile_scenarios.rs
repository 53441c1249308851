use sapio::clause::Clause;
use sapio::compiler::{
    check_fee_safety, compile_contract, compile_key, get_or_compile, AnyContract, CompileIf,
    EffectDB, EmptyEffectDB, Emulator, FederationEmulator, FinishOrFnDecl, ThenFnDecl,
};
use sapio::context::{Context, NetworkId, Path, PathSegment};
use sapio::error::CompilationError;
use sapio::guard_cache::GuardCache;
use sapio::federated_sidechain::{CanBeginRecovery, FederatedPegIn};
use sapio::template::{Output, Template};
use sapio::template_map::TemplateMap;
use std::cell::Cell;
use std::marker::PhantomData;

fn key_from_hex(s: &str) -> [u8; 32] {
    let bytes = s.as_bytes();
    let mut out = [0u8; 32];
    let hexval = |c: u8| -> u8 {
        match c {
            b'0'..=b'9' => c - b'0',
            b'a'..=b'f' => c - b'a' + 10,
            b'A'..=b'F' => c - b'A' + 10,
            _ => panic!("not a hex digit"),
        }
    };
    for i in 0..32 {
        out[i] = hexval(bytes[2 * i]) * 16 + hexval(bytes[2 * i + 1]);
    }
    out
}

fn key_one() -> [u8; 32] {
    key_from_hex("F9308A019258C31049344F85F89D5229B531C845836F99B08601F113BCE036F9")
}

fn key_two() -> [u8; 32] {
    key_from_hex("DFF1D77F2A671C5F36183726DB2341BE58FEAE1DA2DECED843240F7B502BA659")
}

fn key_three() -> [u8; 32] {
    key_from_hex("DD308AFEC5777E13121FA72B9CC1B7CC0139715309B086C960E18FD969774EB8")
}

fn key_four() -> [u8; 32] {
    key_from_hex("25D1DFF95105F5253C4022F628A996AD3A0D95FBF21D468A1B33F8C160D8F517")
}

struct CountingEmulator {
    calls: Cell<u64>,
}

impl Emulator for CountingEmulator {
    fn condition_for(&self, _hash: &[u8; 32]) -> Result<Clause, String> {
        self.calls.set(self.calls.get() + 1);
        Ok(Clause::Threshold(1, vec![Clause::Key(key_one())]))
    }
}

struct FailingEmulator;

impl Emulator for FailingEmulator {
    fn condition_for(&self, _hash: &[u8; 32]) -> Result<Clause, String> {
        Err("oracle unreachable".to_string())
    }
}

/// A configurable test contract: one optional then-transition, optional
/// finish-or transitions, and a list of terminal finish guards.
struct TestContract {
    then_templates: Option<Result<Vec<Template>, CompilationError>>,
    then_compile_if: CompileIf,
    then_guard: Option<Clause>,
    finish_guards: Vec<(u64, Clause)>,
    finish_or: Option<(String, Vec<Template>, Vec<Template>)>,
    guard_calls: Cell<u64>,
}

impl TestContract {
    fn simple(finish: Vec<(u64, Clause)>) -> Self {
        TestContract {
            then_templates: None,
            then_compile_if: CompileIf::NoConstraint,
            then_guard: None,
            finish_guards: finish,
            finish_or: None,
            guard_calls: Cell::new(0),
        }
    }
}

fn dup_clause(c: &Clause) -> Clause {
    c.duplicate()
}

fn dup_template(t: &Template) -> Template {
    Template {
        outputs: t
            .outputs
            .iter()
            .map(|o| Output { amount: o.amount, script_pubkey: o.script_pubkey.clone() })
            .collect(),
        sequences: t.sequences.clone(),
        min_feerate_sats_vbyte: t.min_feerate_sats_vbyte,
        guards: t.guards.iter().map(dup_clause).collect(),
    }
}

impl AnyContract for TestContract {
    fn then_fns(&self) -> Vec<ThenFnDecl> {
        match &self.then_templates {
            None => Vec::new(),
            Some(_) => vec![ThenFnDecl { name: "step".to_string(), guards: vec![100] }],
        }
    }

    fn finish_or_fns(&self) -> Vec<FinishOrFnDecl> {
        match &self.finish_or {
            None => Vec::new(),
            Some((name, _, _)) => vec![FinishOrFnDecl {
                name: name.clone(),
                guards: vec![101],
                schema: "{}".to_string(),
            }],
        }
    }

    fn finish_fns(&self) -> Vec<u64> {
        self.finish_guards.iter().map(|(k, _)| *k).collect()
    }

    fn compile_if_then(&self, _i: usize, _ctx: Context) -> CompileIf {
        match &self.then_compile_if {
            CompileIf::Required => CompileIf::Required,
            CompileIf::NoConstraint => CompileIf::NoConstraint,
            CompileIf::Nullable => CompileIf::Nullable,
            CompileIf::Skippable => CompileIf::Skippable,
            CompileIf::Never => CompileIf::Never,
            CompileIf::Fail(v) => CompileIf::Fail(v.clone()),
        }
    }

    fn compile_if_finish_or(&self, _i: usize, _ctx: Context) -> CompileIf {
        CompileIf::NoConstraint
    }

    fn guard(&self, key: u64, _ctx: Context) -> Option<Clause> {
        self.guard_calls.set(self.guard_calls.get() + 1);
        if key == 100 {
            self.then_guard.as_ref().map(dup_clause)
        } else if key == 101 {
            None
        } else {
            self.finish_guards
                .iter()
                .find(|(k, _)| *k == key)
                .map(|(_, c)| dup_clause(c))
        }
    }

    fn call_then<E: Emulator, D: EffectDB>(
        &self,
        _i: usize,
        _ctx: Context,
        _emulator: &E,
        _effects: &D,
    ) -> Result<Vec<Template>, CompilationError> {
        match &self.then_templates {
            None => Ok(Vec::new()),
            Some(Ok(ts)) => Ok(ts.iter().map(dup_template).collect()),
            Some(Err(_)) => Err(CompilationError::MissingTemplates),
        }
    }

    fn call_finish_or<E: Emulator, D: EffectDB>(
        &self,
        _i: usize,
        _ctx: Context,
        _emulator: &E,
        _effects: &D,
        arg: Option<&String>,
    ) -> Result<Vec<Template>, CompilationError> {
        match &self.finish_or {
            None => Ok(Vec::new()),
            Some((_, default_ts, keyed_ts)) => match arg {
                None => Ok(default_ts.iter().map(dup_template).collect()),
                Some(_) => Ok(keyed_ts.iter().map(dup_template).collect()),
            },
        }
    }
}

fn pay(amount: u64, dest: &[u8]) -> Template {
    Template {
        outputs: vec![Output { amount, script_pubkey: dest.to_vec() }],
        sequences: vec![0],
        min_feerate_sats_vbyte: None,
        guards: Vec::new(),
    }
}

fn threshold(k: usize, keys: &[[u8; 32]]) -> Clause {
    Clause::Threshold(k, keys.iter().map(|x| Clause::Key(*x)).collect())
}

// A contract with exactly one terminal threshold-signature finish function
// and no transitions compiles to an address directly representing that
// policy, with empty gated and suggested maps.
#[test]
fn finish_only_contract_compiles_to_bare_address() {
    let c = TestContract::simple(vec![(1, threshold(2, &[key_one(), key_two()]))]);
    let ctx = Context::new(NetworkId::Regtest, 100_000);
    let art = compile_contract(&c, ctx, &CountingEmulator { calls: Cell::new(0) }, &EmptyEffectDB)
        .unwrap();
    assert_eq!(art.ctv_to_tx.len(), 0);
    assert_eq!(art.suggested_txs.len(), 0);
    assert!(art.continue_apis.is_empty());
    assert!(art.address.starts_with("bcrt1p"));
    assert!(art.descriptor.unwrap().starts_with("tr("));
}

// Re-deriving the same contract with the same inputs yields byte-identical
// address and descriptor, and the builder yields the same tree shape across
// runs.
#[test]
fn recompilation_is_byte_identical() {
    let em = CountingEmulator { calls: Cell::new(0) };
    let mk = || {
        let mut c = TestContract::simple(vec![
            (1, threshold(2, &[key_one(), key_two()])),
            (2, Clause::And(vec![Clause::Older(10), Clause::Key(key_one())])),
            (3, Clause::Key(key_two())),
        ]);
        c.then_templates = Some(Ok(vec![pay(100_000, b"destination script")]));
        c.then_guard = Some(Clause::Older(6));
        c
    };
    let a1 = compile_contract(&mk(), Context::new(NetworkId::Regtest, 100_000), &em, &EmptyEffectDB)
        .unwrap();
    let a2 = compile_contract(&mk(), Context::new(NetworkId::Regtest, 100_000), &em, &EmptyEffectDB)
        .unwrap();
    assert_eq!(a1.address, a2.address);
    assert_eq!(a1.descriptor, a2.descriptor);
}

// A two-step contract: the first step funds the second via a
// commitment-gated transition after a 6-block relative timelock; the second
// pays a fixed destination after a further 4-block relative timelock. One
// address, one gated template per artifact with distinct hashes, an amount
// range pinned to the funding amount, and exactly two oracle calls.
struct StepB {
    amount: u64,
}

impl AnyContract for StepB {
    fn then_fns(&self) -> Vec<ThenFnDecl> {
        vec![ThenFnDecl { name: "pay_out".to_string(), guards: vec![1] }]
    }

    fn finish_or_fns(&self) -> Vec<FinishOrFnDecl> {
        Vec::new()
    }

    fn finish_fns(&self) -> Vec<u64> {
        Vec::new()
    }

    fn compile_if_then(&self, _i: usize, _ctx: Context) -> CompileIf {
        CompileIf::Required
    }

    fn compile_if_finish_or(&self, _i: usize, _ctx: Context) -> CompileIf {
        CompileIf::NoConstraint
    }

    fn guard(&self, key: u64, _ctx: Context) -> Option<Clause> {
        if key == 1 {
            Some(Clause::Older(4))
        } else {
            None
        }
    }

    fn call_then<E: Emulator, D: EffectDB>(
        &self,
        _i: usize,
        _ctx: Context,
        _emulator: &E,
        _effects: &D,
    ) -> Result<Vec<Template>, CompilationError> {
        Ok(vec![pay(self.amount, b"final destination")])
    }

    fn call_finish_or<E: Emulator, D: EffectDB>(
        &self,
        _i: usize,
        _ctx: Context,
        _emulator: &E,
        _effects: &D,
        _arg: Option<&String>,
    ) -> Result<Vec<Template>, CompilationError> {
        Ok(Vec::new())
    }
}

struct StepA {
    amount: u64,
}

impl AnyContract for StepA {
    fn then_fns(&self) -> Vec<ThenFnDecl> {
        vec![ThenFnDecl { name: "fund_b".to_string(), guards: vec![1] }]
    }

    fn finish_or_fns(&self) -> Vec<FinishOrFnDecl> {
        Vec::new()
    }

    fn finish_fns(&self) -> Vec<u64> {
        Vec::new()
    }

    fn compile_if_then(&self, _i: usize, _ctx: Context) -> CompileIf {
        CompileIf::Required
    }

    fn compile_if_finish_or(&self, _i: usize, _ctx: Context) -> CompileIf {
        CompileIf::NoConstraint
    }

    fn guard(&self, key: u64, _ctx: Context) -> Option<Clause> {
        if key == 1 {
            Some(Clause::Older(6))
        } else {
            None
        }
    }

    fn call_then<E: Emulator, D: EffectDB>(
        &self,
        _i: usize,
        ctx: Context,
        emulator: &E,
        effects: &D,
    ) -> Result<Vec<Template>, CompilationError> {
        let mut ctx = ctx;
        let sub_ctx = ctx.derive(PathSegment::Named("b".to_string()))?;
        let b = compile_contract(&StepB { amount: self.amount }, sub_ctx, emulator, effects)?;
        Ok(vec![pay(self.amount, b.address.as_bytes())])
    }

    fn call_finish_or<E: Emulator, D: EffectDB>(
        &self,
        _i: usize,
        _ctx: Context,
        _emulator: &E,
        _effects: &D,
        _arg: Option<&String>,
    ) -> Result<Vec<Template>, CompilationError> {
        Ok(Vec::new())
    }
}

#[test]
fn two_step_contract_funds_through_commitment() {
    let em = CountingEmulator { calls: Cell::new(0) };
    let funding = 100_000u64;
    let a = compile_contract(
        &StepA { amount: funding },
        Context::new(NetworkId::Regtest, funding),
        &em,
        &EmptyEffectDB,
    )
    .unwrap();
    assert_eq!(em.calls.get(), 2);
    assert_eq!(a.ctv_to_tx.len(), 1);
    assert_eq!(a.suggested_txs.len(), 0);
    assert_eq!(a.amount_range.min(), funding);
    assert_eq!(a.amount_range.max(), funding);
    assert!(a.address.starts_with("bcrt1p"));

    let em2 = CountingEmulator { calls: Cell::new(0) };
    let b = compile_contract(
        &StepB { amount: funding },
        Context::new(NetworkId::Regtest, funding),
        &em2,
        &EmptyEffectDB,
    )
    .unwrap();
    assert_eq!(em2.calls.get(), 1);
    assert_eq!(b.ctv_to_tx.len(), 1);
    // The two gated templates are distinct logical transactions.
    assert_ne!(a.ctv_to_tx.hash_at(0), b.ctv_to_tx.hash_at(0));
    // The funding template pays to the sub-contract's address.
    assert_eq!(
        a.ctv_to_tx.template_at(0).outputs[0].script_pubkey,
        b.address.as_bytes().to_vec()
    );
}

// A transition marked nullable that yields zero templates is pruned: it
// neither appears in the final clause set nor causes a failure.
#[test]
fn nullable_empty_transition_is_pruned() {
    let finish = vec![(1, threshold(2, &[key_one(), key_two()]))];
    let mut with_nullable = TestContract::simple(
        finish.iter().map(|(k, c)| (*k, dup_clause(c))).collect(),
    );
    with_nullable.then_templates = Some(Ok(Vec::new()));
    with_nullable.then_compile_if = CompileIf::Nullable;
    with_nullable.then_guard = Some(Clause::Key(key_one()));
    let without = TestContract::simple(finish);
    let em = CountingEmulator { calls: Cell::new(0) };
    let a = compile_contract(
        &with_nullable,
        Context::new(NetworkId::Regtest, 50_000),
        &em,
        &EmptyEffectDB,
    )
    .unwrap();
    let b = compile_contract(&without, Context::new(NetworkId::Regtest, 50_000), &em, &EmptyEffectDB)
        .unwrap();
    assert_eq!(a.ctv_to_tx.len(), 0);
    assert_eq!(a.address, b.address);
    assert_eq!(em.calls.get(), 0);
}

// A required transition that produces no templates is an error.
#[test]
fn required_transition_with_no_templates_fails() {
    let mut c = TestContract::simple(vec![(1, Clause::Key(key_one()))]);
    c.then_templates = Some(Ok(Vec::new()));
    c.then_compile_if = CompileIf::Required;
    c.then_guard = Some(Clause::Older(6));
    let r = compile_contract(
        &c,
        Context::new(NetworkId::Regtest, 50_000),
        &CountingEmulator { calls: Cell::new(0) },
        &EmptyEffectDB,
    );
    assert!(matches!(r, Err(CompilationError::MissingTemplates)));
}

// An unsatisfiable guard over present templates signals a modeling mistake.
#[test]
fn unsatisfiable_guard_with_templates_fails() {
    let mut c = TestContract::simple(vec![(1, Clause::Key(key_one()))]);
    c.then_templates = Some(Ok(vec![pay(1_000, b"x")]));
    c.then_compile_if = CompileIf::NoConstraint;
    c.then_guard = Some(Clause::Unsatisfiable);
    let r = compile_contract(
        &c,
        Context::new(NetworkId::Regtest, 50_000),
        &CountingEmulator { calls: Cell::new(0) },
        &EmptyEffectDB,
    );
    assert!(matches!(
        r,
        Err(CompilationError::UnsatisfiableGuardWithTemplates)
    ));
}

// A conditional-compile predicate that rejects with diagnostics surfaces them
// when the branch turns out non-empty.
#[test]
fn conditional_compile_failure_surfaces() {
    let mut c = TestContract::simple(vec![(1, Clause::Key(key_one()))]);
    c.then_templates = Some(Ok(vec![pay(1_000, b"x")]));
    c.then_compile_if = CompileIf::Fail(vec!["bad configuration".to_string()]);
    c.then_guard = Some(Clause::Older(6));
    let r = compile_contract(
        &c,
        Context::new(NetworkId::Regtest, 50_000),
        &CountingEmulator { calls: Cell::new(0) },
        &EmptyEffectDB,
    );
    match r {
        Err(CompilationError::ConditionalCompilationFailed(msgs)) => {
            assert_eq!(msgs, vec!["bad configuration".to_string()]);
        }
        other => panic!("unexpected result: {:?}", other.map(|c| c.address)),
    }
}

// A failing oracle call aborts the compilation.
#[test]
fn emulator_failure_aborts() {
    let mut c = TestContract::simple(vec![(1, Clause::Key(key_one()))]);
    c.then_templates = Some(Ok(vec![pay(1_000, b"x")]));
    c.then_guard = Some(Clause::Older(6));
    let r = compile_contract(
        &c,
        Context::new(NetworkId::Regtest, 50_000),
        &FailingEmulator,
        &EmptyEffectDB,
    );
    assert!(matches!(r, Err(CompilationError::EmulatorFailure(_))));
}

// Invalid key bytes cannot be lowered to a script fragment.
#[test]
fn invalid_key_fails_policy_compilation() {
    let c = TestContract::simple(vec![(1, Clause::Key([0u8; 32]))]);
    let r = compile_contract(
        &c,
        Context::new(NetworkId::Regtest, 50_000),
        &CountingEmulator { calls: Cell::new(0) },
        &EmptyEffectDB,
    );
    assert!(matches!(r, Err(CompilationError::PolicyCompilationFailed(_))));
}

// Templates whose outputs overflow the amount type are rejected.
#[test]
fn template_amount_overflow_fails() {
    let mut c = TestContract::simple(vec![(1, Clause::Key(key_one()))]);
    let t = Template {
        outputs: vec![
            Output { amount: u64::MAX, script_pubkey: b"x".to_vec() },
            Output { amount: u64::MAX, script_pubkey: b"y".to_vec() },
        ],
        sequences: vec![0],
        min_feerate_sats_vbyte: None,
        guards: Vec::new(),
    };
    c.then_templates = Some(Ok(vec![t]));
    c.then_guard = Some(Clause::Older(6));
    let r = compile_contract(
        &c,
        Context::new(NetworkId::Regtest, 50_000),
        &CountingEmulator { calls: Cell::new(0) },
        &EmptyEffectDB,
    );
    assert!(matches!(r, Err(CompilationError::TemplateAmountOverflow)));
}

// Available fees exactly meeting the declared rate pass; one satoshi fewer
// fails.
#[test]
fn fee_safety_boundary() {
    let t = Template {
        outputs: vec![Output { amount: 1_000, script_pubkey: vec![0x51] }],
        sequences: vec![0],
        min_feerate_sats_vbyte: Some(2),
        guards: Vec::new(),
    };
    let w = t.weight();
    let sat_weight = 100u64;
    let required_fee = 2 * (w + sat_weight);
    let mut m = TemplateMap::new();
    let h = t.hash();
    m.insert(h, t);
    assert!(check_fee_safety(&m, 1_000 + required_fee, sat_weight).is_ok());
    assert!(matches!(
        check_fee_safety(&m, 1_000 + required_fee - 1, sat_weight),
        Err(CompilationError::MinFeerateError)
    ));
}

// A gated template whose declared rate the funds cannot cover fails the whole
// compilation.
#[test]
fn min_feerate_error_from_compile() {
    let mut c = TestContract::simple(vec![(1, Clause::Key(key_one()))]);
    let mut t = pay(50_000, b"dest");
    t.min_feerate_sats_vbyte = Some(u64::MAX);
    c.then_templates = Some(Ok(vec![t]));
    c.then_guard = Some(Clause::Older(6));
    let r = compile_contract(
        &c,
        Context::new(NetworkId::Regtest, 50_000),
        &CountingEmulator { calls: Cell::new(0) },
        &EmptyEffectDB,
    );
    assert!(matches!(r, Err(CompilationError::MinFeerateError)));
}

// Deriving the same sibling segment twice under one parent is a conflict.
#[test]
fn duplicate_sibling_segment_conflicts() {
    let mut ctx = Context::new(NetworkId::Regtest, 1_000);
    let first = ctx.derive(PathSegment::Named("ext".to_string()));
    assert!(first.is_ok());
    let second = ctx.derive(PathSegment::Named("ext".to_string()));
    assert!(matches!(second, Err(CompilationError::DuplicatePathSegment)));
}

// Invoking the same guard through two different structural positions yields
// equal clauses and executes the guard function once.
#[test]
fn guard_cache_evaluates_each_guard_once() {
    let c = TestContract::simple(vec![(7, threshold(1, &[key_one()]))]);
    let mut cache = GuardCache::new();
    let mut root = Context::new(NetworkId::Regtest, 1_000);
    let pos1 = root.derive(PathSegment::Branch(0)).unwrap();
    let pos2 = root.derive(PathSegment::Branch(1)).unwrap();
    let g1 = get_or_compile(&mut cache, &c, 7, pos1).unwrap();
    let g2 = get_or_compile(&mut cache, &c, 7, pos2).unwrap();
    assert_eq!(c.guard_calls.get(), 1);
    assert_eq!(g1, g2);
    assert_eq!(g1, Some(threshold(1, &[key_one()])));
}

// A re-entrant request for a guard that is being computed fails fast.
#[test]
fn guard_cache_reentrancy_fails_fast() {
    let c = TestContract::simple(vec![(7, threshold(1, &[key_one()]))]);
    let mut cache = GuardCache::new();
    cache.begin(7);
    let mut root = Context::new(NetworkId::Regtest, 1_000);
    let pos = root.derive(PathSegment::Branch(0)).unwrap();
    let r = get_or_compile(&mut cache, &c, 7, pos);
    assert!(matches!(r, Err(CompilationError::RecursiveGuardInvocation)));
}

// Compiling a bare key yields a key-path-only address holding the funds.
#[test]
fn compile_bare_key() {
    let art = compile_key(&key_one(), Context::new(NetworkId::Regtest, 77_777)).unwrap();
    assert!(art.address.starts_with("bcrt1p"));
    assert_eq!(art.amount_range.min(), 77_777);
    assert_eq!(art.amount_range.max(), 77_777);
    assert_eq!(art.ctv_to_tx.len(), 0);
    assert!(compile_key(&[0u8; 32], Context::new(NetworkId::Regtest, 1)).is_err());
}

struct OneEffectDB {
    key: String,
    arg: String,
}

impl EffectDB for OneEffectDB {
    fn get_value(&self, _path: &Path) -> Vec<(String, String)> {
        vec![(self.key.clone(), self.arg.clone())]
    }
}

// A finish-or transition records a continuation point and its default and
// keyed expansions land in the suggested map, which never carries guards.
#[test]
fn finish_or_expansions_fill_suggested_map() {
    let mut c = TestContract::simple(vec![(1, threshold(1, &[key_one()]))]);
    c.finish_or = Some((
        "update".to_string(),
        vec![pay(10_000, b"default path")],
        vec![pay(10_000, b"keyed path")],
    ));
    let em = CountingEmulator { calls: Cell::new(0) };
    let fx = OneEffectDB { key: "alice".to_string(), arg: "{\"n\":1}".to_string() };
    let art = compile_contract(&c, Context::new(NetworkId::Regtest, 10_000), &em, &fx).unwrap();
    assert_eq!(art.suggested_txs.len(), 2);
    assert_eq!(art.ctv_to_tx.len(), 0);
    assert_eq!(art.continue_apis.len(), 1);
    assert_eq!(em.calls.get(), 0);
    for i in 0..art.suggested_txs.len() {
        assert!(art.suggested_txs.template_at(i).guards.is_empty());
    }
    // With no external arguments only the default expansion is recorded.
    let mut c2 = TestContract::simple(vec![(1, threshold(1, &[key_one()]))]);
    c2.finish_or = Some((
        "update".to_string(),
        vec![pay(10_000, b"default path")],
        vec![pay(10_000, b"keyed path")],
    ));
    let art2 =
        compile_contract(&c2, Context::new(NetworkId::Regtest, 10_000), &em, &EmptyEffectDB)
            .unwrap();
    assert_eq!(art2.suggested_txs.len(), 1);
}

// A suggested template that carries extra guards invalidates the compilation.
#[test]
fn suggested_template_with_guards_fails() {
    let mut c = TestContract::simple(vec![(1, threshold(1, &[key_one()]))]);
    let mut t = pay(10_000, b"default path");
    t.guards = vec![Clause::Key(key_two())];
    c.finish_or = Some(("update".to_string(), vec![t], Vec::new()));
    let r = compile_contract(
        &c,
        Context::new(NetworkId::Regtest, 10_000),
        &CountingEmulator { calls: Cell::new(0) },
        &EmptyEffectDB,
    );
    assert!(matches!(
        r,
        Err(CompilationError::AdditionalGuardsNotAllowedHere)
    ));
}

// The federated peg-in compiles in both states; beginning a recovery commits
// the pegged amount to the finish-recovery state.
#[test]
fn federated_peg_in_compiles() {
    let peg: FederatedPegIn<CanBeginRecovery> = FederatedPegIn {
        keys: vec![key_two(), key_three()],
        thresh_normal: 2,
        keys_recovery: vec![key_four()],
        thresh_recovery: 1,
        amount: 500_000,
        state: PhantomData,
    };
    let em = CountingEmulator { calls: Cell::new(0) };
    let art = compile_contract(&peg, Context::new(NetworkId::Regtest, 500_000), &em, &EmptyEffectDB)
        .unwrap();
    assert_eq!(art.ctv_to_tx.len(), 1);
    assert_eq!(art.ctv_to_tx.template_at(0).outputs[0].amount, 500_000);
    assert_eq!(em.calls.get(), 1);
    assert!(art.address.starts_with("bcrt1p"));
}

// A committed template that carries guards may not share its hash with a
// suggested recording: the guard sets would differ.
#[test]
fn guarded_gated_hash_cannot_be_suggested() {
    let mut c = TestContract::simple(vec![(1, threshold(1, &[key_one()]))]);
    let mut gated_t = pay(10_000, b"shared destination");
    gated_t.guards = vec![Clause::Key(key_two())];
    c.then_templates = Some(Ok(vec![gated_t]));
    c.then_guard = Some(Clause::Older(6));
    c.finish_or = Some((
        "update".to_string(),
        vec![pay(10_000, b"shared destination")],
        Vec::new(),
    ));
    let r = compile_contract(
        &c,
        Context::new(NetworkId::Regtest, 10_000),
        &CountingEmulator { calls: Cell::new(0) },
        &EmptyEffectDB,
    );
    assert!(matches!(
        r,
        Err(CompilationError::AdditionalGuardsNotAllowedHere)
    ));
}

// The library's federation-backed oracle produces the same threshold
// condition for every hash, and a contract compiles against it.
#[test]
fn federation_emulator_compiles_contract() {
    let em = FederationEmulator { oracle_keys: vec![key_one()], threshold: 1 };
    let b = compile_contract(
        &StepB { amount: 25_000 },
        Context::new(NetworkId::Regtest, 25_000),
        &em,
        &EmptyEffectDB,
    )
    .unwrap();
    assert_eq!(b.ctv_to_tx.len(), 1);
    assert!(b.address.starts_with("bcrt1p"));
}

// The commitment hash is a function of the template content alone: equal
// content gives one hash, different content gives different hashes, and the
// digest never echoes its preimage.
#[test]
fn template_hash_identifies_content() {
    let a = pay(1_000, b"dest");
    let b = pay(1_000, b"dest");
    let c = pay(1_001, b"dest");
    assert_eq!(a.hash(), b.hash());
    assert_ne!(a.hash(), c.hash());
    assert_ne!(a.hash().to_vec(), a.encode());
}

// Duplicate hashes deduplicate into one gated template, while the oracle is
// consulted once per occurrence.
#[test]
fn duplicate_templates_deduplicate() {
    let mut c = TestContract::simple(vec![(1, threshold(1, &[key_two()]))]);
    c.then_templates = Some(Ok(vec![pay(10_000, b"dest"), pay(10_000, b"dest")]));
    c.then_guard = Some(Clause::Older(6));
    let em = CountingEmulator { calls: Cell::new(0) };
    let art = compile_contract(&c, Context::new(NetworkId::Regtest, 10_000), &em, &EmptyEffectDB)
        .unwrap();
    assert_eq!(art.ctv_to_tx.len(), 1);
    assert_eq!(em.calls.get(), 2);
}

// A transition whose predicate says never is excluded entirely: not even
// attempted, and absent from the artifact.
#[test]
fn never_transition_is_excluded() {
    let finish = vec![(1, threshold(1, &[key_one()]))];
    let mut c = TestContract::simple(finish.iter().map(|(k, g)| (*k, dup_clause(g))).collect());
    c.then_templates = Some(Ok(vec![pay(10_000, b"dest")]));
    c.then_compile_if = CompileIf::Never;
    c.then_guard = Some(Clause::Older(6));
    let em = CountingEmulator { calls: Cell::new(0) };
    let art = compile_contract(&c, Context::new(NetworkId::Regtest, 10_000), &em, &EmptyEffectDB)
        .unwrap();
    let plain = compile_contract(
        &TestContract::simple(finish),
        Context::new(NetworkId::Regtest, 10_000),
        &em,
        &EmptyEffectDB,
    )
    .unwrap();
    assert_eq!(art.ctv_to_tx.len(), 0);
    assert_eq!(art.address, plain.address);
    assert_eq!(em.calls.get(), 0);
}

// The merged expansion keeps the default templates first and the keyed
// expansions in order.
#[test]
fn merge_expansions_keeps_order() {
    let merged = sapio::compiler::merge_expansions(
        vec![pay(1, b"a")],
        vec![vec![pay(2, b"b"), pay(3, b"c")], vec![], vec![pay(4, b"d")]],
    );
    let amounts: Vec<u64> = merged.iter().map(|t| t.outputs[0].amount).collect();
    assert_eq!(amounts, vec![1, 2, 3, 4]);
}

// The single-payment template builder fills exactly one output and one input.
#[test]
fn pay_to_builds_single_payment() {
    let t = Template::pay_to(42, b"somewhere".to_vec());
    assert_eq!(t.outputs.len(), 1);
    assert_eq!(t.outputs[0].amount, 42);
    assert_eq!(t.outputs[0].script_pubkey, b"somewhere".to_vec());
    assert_eq!(t.sequences, vec![0]);
    assert!(t.min_feerate_sats_vbyte.is_none());
    assert!(t.guards.is_empty());
}

// The branch guard combines the applicable guards: trivially satisfiable
// where none applies, the single clause alone, the conjunction otherwise.
#[test]
fn create_guards_combines_cached_clauses() {
    let c = TestContract::simple(vec![
        (7, Clause::Older(9)),
        (8, Clause::Key(key_one())),
    ]);
    let mut cache = GuardCache::new();
    let mut root = Context::new(NetworkId::Regtest, 1_000);
    let g0 = sapio::compiler::create_guards(
        &mut cache,
        &c,
        &vec![],
        root.derive(PathSegment::Branch(0)).unwrap(),
    )
    .unwrap();
    assert_eq!(g0, Clause::Trivial);
    let g1 = sapio::compiler::create_guards(
        &mut cache,
        &c,
        &vec![7],
        root.derive(PathSegment::Branch(1)).unwrap(),
    )
    .unwrap();
    assert_eq!(g1, Clause::Older(9));
    let g2 = sapio::compiler::create_guards(
        &mut cache,
        &c,
        &vec![7, 8],
        root.derive(PathSegment::Branch(2)).unwrap(),
    )
    .unwrap();
    assert_eq!(g2, Clause::And(vec![Clause::Older(9), Clause::Key(key_one())]));
    // The two calls for key 7 ran its guard once.
    assert_eq!(c.guard_calls.get(), 2);
}

// The selected internal key is the first bare-key branch; the hash-derived
// fallback differs from every listed key.
#[test]
fn internal_key_selection() {
    let branches = vec![Clause::Older(4), Clause::Key(key_two()), Clause::Key(key_one())];
    assert_eq!(sapio::compiler::select_internal_key(&branches), key_two());
    let fallback = sapio::compiler::select_internal_key(&vec![Clause::Older(4)]);
    assert_ne!(fallback, key_one());
    assert_ne!(fallback, key_two());
}
