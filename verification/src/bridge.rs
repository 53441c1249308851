//! Trusted declarations for the outside crates the compiler relies on.
//!
//! The policy compiler, the descriptor and address derivation and the digest
//! of a template's content are computed by the `miniscript` and `bitcoin`
//! crates. Each call stands behind a small function whose contract names what
//! the call returns; everything around the calls is verified against those
//! contracts.
use crate::clause::{Clause, ClauseV};
use crate::context::NetworkId;
use crate::error::CompilationError;
use crate::tree::{Fragment, ScriptTree, TreeShape};
use std::sync::Arc;
use bitcoin::hashes::Hash as _;
use miniscript::policy::concrete::Policy;
use miniscript::{Descriptor, DescriptorTrait};
use vstd::prelude::*;

verus! {

#[verifier::external_type_specification]
#[verifier::external_body]
pub struct ExXOnlyPublicKey(bitcoin::XOnlyPublicKey);

#[verifier::external_type_specification]
#[verifier::external_body]
pub struct ExNetwork(bitcoin::Network);

/// Holds a `miniscript` policy value; opaque to the verifier, which cannot
/// take the type's own generic declaration.
#[verifier::external_body]
pub struct PolicyRepr {
    inner: Policy<bitcoin::XOnlyPublicKey>,
}

/// Holds a compiled `miniscript` script representation; opaque to the
/// verifier, which cannot take the type's own generic declaration.
#[verifier::external_body]
pub struct MsRepr {
    pub(crate) inner: miniscript::Miniscript<bitcoin::XOnlyPublicKey, miniscript::Tap>,
}

/// Holds a list of `miniscript` policy values; opaque to the verifier, which
/// cannot take the type's own generic declaration.
#[verifier::external_body]
pub struct PolicyListRepr {
    inner: Vec<Policy<bitcoin::XOnlyPublicKey>>,
}

/// Holds a `miniscript` taproot tree; opaque to the verifier, which cannot
/// take the type's own generic declaration.
#[verifier::external_body]
pub struct TapTreeRepr {
    inner: miniscript::descriptor::TapTree<bitcoin::XOnlyPublicKey>,
}

/// The SHA-256 digest of a byte string.
pub uninterp spec fn sha256_of(data: Seq<u8>) -> Seq<u8>;

/// Relies on `bitcoin::hashes::sha256`: the digest is 32 bytes and depends on
/// the input bytes alone.
#[verifier::external_body]
pub(crate) fn sha256(data: &Vec<u8>) -> (r: [u8; 32])
    ensures
        r@ == sha256_of(data@),
{
    bitcoin::hashes::sha256::Hash::hash(data.as_slice()).into_inner()
}

/// Relies on `bitcoin::XOnlyPublicKey::from_slice`: parses the 32 key bytes;
/// fails on bytes that are not a valid x-only public key.
#[verifier::external_body]
fn parse_key(k: &[u8; 32]) -> (r: Result<bitcoin::XOnlyPublicKey, CompilationError>) {
    bitcoin::XOnlyPublicKey::from_slice(k).map_err(
        |e| CompilationError::PolicyCompilationFailed(format!("{}", e)),
    )
}

/// Relies on the `miniscript` policy constructors: converts a clause, one
/// variant to one variant; every disjunct of an or-clause gets equal odds,
/// which only weighs the policy compiler's optimization.
#[verifier::external_body]
fn to_policy(c: &Clause) -> (r: Result<PolicyRepr, CompilationError>) {
    let inner = match c {
        Clause::Key(k) => Policy::Key(parse_key(k)?),
        Clause::Threshold(k, v) => Policy::Threshold(*k, to_policies(v)?.inner),
        Clause::And(v) => Policy::And(to_policies(v)?.inner),
        Clause::Or(v) => Policy::Or(to_policies(v)?.inner.into_iter().map(|p| (1, p)).collect()),
        Clause::Older(n) => Policy::Older(*n),
        Clause::After(n) => Policy::After(*n),
        Clause::Trivial => Policy::Trivial,
        Clause::Unsatisfiable => Policy::Unsatisfiable,
    };
    Ok(PolicyRepr { inner })
}

/// Relies on the `miniscript` policy constructors: converts a clause list,
/// element-wise.
#[verifier::external_body]
fn to_policies(v: &Vec<Clause>) -> (r: Result<PolicyListRepr, CompilationError>) {
    let inner: Result<Vec<_>, CompilationError> = v.iter().map(
        |c| to_policy(c).map(|p| p.inner),
    ).collect();
    Ok(PolicyListRepr { inner: inner? })
}

/// The script a clause compiles to, when the policy compiler accepts it.
pub uninterp spec fn compiled_script_of(c: ClauseV) -> Option<Seq<u8>>;

/// Relies on `miniscript::policy::concrete::Policy::compile` for the taproot
/// script context: whether compilation succeeds and which script it yields
/// depend on the clause alone.
#[verifier::external_body]
pub(crate) fn compile_policy(c: &Clause) -> (r: Result<Fragment, CompilationError>)
    ensures
        match r {
            Ok(f) => compiled_script_of(c@) == Some(f@),
            Err(e) => compiled_script_of(c@) is None && e is PolicyCompilationFailed,
        },
{
    let p = to_policy(c)?.inner;
    let ms: miniscript::Miniscript<bitcoin::XOnlyPublicKey, miniscript::Tap> = p.compile()
        .map_err(|e| CompilationError::PolicyCompilationFailed(format!("{}", e)))?;
    let script = ms.encode().to_bytes();
    Ok(Fragment { script, ms: MsRepr { inner: ms } })
}

/// Relies on `miniscript::descriptor::TapTree`: converts a script tree, one
/// node to one node.
#[verifier::external_body]
fn to_tap_tree(t: &ScriptTree) -> (r: TapTreeRepr) {
    let inner = match t {
        ScriptTree::Leaf(f) => miniscript::descriptor::TapTree::Leaf(Arc::new(f.ms.inner.clone())),
        ScriptTree::Node(l, r) => miniscript::descriptor::TapTree::Tree(
            Arc::new(to_tap_tree(l).inner),
            Arc::new(to_tap_tree(r).inner),
        ),
    };
    TapTreeRepr { inner }
}

/// Relies on `bitcoin::Network`: converts the ledger name, one variant to one
/// variant.
#[verifier::external_body]
fn to_bitcoin_network(network: NetworkId) -> (r: bitcoin::Network) {
    match network {
        NetworkId::Bitcoin => bitcoin::Network::Bitcoin,
        NetworkId::Testnet => bitcoin::Network::Testnet,
        NetworkId::Signet => bitcoin::Network::Signet,
        NetworkId::Regtest => bitcoin::Network::Regtest,
    }
}

/// The assembled artifact surface of a finished compilation: the output
/// address, the output descriptor and the descriptor's worst-case
/// satisfaction weight.
pub struct FinalParts {
    pub address: String,
    pub descriptor: String,
    pub max_sat_weight: u64,
}

/// The shape of `FinalParts`, with its strings as char sequences.
pub struct FinalV {
    pub address: Seq<char>,
    pub descriptor: Seq<char>,
    pub max_sat_weight: u64,
}

impl View for FinalParts {
    type V = FinalV;

    open spec fn view(&self) -> FinalV {
        FinalV { address: self.address@, descriptor: self.descriptor@, max_sat_weight: self.max_sat_weight }
    }
}

/// The shape of an optional script tree.
pub open spec fn opt_shape(t: &Option<ScriptTree>) -> Option<TreeShape> {
    match t {
        Option::None => None,
        Option::Some(x) => Some(x@),
    }
}

/// The address, descriptor and worst-case satisfaction weight of a taproot
/// output: a function of the internal key, the tree shape and the network
/// alone; absent when the descriptor cannot be assembled (an invalid internal
/// key, or a tree beyond the depth limit).
pub uninterp spec fn finalized_of(key: Seq<u8>, tree: Option<TreeShape>, network: NetworkId) -> Option<
    FinalV,
>;

/// Relies on `miniscript::descriptor::Tr`: the descriptor, its address for
/// the network and its worst-case satisfaction weight depend on the internal
/// key, the script tree and the network alone.
#[verifier::external_body]
pub(crate) fn finalize_descriptor(key: &[u8; 32], tree: &Option<ScriptTree>, network: NetworkId) -> (r:
    Result<FinalParts, CompilationError>)
    ensures
        match r {
            Ok(f) => finalized_of(key@, opt_shape(tree), network) == Some(f@),
            Err(e) => finalized_of(key@, opt_shape(tree), network) is None
                && e is PolicyCompilationFailed,
        },
{
    let fail = |e: String| CompilationError::PolicyCompilationFailed(e);
    let k = bitcoin::XOnlyPublicKey::from_slice(key).map_err(|e| fail(format!("{}", e)))?;
    let t = tree.as_ref().map(|x| to_tap_tree(x).inner);
    let tr = miniscript::descriptor::Tr::new(k, t).map_err(|e| fail(format!("{}", e)))?;
    let desc = Descriptor::Tr(tr);
    let max_sat_weight = desc.max_satisfaction_weight().map_err(|e| fail(format!("{}", e)))? as u64;
    let address = desc.address(to_bitcoin_network(network)).map_err(|e| fail(format!("{}", e)))?;
    Ok(FinalParts { address: format!("{}", address), descriptor: format!("{}", desc), max_sat_weight })
}

/// The address of a key-path-only taproot output whose key is assumed
/// already tweaked; absent when the bytes are not a valid x-only key.
pub uninterp spec fn key_address_of(key: Seq<u8>, network: NetworkId) -> Option<Seq<char>>;

/// Relies on `bitcoin::Address::p2tr_tweaked`: the address depends on the key
/// bytes and the network alone.
#[verifier::external_body]
pub(crate) fn key_only_address(key: &[u8; 32], network: NetworkId) -> (r: Result<
    String,
    CompilationError,
>)
    ensures
        match r {
            Ok(s) => key_address_of(key@, network) == Some(s@),
            Err(e) => key_address_of(key@, network) is None && e is PolicyCompilationFailed,
        },
{
    let k = bitcoin::XOnlyPublicKey::from_slice(key)
        .map_err(|e| CompilationError::PolicyCompilationFailed(format!("{}", e)))?;
    let tweaked = bitcoin::schnorr::TweakedPublicKey::dangerous_assume_tweaked(k);
    let address = bitcoin::Address::p2tr_tweaked(tweaked, to_bitcoin_network(network));
    Ok(format!("{}", address))
}

} // verus!
