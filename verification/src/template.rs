//! Transaction templates: the pre-committed next transactions of a contract.
//!
//! A template is an ordered list of outputs, one relative-timelock sequence
//! number per input, and an optional minimum fee rate. Its content hash — the
//! digest of a deterministic encoding of outputs and sequences — is the
//! commitment value and the deduplication key: two templates with the same
//! hash are the same logical next transaction.
use crate::bridge::{sha256, sha256_of};
use crate::clause::Clause;
use vstd::bytes::{spec_u32_to_le_bytes, spec_u64_to_le_bytes, u32_to_le_bytes, u64_to_le_bytes};
use vstd::prelude::*;

verus! {

/// One output of a transaction template: an amount in satoshis and a
/// destination script.
pub struct Output {
    pub amount: u64,
    pub script_pubkey: Vec<u8>,
}

/// A pre-committed transaction template.
pub struct Template {
    /// The ordered outputs of the next transaction.
    pub outputs: Vec<Output>,
    /// One sequence number per input of the next transaction.
    pub sequences: Vec<u32>,
    /// The minimum fee rate, in satoshis per weight unit, that the template
    /// declares; checked by the fee-safety validation.
    pub min_feerate_sats_vbyte: Option<u64>,
    /// Extra guards carried by the template itself.
    pub guards: Vec<Clause>,
}

/// The total amount committed by a list of outputs.
pub open spec fn total_of(outs: Seq<Output>) -> int
    decreases outs.len(),
{
    if outs.len() == 0 {
        0
    } else {
        total_of(outs.drop_last()) + outs.last().amount
    }
}

/// A prefix of an output list never commits more than the whole list.
pub proof fn lemma_total_prefix(outs: Seq<Output>, k: int)
    requires
        0 <= k <= outs.len(),
    ensures
        total_of(outs.subrange(0, k)) <= total_of(outs),
    decreases outs.len() - k,
{
    if k == outs.len() {
        assert(outs.subrange(0, k) =~= outs);
    } else {
        lemma_total_prefix(outs, k + 1);
        assert(outs.subrange(0, k + 1).drop_last() =~= outs.subrange(0, k));
        assert(total_of(outs.subrange(0, k + 1)) == total_of(outs.subrange(0, k)) + outs[k].amount);
    }
}

/// The encoded weight contribution of a list of outputs.
pub open spec fn outputs_weight(outs: Seq<Output>) -> int
    decreases outs.len(),
{
    if outs.len() == 0 {
        0
    } else {
        outputs_weight(outs.drop_last()) + 9 + outs.last().script_pubkey@.len()
    }
}

/// No output list weighs a negative amount.
pub proof fn lemma_outputs_weight_nonneg(outs: Seq<Output>)
    ensures
        outputs_weight(outs) >= 0,
    decreases outs.len(),
{
    if outs.len() > 0 {
        lemma_outputs_weight_nonneg(outs.drop_last());
    }
}

/// Capping at the largest representable weight.
pub open spec fn cap64(w: int) -> int {
    if w > u64::MAX {
        u64::MAX as int
    } else {
        w
    }
}

/// The deterministic encoding of one output.
pub open spec fn output_bytes(o: Output) -> Seq<u8> {
    spec_u64_to_le_bytes(o.amount) + spec_u64_to_le_bytes(o.script_pubkey@.len() as u64)
        + o.script_pubkey@
}

/// The deterministic encoding of a list of outputs.
pub open spec fn outputs_bytes(outs: Seq<Output>) -> Seq<u8>
    decreases outs.len(),
{
    if outs.len() == 0 {
        Seq::empty()
    } else {
        outputs_bytes(outs.drop_last()) + output_bytes(outs.last())
    }
}

/// The deterministic encoding of the sequence numbers.
pub open spec fn sequences_bytes(ss: Seq<u32>) -> Seq<u8>
    decreases ss.len(),
{
    if ss.len() == 0 {
        Seq::empty()
    } else {
        sequences_bytes(ss.drop_last()) + spec_u32_to_le_bytes(ss.last())
    }
}

impl Template {
    /// The total amount committed by this template's outputs.
    pub open spec fn total_v(&self) -> int {
        total_of(self.outputs@)
    }

    /// The estimated weight of the next transaction: a fixed base, a per-input
    /// cost and a per-output cost, capped at the largest representable weight.
    pub open spec fn weight_v(&self) -> int {
        cap64(4 * (10 + 41 * self.sequences@.len() + outputs_weight(self.outputs@)))
    }

    /// The deterministic encoding whose digest is the commitment hash: the
    /// outputs and the sequence numbers, each with its length.
    pub open spec fn commitment_bytes(&self) -> Seq<u8> {
        spec_u64_to_le_bytes(self.outputs@.len() as u64) + outputs_bytes(self.outputs@)
            + spec_u64_to_le_bytes(self.sequences@.len() as u64) + sequences_bytes(self.sequences@)
    }

    /// The commitment hash of this template's content.
    pub open spec fn hash_v(&self) -> Seq<u8> {
        sha256_of(self.commitment_bytes())
    }

    /// The total committed amount; nothing when the sum does not fit the
    /// amount type.
    pub fn total_amount(&self) -> (r: Option<u64>)
        ensures
            match r {
                Some(s) => s == self.total_v(),
                None => self.total_v() > u64::MAX,
            },
    {
        let mut acc: u64 = 0;
        let mut i: usize = 0;
        while i < self.outputs.len()
            invariant
                0 <= i <= self.outputs@.len(),
                acc == total_of(self.outputs@.subrange(0, i as int)),
            decreases self.outputs@.len() - i,
        {
            let a = self.outputs[i].amount;
            proof {
                assert(self.outputs@.subrange(0, i + 1).drop_last() =~= self.outputs@.subrange(
                    0,
                    i as int,
                ));
                assert(self.outputs@.subrange(0, i + 1).last() == self.outputs@[i as int]);
            }
            if a > u64::MAX - acc {
                proof {
                    lemma_total_prefix(self.outputs@, i + 1);
                }
                return None;
            }
            acc = acc + a;
            i += 1;
        }
        proof {
            assert(self.outputs@.subrange(0, self.outputs@.len() as int) =~= self.outputs@);
        }
        Some(acc)
    }

    /// The estimated weight of the next transaction.
    pub fn weight(&self) -> (r: u64)
        ensures
            r == self.weight_v(),
    {
        let mut acc: u64 = 0;
        let mut i: usize = 0;
        while i < self.outputs.len()
            invariant
                0 <= i <= self.outputs@.len(),
                acc == cap64(outputs_weight(self.outputs@.subrange(0, i as int))),
            decreases self.outputs@.len() - i,
        {
            proof {
                assert(self.outputs@.subrange(0, i + 1).drop_last() =~= self.outputs@.subrange(
                    0,
                    i as int,
                ));
                assert(self.outputs@.subrange(0, i + 1).last() == self.outputs@[i as int]);
            }
            let extra = sat_add(9, self.outputs[i].script_pubkey.len() as u64);
            acc = sat_add(acc, extra);
            i += 1;
        }
        proof {
            assert(self.outputs@.subrange(0, self.outputs@.len() as int) =~= self.outputs@);
        }
        let ins = sat_mul41(self.sequences.len() as u64);
        let inner = sat_add(10, sat_add(ins, acc));
        let w = sat_mul4(inner);
        w
    }

    /// The commitment-hash preimage: the deterministic encoding of the
    /// template's transaction content.
    pub fn encode(&self) -> (r: Vec<u8>)
        ensures
            r@ == self.commitment_bytes(),
    {
        let mut out: Vec<u8> = Vec::new();
        let mut chunk = u64_to_le_bytes(self.outputs.len() as u64);
        out.append(&mut chunk);
        let mut i: usize = 0;
        while i < self.outputs.len()
            invariant
                0 <= i <= self.outputs@.len(),
                out@ == spec_u64_to_le_bytes(self.outputs@.len() as u64) + outputs_bytes(
                    self.outputs@.subrange(0, i as int),
                ),
            decreases self.outputs@.len() - i,
        {
            proof {
                assert(self.outputs@.subrange(0, i + 1).drop_last() =~= self.outputs@.subrange(
                    0,
                    i as int,
                ));
                assert(self.outputs@.subrange(0, i + 1).last() == self.outputs@[i as int]);
            }
            let mut amount = u64_to_le_bytes(self.outputs[i].amount);
            out.append(&mut amount);
            let mut script_len = u64_to_le_bytes(self.outputs[i].script_pubkey.len() as u64);
            out.append(&mut script_len);
            let mut j: usize = 0;
            let n = self.outputs[i].script_pubkey.len();
            while j < n
                invariant
                    0 <= j <= n == self.outputs@[i as int].script_pubkey@.len(),
                    0 <= i < self.outputs@.len(),
                    out@ == spec_u64_to_le_bytes(self.outputs@.len() as u64) + outputs_bytes(
                        self.outputs@.subrange(0, i as int),
                    ) + spec_u64_to_le_bytes(self.outputs@[i as int].amount)
                        + spec_u64_to_le_bytes(self.outputs@[i as int].script_pubkey@.len() as u64)
                        + self.outputs@[i as int].script_pubkey@.subrange(0, j as int),
                decreases n - j,
            {
                out.push(self.outputs[i].script_pubkey[j]);
                proof {
                    assert(self.outputs@[i as int].script_pubkey@.subrange(0, j + 1)
                        =~= self.outputs@[i as int].script_pubkey@.subrange(0, j as int).push(
                        self.outputs@[i as int].script_pubkey@[j as int],
                    ));
                    assert(out@ =~= spec_u64_to_le_bytes(self.outputs@.len() as u64)
                        + outputs_bytes(self.outputs@.subrange(0, i as int)) + spec_u64_to_le_bytes(
                        self.outputs@[i as int].amount,
                    ) + spec_u64_to_le_bytes(self.outputs@[i as int].script_pubkey@.len() as u64)
                        + self.outputs@[i as int].script_pubkey@.subrange(0, j + 1));
                }
                j += 1;
            }
            proof {
                assert(self.outputs@[i as int].script_pubkey@.subrange(
                    0,
                    self.outputs@[i as int].script_pubkey@.len() as int,
                ) =~= self.outputs@[i as int].script_pubkey@);
                assert(out@ =~= spec_u64_to_le_bytes(self.outputs@.len() as u64) + outputs_bytes(
                    self.outputs@.subrange(0, i + 1),
                ));
            }
            i += 1;
        }
        proof {
            assert(self.outputs@.subrange(0, self.outputs@.len() as int) =~= self.outputs@);
        }
        let mut seq_len = u64_to_le_bytes(self.sequences.len() as u64);
        out.append(&mut seq_len);
        let ghost head = spec_u64_to_le_bytes(self.outputs@.len() as u64) + outputs_bytes(
            self.outputs@,
        ) + spec_u64_to_le_bytes(self.sequences@.len() as u64);
        let mut k: usize = 0;
        while k < self.sequences.len()
            invariant
                0 <= k <= self.sequences@.len(),
                out@ == head + sequences_bytes(self.sequences@.subrange(0, k as int)),
            decreases self.sequences@.len() - k,
        {
            proof {
                assert(self.sequences@.subrange(0, k + 1).drop_last() =~= self.sequences@.subrange(
                    0,
                    k as int,
                ));
                assert(self.sequences@.subrange(0, k + 1).last() == self.sequences@[k as int]);
            }
            let mut sb = u32_to_le_bytes(self.sequences[k]);
            out.append(&mut sb);
            k += 1;
        }
        proof {
            assert(self.sequences@.subrange(0, self.sequences@.len() as int) =~= self.sequences@);
            assert(out@ =~= self.commitment_bytes());
        }
        out
    }

    /// A template with a single output paying `amount` to `script_pubkey`:
    /// one input with a zero sequence number, no declared minimum fee rate
    /// and no extra guards.
    pub fn pay_to(amount: u64, script_pubkey: Vec<u8>) -> (r: Template)
        ensures
            r.outputs@.len() == 1,
            r.outputs@[0].amount == amount,
            r.outputs@[0].script_pubkey == script_pubkey,
            r.sequences@ =~= seq![0u32],
            r.min_feerate_sats_vbyte is None,
            r.guards@.len() == 0,
    {
        let mut outputs: Vec<Output> = Vec::new();
        outputs.push(Output { amount, script_pubkey });
        let mut sequences: Vec<u32> = Vec::new();
        sequences.push(0u32);
        Template { outputs, sequences, min_feerate_sats_vbyte: None, guards: Vec::new() }
    }

    /// The commitment hash of this template's content: the digest of its
    /// deterministic encoding.
    pub fn hash(&self) -> (r: [u8; 32])
        ensures
            r@ == self.hash_v(),
    {
        let bytes = self.encode();
        sha256(&bytes)
    }
}

fn sat_add(a: u64, b: u64) -> (r: u64)
    ensures
        r == cap64(a + b),
{
    if a <= u64::MAX - b {
        a + b
    } else {
        u64::MAX
    }
}

fn sat_mul41(n: u64) -> (r: u64)
    ensures
        r == cap64(41 * n),
{
    if n <= u64::MAX / 41 {
        41 * n
    } else {
        u64::MAX
    }
}

fn sat_mul4(n: u64) -> (r: u64)
    ensures
        r == cap64(4 * n),
{
    if n <= u64::MAX / 4 {
        4 * n
    } else {
        u64::MAX
    }
}

/// The least and greatest amounts a contract's output may hold, widened as
/// compilation records each template's committed total. The empty range has
/// its least bound above its greatest.
pub struct AmountRange {
    min: u64,
    max: u64,
}

impl AmountRange {
    /// The least recorded amount.
    pub closed spec fn min_v(&self) -> u64 {
        self.min
    }

    /// The greatest recorded amount.
    pub closed spec fn max_v(&self) -> u64 {
        self.max
    }

    /// An empty range.
    pub fn new() -> (r: AmountRange)
        ensures
            r.min_v() == u64::MAX,
            r.max_v() == 0,
    {
        AmountRange { min: u64::MAX, max: 0 }
    }

    /// Widen the range to cover `amount`.
    pub fn update_range(&mut self, amount: u64)
        ensures
            final(self).min_v() == if amount < old(self).min_v() {
                amount
            } else {
                old(self).min_v()
            },
            final(self).max_v() == if amount > old(self).max_v() {
                amount
            } else {
                old(self).max_v()
            },
    {
        if amount < self.min {
            self.min = amount;
        }
        if amount > self.max {
            self.max = amount;
        }
    }

    /// The greatest recorded amount.
    pub fn max(&self) -> (r: u64)
        ensures
            r == self.max_v(),
    {
        self.max
    }

    /// The least recorded amount.
    pub fn min(&self) -> (r: u64)
        ensures
            r == self.min_v(),
    {
        self.min
    }
}

} // verus!
