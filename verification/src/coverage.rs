//! Capability coverage verdicts and per-signer capability tallies.
//!
//! Each signer of a transaction is classified by how far its capability
//! list scopes what the signer authorizes: `Full` (every capability was
//! recognized as safely scoping the transaction), `HasFallback` (a
//! capability list was present but some entry could not be vouched for),
//! or `NoCaps` (no scoping at all).  Per-signer verdicts are merged into
//! one transaction-wide verdict by a dominance rule: `NoCaps` dominates
//! everything, `HasFallback` dominates `Full`, and `Full` is the identity.

use vstd::prelude::*;

verus! {

/// Per-signer (and transaction-wide) capability coverage verdict.
#[derive(Clone, Copy, Debug, PartialEq, Eq, Structural)]
pub enum CapabilityCoverage {
    Full,
    HasFallback,
    NoCaps,
}

/// The dominance rule for two verdicts: `NoCaps` wins over everything,
/// `HasFallback` wins over `Full`.
pub open spec fn merge_coverage(a: CapabilityCoverage, b: CapabilityCoverage) -> CapabilityCoverage {
    match b {
        CapabilityCoverage::Full => a,
        CapabilityCoverage::HasFallback => if a is Full {
            CapabilityCoverage::HasFallback
        } else {
            a
        },
        CapabilityCoverage::NoCaps => CapabilityCoverage::NoCaps,
    }
}

/// Verdict of a whole sequence of per-signer verdicts, folded left to right
/// from the identity `Full`.
pub open spec fn fold_coverage(vs: Seq<CapabilityCoverage>) -> CapabilityCoverage
    decreases vs.len(),
{
    if vs.len() == 0 {
        CapabilityCoverage::Full
    } else {
        merge_coverage(fold_coverage(vs.drop_last()), vs.last())
    }
}

impl CapabilityCoverage {
    /// The identity of the merge: the verdict of an empty signer list.
    pub fn zero() -> (r: Self)
        ensures
            r == CapabilityCoverage::Full,
    {
        CapabilityCoverage::Full
    }

    /// Folds `other` into the running accumulator `self` under the
    /// dominance rule.
    pub fn add_and_set(&mut self, other: &CapabilityCoverage)
        ensures
            *final(self) == merge_coverage(*old(self), *other),
    {
        match other {
            CapabilityCoverage::Full => {}
            CapabilityCoverage::HasFallback => {
                if *self == CapabilityCoverage::Full {
                    *self = CapabilityCoverage::HasFallback
                }
            }
            CapabilityCoverage::NoCaps => {
                *self = CapabilityCoverage::NoCaps;
            }
        }
    }
}

/// The merge is commutative.
pub proof fn lemma_merge_coverage_commutative(a: CapabilityCoverage, b: CapabilityCoverage)
    ensures
        merge_coverage(a, b) == merge_coverage(b, a),
{
}

/// The merge is associative.
pub proof fn lemma_merge_coverage_associative(
    a: CapabilityCoverage,
    b: CapabilityCoverage,
    c: CapabilityCoverage,
)
    ensures
        merge_coverage(merge_coverage(a, b), c) == merge_coverage(a, merge_coverage(b, c)),
{
}

/// The merge is idempotent, and in particular merging `Full` into a
/// verdict never changes it: `Full` is the identity on both sides.
pub proof fn lemma_merge_coverage_idempotent(a: CapabilityCoverage)
    ensures
        merge_coverage(a, a) == a,
        merge_coverage(a, CapabilityCoverage::Full) == a,
        merge_coverage(CapabilityCoverage::Full, a) == a,
{
}

/// A single `NoCaps` verdict anywhere in a sequence forces the folded
/// transaction-wide verdict to `NoCaps`, regardless of its position.
pub proof fn lemma_fold_coverage_no_caps_dominates(vs: Seq<CapabilityCoverage>, i: int)
    requires
        0 <= i < vs.len(),
        vs[i] == CapabilityCoverage::NoCaps,
    ensures
        fold_coverage(vs) == CapabilityCoverage::NoCaps,
    decreases vs.len(),
{
    if i == vs.len() - 1 {
    } else {
        lemma_fold_coverage_no_caps_dominates(vs.drop_last(), i);
    }
}

/// Folding is invariant under swapping any two adjacent verdicts: together
/// with associativity this says the transaction verdict does not depend on
/// the order in which signers stream by.
pub proof fn lemma_fold_coverage_swap_adjacent(vs: Seq<CapabilityCoverage>, i: int)
    requires
        0 <= i < vs.len() - 1,
    ensures
        fold_coverage(vs) == fold_coverage(
            vs.update(i, vs[i + 1]).update(i + 1, vs[i]),
        ),
    decreases vs.len(),
{
    let sw = vs.update(i, vs[i + 1]).update(i + 1, vs[i]);
    if i == vs.len() - 2 {
        assert(sw.drop_last().drop_last() =~= vs.drop_last().drop_last());
        let p = vs.drop_last().drop_last();
        let x = vs[i];
        let y = vs[i + 1];
        assert(vs.drop_last() =~= p.push(x));
        assert(sw.drop_last() =~= p.push(y));
        assert(fold_coverage(p.push(x)) == merge_coverage(fold_coverage(p), x)) by {
            assert(p.push(x).drop_last() =~= p);
        }
        assert(fold_coverage(p.push(y)) == merge_coverage(fold_coverage(p), y)) by {
            assert(p.push(y).drop_last() =~= p);
        }
        let f = fold_coverage(p);
        lemma_merge_coverage_associative(f, x, y);
        lemma_merge_coverage_associative(f, y, x);
        lemma_merge_coverage_commutative(x, y);
    } else {
        assert(sw.drop_last() =~= vs.drop_last().update(i, vs[i + 1]).update(i + 1, vs[i]));
        lemma_fold_coverage_swap_adjacent(vs.drop_last(), i);
        assert(sw.last() == vs.last());
    }
}

/// Per-signer running tally of capabilities seen so far, seeding the
/// ordinals shown to the user ("Transfer 2", "Unknown Capability 3").
/// A single capability contributes `IsTransfer`, `IsUnknownCap`, or a
/// neutral zero tally; the accumulator is always the `CapCount` variant.
#[derive(Clone, Copy, Debug, PartialEq, Eq, Structural)]
pub enum CapCountData {
    IsTransfer,
    IsUnknownCap,
    CapCount { total_caps: u16, total_transfers: u16, total_unknown: u16 },
}

/// What folding one element into a tally accumulator yields.  Counters are
/// sixteen-bit and wrap, as they do on the device.  An accumulator that is
/// not the `CapCount` variant is left unchanged.
pub open spec fn merge_cap_count(acc: CapCountData, other: CapCountData) -> CapCountData {
    match acc {
        CapCountData::CapCount { total_caps, total_transfers, total_unknown } => {
            CapCountData::CapCount {
                total_caps: ((total_caps + 1) % 0x10000) as u16,
                total_transfers: if other is IsTransfer {
                    ((total_transfers + 1) % 0x10000) as u16
                } else {
                    total_transfers
                },
                total_unknown: if other is IsUnknownCap {
                    ((total_unknown + 1) % 0x10000) as u16
                } else {
                    total_unknown
                },
            }
        }
        _ => acc,
    }
}

impl CapCountData {
    /// The identity tally: nothing counted yet.
    pub fn zero() -> (r: Self)
        ensures
            r == (CapCountData::CapCount { total_caps: 0u16, total_transfers: 0u16, total_unknown: 0u16 }),
    {
        CapCountData::CapCount { total_caps: 0, total_transfers: 0, total_unknown: 0 }
    }

    /// Counts one more capability: the total always advances, and the
    /// transfer or unknown tally advances when `other` says so.
    pub fn add_and_set(&mut self, other: &CapCountData)
        ensures
            *final(self) == merge_cap_count(*old(self), *other),
    {
        match self {
            CapCountData::CapCount { total_caps, total_transfers, total_unknown } => {
                *total_caps = total_caps.wrapping_add(1);
                match other {
                    CapCountData::IsTransfer => {
                        *total_transfers = total_transfers.wrapping_add(1);
                    }
                    CapCountData::IsUnknownCap => {
                        *total_unknown = total_unknown.wrapping_add(1);
                    }
                    _ => {}
                }
            }
            _ => {}
        }
    }
}

} // verus!
