//! Splitting an exhaustive sweep of instruction words among workers.
use vstd::prelude::*;

verus! {

/// The last word of the sweep; ranges are half-open, so it is an end bound.
pub const SWEEP_END: u32 = 0xFFFF_FFFF;

/// How often a worker reports progress: at each word that is a multiple of this.
pub const PROGRESS_INTERVAL: u32 = 0x8_0000;

/// The length of each range when the sweep is split among `parts` workers.
pub open spec fn part_size(parts: u32) -> int {
    SWEEP_END as int / parts as int
}

/// Splits the words `0..SWEEP_END` into contiguous half-open ranges of
/// `SWEEP_END / parts` words each, as many as fit, the last one stretched to
/// end at `SWEEP_END`.
pub fn partition(parts: u32) -> (r: Vec<(u32, u32)>)
    requires
        parts != 0,
    ensures
        r@.len() == SWEEP_END as int / part_size(parts),
        r@.len() >= 1,
        forall|k: int| 0 <= k < r@.len() ==> (#[trigger] r@[k]).0 == k * part_size(parts),
        forall|k: int|
            0 <= k < r@.len() - 1 ==> (#[trigger] r@[k]).1 == (k + 1) * part_size(parts),
        r@[r@.len() - 1].1 == SWEEP_END,
{
    let p = SWEEP_END / parts;
    assert(p >= 1) by (nonlinear_arith)
        requires
            p == 0xFFFF_FFFFu32 / parts,
            parts >= 1,
    ;
    let mut ranges: Vec<(u32, u32)> = Vec::new();
    let mut offset: u32 = 0;
    while p <= SWEEP_END - offset
        invariant
            p == part_size(parts),
            p >= 1,
            offset as int == ranges@.len() * p,
            forall|k: int| 0 <= k < ranges@.len() ==> (#[trigger] ranges@[k]).0 == k * p,
            forall|k: int| 0 <= k < ranges@.len() ==> (#[trigger] ranges@[k]).1 == (k + 1) * p,
        decreases SWEEP_END - offset,
    {
        let next = offset + p;
        ranges.push((offset, next));
        assert(next == ranges@.len() * p) by (nonlinear_arith)
            requires
                next == offset + p,
                offset == (ranges@.len() - 1) * p,
        ;
        offset = next;
    }
    let n = ranges.len();
    proof {
        assert(offset + p > SWEEP_END);
        assert(n as int * p <= SWEEP_END as int);
        vstd::arithmetic::div_mod::lemma_fundamental_div_mod_converse(
            SWEEP_END as int,
            p as int,
            n as int,
            SWEEP_END as int - n * p,
        );
        assert(n >= 1) by (nonlinear_arith)
            requires
                n as int * p + p > SWEEP_END as int,
                p <= SWEEP_END as int,
        ;
    }
    let first = ranges[n - 1].0;
    ranges.set(n - 1, (first, SWEEP_END));
    ranges
}

/// Whether a worker records its progress at word `x`.
pub fn is_progress_point(x: u32) -> (r: bool)
    ensures
        r == (x % PROGRESS_INTERVAL == 0),
{
    x % PROGRESS_INTERVAL == 0
}

} // verus!
