//! Critical sections by interrupt masking on a single core.
//!
//! Entering a section masks both interrupt lines and hands back the prior
//! status value as a restore token; leaving restores exactly that value, so
//! sections nest to any depth.

use vstd::prelude::*;
use crate::psr::{set_flag, FIQ_BIT, IRQ_BIT, PSR};

verus! {

/// The status value while a section is held: both interrupt lines masked.
pub open spec fn masked(v: u32) -> u32 {
    set_flag(set_flag(v, IRQ_BIT, true), FIQ_BIT, true)
}

/// The status value after `k` nested acquires starting from `v`.
pub open spec fn acquired_n(v: u32, k: nat) -> u32
    decreases k,
{
    if k == 0 {
        v
    } else {
        masked(acquired_n(v, (k - 1) as nat))
    }
}

/// The restore tokens held after `k` nested acquires from `v`, outermost first.
pub open spec fn tokens_n(v: u32, k: nat) -> Seq<u32>
    decreases k,
{
    if k == 0 {
        Seq::empty()
    } else {
        tokens_n(v, (k - 1) as nat).push(acquired_n(v, (k - 1) as nat))
    }
}

/// The status value after releasing `toks` innermost first, from status `cur`.
pub open spec fn release_all(cur: u32, toks: Seq<u32>) -> u32
    decreases toks.len(),
{
    if toks.len() == 0 {
        cur
    } else {
        release_all(toks.last(), toks.drop_last())
    }
}

/// The critical-section primitive.
pub struct Cs;

impl Cs {
    /// Enters a section from status `cpsr`: returns the status to install
    /// (both interrupt lines masked) and the token that restores `cpsr`.
    pub fn acquire(cpsr: PSR) -> (r: (PSR, u32))
        ensures
            r.0.0 == masked(cpsr.0),
            r.1 == cpsr.0,
    {
        let token = cpsr.0;
        let next = cpsr.with_irq_disable(true).with_fiq_disable(true);
        (next, token)
    }

    /// Leaves a section: the status to install is exactly the token.
    pub fn release(token: u32) -> (r: PSR)
        ensures
            r.0 == token,
    {
        PSR(token)
    }
}

/// While a section is held, at any depth, both interrupt lines are masked.
pub proof fn lemma_masked_inside(v: u32, k: nat)
    requires
        k >= 1,
    ensures
        (acquired_n(v, k) >> IRQ_BIT) & 1u32 == 1u32,
        (acquired_n(v, k) >> FIQ_BIT) & 1u32 == 1u32,
{
    let p = acquired_n(v, (k - 1) as nat);
    let r = acquired_n(v, k);
    assert(r == masked(p));
    assert(((p | (1u32 << 7u32)) | (1u32 << 6u32)) >> 7u32 & 1u32 == 1u32
        && ((p | (1u32 << 7u32)) | (1u32 << 6u32)) >> 6u32 & 1u32 == 1u32) by (bit_vector);
}

/// Nested sections restore the status exactly: after `depth` acquires and the
/// matching releases in reverse order, the status (and so both interrupt-mask
/// bits) equals its value before the outermost acquire.
pub proof fn lemma_nested_restore(v: u32, depth: nat)
    ensures
        release_all(acquired_n(v, depth), tokens_n(v, depth)) == v,
        release_all(acquired_n(v, depth), tokens_n(v, depth)) & 0xc0u32 == v & 0xc0u32,
    decreases depth,
{
    if depth > 0 {
        let toks = tokens_n(v, depth);
        assert(toks.last() == acquired_n(v, (depth - 1) as nat));
        assert(toks.drop_last() =~= tokens_n(v, (depth - 1) as nat));
        lemma_nested_restore(v, (depth - 1) as nat);
    }
}

} // verus!
