//! The demonstration workload: threads that count, hash and yield.

use vstd::prelude::*;

verus! {

/// Iterations each demonstration thread runs.
pub const DEMO_ITERATIONS: u32 = 100;
/// A thread yields after printing a multiple of this.
pub const DEMO_YIELD_EVERY: u32 = 7;
/// The counter is kept below this.
pub const DEMO_MODULUS: u32 = 1000;

/// `x * y` modulo 2^32.
pub open spec fn mul_wrap(x: u32, y: u32) -> u32 {
    ((x as nat * y as nat) % 0x1_0000_0000) as u32
}

/// `x + y` modulo 2^32.
pub open spec fn add_wrap(x: u32, y: u32) -> u32 {
    ((x as nat + y as nat) % 0x1_0000_0000) as u32
}

/// The 32-bit finalizer of MurmurHash3.
pub open spec fn hash_spec(x: u32) -> u32 {
    let a = x ^ (x >> 16u32);
    let b = mul_wrap(a, 0x85eb_ca6b);
    let c = b ^ (b >> 13u32);
    let d = mul_wrap(c, 0xc2b2_ae35);
    d ^ (d >> 16u32)
}

/// Mixes the bits of `x`.
pub fn hash_u32(x: u32) -> (r: u32)
    ensures
        r == hash_spec(x),
{
    let mut x = x;
    x ^= x >> 16u32;
    x = x.wrapping_mul(0x85eb_ca6b);
    x ^= x >> 13u32;
    x = x.wrapping_mul(0xc2b2_ae35);
    x ^= x >> 16u32;
    x
}

/// What one iteration of a demonstration thread shows and does next.
#[derive(Clone, Copy, Debug, PartialEq, Eq, Structural)]
pub struct Iteration {
    /// The counter value printed in this iteration.
    pub value: u32,
    /// Its hash, printed beside it.
    pub hash: u32,
    /// The thread yields after printing.
    pub yields: bool,
    /// The thread's entrypoint returns after this iteration.
    pub finished: bool,
}

/// The state of one demonstration thread.
#[derive(Clone, Copy, Debug, PartialEq, Eq, Structural)]
pub struct DemoThread {
    pub id: u32,
    pub x: u32,
    pub k: u32,
}

impl DemoThread {
    pub open spec fn wf(&self) -> bool {
        self.x < DEMO_MODULUS && self.k <= DEMO_ITERATIONS
    }

    /// Whether the thread has run all its iterations.
    pub open spec fn done(&self) -> bool {
        self.k >= DEMO_ITERATIONS
    }

    /// A fresh thread numbered `id`.
    pub fn new(id: u32) -> (r: Self)
        ensures
            r.wf(),
            r == (DemoThread { id, x: 0, k: 0 }),
    {
        DemoThread { id, x: 0, k: 0 }
    }

    /// Runs one iteration: count, report the value and its hash, say whether
    /// to yield, then fold the hash back into the counter.
    pub fn iterate(&mut self) -> (r: Iteration)
        requires
            old(self).wf(),
            !old(self).done(),
        ensures
            final(self).wf(),
            final(self).id == old(self).id,
            final(self).k == old(self).k + 1,
            r.value == old(self).x + 1,
            r.hash == hash_spec(r.value),
            r.yields == (r.value % DEMO_YIELD_EVERY == 0),
            final(self).x == add_wrap(r.value, r.hash) % DEMO_MODULUS,
            r.finished == final(self).done(),
    {
        self.k = self.k + 1;
        let value = self.x + 1;
        let hash = hash_u32(value);
        let yields = value % DEMO_YIELD_EVERY == 0;
        self.x = value.wrapping_add(hash) % DEMO_MODULUS;
        Iteration { value, hash, yields, finished: self.k >= DEMO_ITERATIONS }
    }
}

} // verus!
