//! Bounded random draws: each draw falls between 1 and 100 inclusive,
//! and nothing more can be said of any single outcome.

use rand::Rng;
use vstd::prelude::*;

verus! {

/// The thread-local random number generator of the rand crate, opaque
/// to the verifier: draws are made through it.
#[verifier::external_type_specification]
#[verifier::external_body]
pub struct ExThreadRng(rand::rngs::ThreadRng);

/// Relies on rand::thread_rng: a handle to the thread-local generator.
/// Nothing is stated of it; what a draw yields is bounded separately.
#[verifier::external_body]
fn make_rng() -> rand::rngs::ThreadRng {
    rand::thread_rng()
}

/// Relies on rand::Rng::gen_range on the non-empty range 1..101: the
/// call does not panic and the value drawn lies inside that range.
/// The outcome is random, so only the bound holds of every draw.
#[verifier::external_body]
fn draw_below_101(rng: &mut rand::rngs::ThreadRng) -> (r: i32)
    ensures
        1 <= r < 101,
{
    rng.gen_range(1..101)
}

/// Draw `n` random values, each between 1 and 100 inclusive. Which
/// values come out is up to the generator; their number and bounds are
/// not.
pub fn random_draws(n: usize) -> (r: Vec<i32>)
    ensures
        r@.len() == n,
        forall|i: int| 0 <= i < r@.len() ==> 1 <= #[trigger] r@[i] && r@[i] < 101,
{
    let mut rng = make_rng();
    let mut out: Vec<i32> = Vec::new();
    for k in 0..n
        invariant
            out@.len() == k,
            forall|i: int| 0 <= i < out@.len() ==> 1 <= #[trigger] out@[i] && out@[i] < 101,
    {
        let v = draw_below_101(&mut rng);
        out.push(v);
    }
    out
}

} // verus!
