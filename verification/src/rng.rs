//! The randomness source: uniform integer sampling from the `rand` crate,
//! used only for food placement. The generator itself and the draw are
//! trusted; everything built on a drawn value is verified for every value the
//! contract admits.
use vstd::prelude::*;

verus! {

#[verifier::external_type_specification]
#[verifier::external_body]
pub struct ExThreadRng(rand::rngs::ThreadRng);

/// Relies on rand::thread_rng: a handle to the lazily initialized
/// thread-local generator, seeded by the system. Nothing is assumed about
/// the values it will produce.
#[verifier::external_body]
pub(crate) fn thread_rng_handle() -> rand::rngs::ThreadRng {
    rand::thread_rng()
}

/// Relies on rand::Rng::gen_range on a half-open integer range: it panics on
/// an empty range, and on a non-empty one returns a value inside the range.
/// Which value comes back is left open: callers hold for every outcome.
#[verifier::external_body]
pub(crate) fn gen_range_i32(rng: &mut rand::rngs::ThreadRng, lo: i32, hi: i32) -> (r: i32)
    requires
        lo < hi,
    ensures
        lo <= r < hi,
{
    rand::Rng::gen_range(rng, lo..hi)
}

} // verus!
