//! Jitter: a bounded random non-negative duration added to a wait.
use vstd::prelude::*;
use rand::Rng;
use rand::rngs::ThreadRng;
use crate::span::{Span, NANOS_PER_MILLI};

verus! {

#[verifier::external_type_specification]
#[verifier::external_body]
pub struct ExThreadRng(rand::rngs::ThreadRng);

/// Relies on `rand::rng`: a handle to the generator of the current thread.
/// It panics only where the operating system cannot seed that generator,
/// which no argument decides.
#[verifier::external_body]
pub(crate) fn thread_rng() -> ThreadRng {
    rand::rng()
}

/// Relies on `rand::Rng::random_range` over an inclusive range of `u64`: a
/// value between the two bounds, both included. It panics only on an empty
/// range, which `requires` leaves out.
#[verifier::external_body]
pub(crate) fn random_between(rng: &mut ThreadRng, low: u64, high: u64) -> (r: u64)
    requires
        low <= high,
    ensures
        low <= r <= high,
{
    rng.random_range(low..=high)
}

/// A source of jitter. `generate` never exceeds the bound it is given, so a
/// zero bound yields zero. Tests replace the random source with a stub.
pub trait JitterGenerator {
    fn generate(&mut self, max_jitter: Span) -> (r: Span)
        ensures
            r@ <= max_jitter@,
    ;
}

/// Jitter drawn from a random generator, in whole milliseconds.
pub struct RandomJitterGenerator {
    rng: ThreadRng,
}

impl RandomJitterGenerator {
    pub fn new(rng: ThreadRng) -> (r: RandomJitterGenerator) {
        RandomJitterGenerator { rng }
    }
}

impl JitterGenerator for RandomJitterGenerator {
    /// Zero for a zero bound, without drawing; otherwise a whole number of
    /// milliseconds drawn uniformly from zero to the bound's whole
    /// milliseconds, both included.
    fn generate(&mut self, max_jitter: Span) -> (r: Span)
        ensures
            r@ <= max_jitter@,
            max_jitter@ == 0 ==> r@ == 0 && *final(self) == *old(self),
            r@ % NANOS_PER_MILLI as nat == 0,
    {
        if max_jitter.is_zero() {
            return Span::zero();
        }
        let millis = random_between(&mut self.rng, 0, max_jitter.as_millis());
        Span::from_millis(millis)
    }
}

} // verus!
