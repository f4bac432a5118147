//! Uniformly random key numbers over the whole key space.
use vstd::prelude::*;
use rand::Rng;
use crate::encoding::{max_number, max_number_spec, MAX_NUMBER_DIGITS};
use crate::error::GeneratorError;

verus! {

/// Relies on `rand::rng()` and `Rng::random_range` over `0..=max`: a value
/// drawn uniformly from `[0, max]`. The range is never empty, so the call does
/// not panic.
#[verifier::external_body]
fn random_up_to(max: u64) -> (r: u64)
    ensures
        r <= max,
{
    rand::rng().random_range(0..=max)
}

/// Generates uniformly random key numbers.
#[derive(Debug, Clone, Copy)]
pub struct RandomGenerator {
    digits: usize,
}

impl RandomGenerator {
    #[verifier::type_invariant]
    spec fn inv(self) -> bool {
        1 <= self.digits <= MAX_NUMBER_DIGITS
    }

    /// Number of key symbols the generator draws for.
    pub closed spec fn digits(self) -> nat {
        self.digits as nat
    }

    /// Creates a generator for keys of `digits` symbols.
    pub fn new(digits: usize) -> (r: Self)
        requires
            1 <= digits <= MAX_NUMBER_DIGITS,
        ensures
            r.digits() == digits,
    {
        RandomGenerator { digits }
    }

    /// Draws a key number uniformly from `[0, max_number(digits)]`. Never
    /// fails.
    pub fn generate_key(&self) -> (r: Result<u64, GeneratorError>)
        ensures
            r matches Ok(n) && n <= max_number_spec(self.digits()),
    {
        proof {
            use_type_invariant(self);
        }
        Ok(random_up_to(max_number(self.digits)))
    }
}

} // verus!
