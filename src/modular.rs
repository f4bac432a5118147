//! Keys from a modular exponentiation of the shared counter:
//! `key = root ^ ((counter + start) mod prime) mod prime`.
use vstd::prelude::*;
use vstd::arithmetic::power::{
    pow, lemma_pow_adds, lemma_pow_mod_noop, lemma_pow_multiplies, lemma_pow1,
    lemma_square_is_pow2, lemma_pow_positive,
};
use vstd::arithmetic::div_mod::{
    lemma_add_mod_noop, lemma_fundamental_div_mod, lemma_mod_bound, lemma_mul_mod_noop_left,
    lemma_mul_mod_noop_right, lemma_small_mod,
};
use crate::config::{PrimitiveConfig, RedisConfig};
use crate::counter::{counter_error, has_redis_scheme, redis_tcp_url_ok, CounterFailure, RedisGenerator};
use crate::encoding::{max_number, max_number_spec, lemma_max_number_bound, MAX_NUMBER_DIGITS};
use crate::error::{ConstructionError, GeneratorError};

verus! {

/// The exponent that a counter value selects: `(counter + start) mod prime`.
pub open spec fn exponent_of(config: PrimitiveConfig, counter: nat) -> nat
    recommends
        config.prime > 0,
{
    ((counter + config.start) % (config.prime as int)) as nat
}

/// The key number for a counter value: `root ^ exponent mod prime`.
pub open spec fn modular_key(config: PrimitiveConfig, counter: nat) -> nat
    recommends
        config.prime > 0,
{
    (pow(config.primitive_root as int, exponent_of(config, counter)) % (config.prime as int)) as nat
}

/// One square-and-multiply step keeps `acc * base^e mod p` unchanged.
proof fn lemma_square_multiply_step(acc: int, base: int, e: nat, p: int)
    requires
        p > 0,
    ensures
        ((if e % 2 == 1 { (acc * base) % p } else { acc }) * pow((base * base) % p, e / 2)) % p
            == (acc * pow(base, e)) % p,
{
    let k = e / 2;
    lemma_fundamental_div_mod(e as int, 2);
    lemma_square_is_pow2(base);
    lemma_pow_multiplies(base, 2, k);
    lemma_pow_mod_noop(base * base, k, p);
    let sq = pow((base * base) % p, k);
    let full = pow(base, 2 * k);
    assert(pow(base * base, k) == full);
    assert(sq % p == full % p);
    if e % 2 == 1 {
        lemma_pow_adds(base, 2 * k, 1);
        lemma_pow1(base);
        assert(pow(base, e) == full * base);
        lemma_mul_mod_noop_left(acc * base, sq, p);
        lemma_mul_mod_noop_right(acc * base, sq, p);
        lemma_mul_mod_noop_right(acc * base, full, p);
        assert((acc * base) * full == acc * (full * base)) by (nonlinear_arith);
    } else {
        assert(e == 2 * k);
        lemma_mul_mod_noop_right(acc, sq, p);
        lemma_mul_mod_noop_right(acc, full, p);
    }
}

/// The modular-exponentiation generator over a shared counter.
#[derive(Debug)]
pub struct PrimitiveRootRedisGenerator {
    redis_generator: RedisGenerator,
    primitive_config: PrimitiveConfig,
    digits: usize,
}

impl PrimitiveRootRedisGenerator {
    #[verifier::type_invariant]
    spec fn inv(self) -> bool {
        &&& self.digits <= MAX_NUMBER_DIGITS
        &&& 2 <= self.primitive_config.prime
        &&& self.primitive_config.prime <= max_number_spec(self.digits as nat)
    }

    /// The parameters the generator was built with.
    pub closed spec fn config(self) -> PrimitiveConfig {
        self.primitive_config
    }

    /// Number of key symbols the generator was built for.
    pub closed spec fn digits(self) -> nat {
        self.digits as nat
    }

    /// The counter store address the generator was built for.
    pub closed spec fn address(self) -> Seq<char> {
        self.redis_generator.address()
    }

    /// Creates the generator for the counter store at `config.url` with the
    /// parameters `primitive_config`, for keys of `digits` symbols. Fails when
    /// the width is above `MAX_NUMBER_DIGITS`, then when the prime exceeds
    /// the largest number a key can hold (at any width), then when it is
    /// below two, and only then when the store client does not accept the
    /// address. That the root is a primitive root of the prime, and that the
    /// prime is prime, is the caller's responsibility: neither is checked.
    pub fn new(config: &RedisConfig, primitive_config: &PrimitiveConfig, digits: usize) -> (r: Result<
        Self,
        ConstructionError,
    >)
        ensures
            digits > MAX_NUMBER_DIGITS ==> r == Err::<Self, ConstructionError>(
                ConstructionError::UnsupportedWidth,
            ),
            primitive_config.prime > max_number_spec(digits as nat) ==> r is Err,
            digits <= MAX_NUMBER_DIGITS && primitive_config.prime > max_number_spec(digits as nat) ==> r == Err::<
                Self,
                ConstructionError,
            >(ConstructionError::PrimeTooLarge),
            digits <= MAX_NUMBER_DIGITS && primitive_config.prime < 2 && primitive_config.prime
                <= max_number_spec(digits as nat) ==> r == Err::<Self, ConstructionError>(ConstructionError::PrimeTooSmall),
            digits <= MAX_NUMBER_DIGITS && 2 <= primitive_config.prime <= max_number_spec(
                digits as nat,
            ) ==> (r matches Ok(g)
                && g.config() == *primitive_config && g.digits() == digits) || r == Err::<
                Self,
                ConstructionError,
            >(ConstructionError::InvalidCounterAddress),
            digits <= MAX_NUMBER_DIGITS && 2 <= primitive_config.prime <= max_number_spec(
                digits as nat,
            ) && has_redis_scheme(
                config.url@,
            ) ==> (r is Ok <==> redis_tcp_url_ok(config.url@)),
            r matches Ok(g) ==> g.address() == config.url@,
    {
        if digits > MAX_NUMBER_DIGITS {
            return Err(ConstructionError::UnsupportedWidth);
        }
        if primitive_config.prime > max_number(digits) as u128 {
            return Err(ConstructionError::PrimeTooLarge);
        }
        if primitive_config.prime < 2 {
            return Err(ConstructionError::PrimeTooSmall);
        }
        let redis_generator = match RedisGenerator::new(config) {
            Ok(g) => g,
            Err(e) => {
                return Err(e);
            },
        };
        Ok(PrimitiveRootRedisGenerator { redis_generator, primitive_config: *primitive_config, digits })
    }

    /// The counter store generator underneath.
    pub fn redis_generator(&self) -> (r: &RedisGenerator)
        ensures
            r.address() == self.address(),
    {
        &self.redis_generator
    }

    /// The key number for the outcome of one increment: the modular key of
    /// the new counter value, or the counter failure surfaced unchanged.
    pub fn generate_key(&self, counter: Result<u64, CounterFailure>) -> (r: Result<u64, GeneratorError>)
        ensures
            counter matches Ok(c) ==> (r matches Ok(k) && k == modular_key(self.config(), c as nat)),
            counter matches Err(f) ==> r == Err::<u64, GeneratorError>(counter_error(f)),
    {
        match self.redis_generator.generate_key(counter) {
            Ok(c) => Ok(self.calculate_key(c)),
            Err(e) => Err(e),
        }
    }

    /// Calculates the key number for a counter value:
    /// `primitive_root ^ ((incr + start) mod prime) mod prime`, by binary
    /// square-and-multiply exponentiation.
    pub fn calculate_key(&self, incr: u64) -> (r: u64)
        ensures
            r == modular_key(self.config(), incr as nat),
            r < self.config().prime,
    {
        proof {
            use_type_invariant(self);
            lemma_max_number_bound(self.digits as nat);
        }
        let prime = self.primitive_config.prime;
        let mut result: u128 = 1;
        let mut base: u128 = self.primitive_config.primitive_root % prime;
        let mut exponent: u128 = ((incr as u128) % prime + self.primitive_config.start % prime) % prime;
        let ghost root = self.primitive_config.primitive_root as int;
        let ghost e0 = exponent_of(self.primitive_config, incr as nat);
        proof {
            lemma_add_mod_noop(incr as int, self.primitive_config.start as int, prime as int);
            lemma_pow_mod_noop(root, e0, prime as int);
            lemma_pow1(base as int);
            assert(pow(base as int, exponent as nat) == pow(root % (prime as int), e0));
        }
        while exponent > 0
            invariant
                2 <= prime < 839299365868340224,
                prime == self.primitive_config.prime,
                result < prime,
                base < prime,
                (result * pow(base as int, exponent as nat)) % (prime as int) == pow(root, e0) % (
                prime as int),
            decreases exponent,
        {
            proof {
                lemma_square_multiply_step(result as int, base as int, exponent as nat, prime as int);
                assert(result * base < prime * prime) by (nonlinear_arith)
                    requires
                        result < prime,
                        base < prime,
                ;
                assert(prime * prime < 839299365868340224 * 839299365868340224) by (nonlinear_arith)
                    requires
                        prime < 839299365868340224,
                ;
                assert(base * base < prime * prime) by (nonlinear_arith)
                    requires
                        base < prime,
                ;
            }
            if exponent % 2 == 1 {
                result = (result * base) % prime;
            }
            base = (base * base) % prime;
            exponent = exponent / 2;
        }
        proof {
            reveal(pow);
            lemma_small_mod(result as nat, prime as nat);
        }
        result as u64
    }
}

} // verus!
