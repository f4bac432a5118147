//! The generator facade: one strategy, chosen once at construction, whose key
//! numbers are encoded into fixed-width keys.
use vstd::prelude::*;
use crate::config::GeneratorConfig;
use crate::counter::{counter_error, has_redis_scheme, redis_tcp_url_ok, CounterFailure, RedisGenerator};
use crate::encoding::{
    convert_to_string, encode, lemma_encode_len, max_number_spec, MAX_NUMBER_DIGITS,
};
use crate::error::{ConstructionError, GeneratorError};
use crate::modular::{modular_key, PrimitiveRootRedisGenerator};
use crate::random::RandomGenerator;

verus! {

/// The strategy bound to a generator.
#[derive(Debug)]
pub enum Strategy {
    Random(RandomGenerator),
    Redis(RedisGenerator),
    PrimitiveRootRedis(PrimitiveRootRedisGenerator),
}

/// Produces keys of a fixed number of base-62 symbols from one strategy.
#[derive(Debug)]
pub struct Generator {
    strategy: Strategy,
    digits: usize,
}

/// The counter store address a configuration names, if it reads a counter.
pub open spec fn counter_address_of(config: GeneratorConfig) -> Option<Seq<char>> {
    match config {
        GeneratorConfig::Random => None,
        GeneratorConfig::Redis(rc) => Some(rc.url@),
        GeneratorConfig::PrimitiveRootRedis(rc, _) => Some(rc.url@),
    }
}

/// The construction error that `config` and `digits` alone decide, if any: an
/// unsupported width first, then a prime above the key space, then a prime
/// below two. Whether the counter store address is accepted is decided by the
/// store client.
pub open spec fn construction_error(config: GeneratorConfig, digits: nat) -> Option<
    ConstructionError,
> {
    if !(1 <= digits <= MAX_NUMBER_DIGITS) {
        Some(ConstructionError::UnsupportedWidth)
    } else {
        match config {
            GeneratorConfig::PrimitiveRootRedis(_, pc) => if pc.prime > max_number_spec(digits) {
                Some(ConstructionError::PrimeTooLarge)
            } else if pc.prime < 2 {
                Some(ConstructionError::PrimeTooSmall)
            } else {
                None
            },
            _ => None,
        }
    }
}

/// Encodes a strategy's key number into a key of `digits` symbols; a failure
/// passes through unchanged.
pub fn encode_key(number: Result<u64, GeneratorError>, digits: usize) -> (r: Result<
    String,
    GeneratorError,
>)
    ensures
        number matches Ok(n) ==> (r matches Ok(s) && s@ == encode(n as nat, digits as nat)),
        number matches Err(e) ==> r == Err::<String, GeneratorError>(e),
{
    match number {
        Ok(n) => Ok(convert_to_string(n, digits)),
        Err(e) => Err(e),
    }
}

impl Generator {
    #[verifier::type_invariant]
    spec fn inv(self) -> bool {
        &&& 1 <= self.digits <= MAX_NUMBER_DIGITS
        &&& match self.strategy {
            Strategy::Random(g) => g.digits() == self.digits,
            Strategy::Redis(_) => true,
            Strategy::PrimitiveRootRedis(g) => g.digits() == self.digits,
        }
    }

    /// The bound strategy.
    pub closed spec fn strategy(self) -> Strategy {
        self.strategy
    }

    /// Number of symbols in every key.
    pub closed spec fn digits(self) -> nat {
        self.digits as nat
    }

    /// Whether the bound strategy reads the shared counter.
    pub open spec fn counter_based(self) -> bool {
        !(self.strategy() is Random)
    }

    /// Whether the generator was built from `config`.
    pub open spec fn selects(self, config: GeneratorConfig) -> bool {
        match (config, self.strategy()) {
            (GeneratorConfig::Random, Strategy::Random(_)) => true,
            (GeneratorConfig::Redis(rc), Strategy::Redis(g)) => g.address() == rc.url@,
            (GeneratorConfig::PrimitiveRootRedis(rc, pc), Strategy::PrimitiveRootRedis(g)) => g.config()
                == pc && g.address() == rc.url@,
            _ => false,
        }
    }

    /// The key number a counter-based strategy derives from counter value `c`.
    pub open spec fn key_number(self, c: nat) -> nat {
        match self.strategy() {
            Strategy::PrimitiveRootRedis(g) => modular_key(g.config(), c),
            _ => c,
        }
    }

    /// Whether a key needs one increment of the shared counter first.
    pub fn uses_counter(&self) -> (r: bool)
        ensures
            r == self.counter_based(),
    {
        match &self.strategy {
            Strategy::Random(_) => false,
            _ => true,
        }
    }

    /// The counter store client of a counter-based strategy.
    pub fn counter_client(&self) -> (r: Option<&redis::Client>)
        ensures
            r is Some <==> self.counter_based(),
    {
        match &self.strategy {
            Strategy::Random(_) => None,
            Strategy::Redis(g) => Some(g.client()),
            Strategy::PrimitiveRootRedis(g) => Some(g.redis_generator().client()),
        }
    }

    /// Generates a key of `digits` symbols. A counter-based strategy takes the
    /// outcome of one increment of the shared counter, `counter`; the random
    /// strategy takes none. The key encodes the strategy's key number; a
    /// counter failure surfaces unchanged.
    pub fn generate_key(&self, counter: Option<Result<u64, CounterFailure>>) -> (r: Result<
        String,
        GeneratorError,
    >)
        requires
            counter is Some <==> self.counter_based(),
        ensures
            r matches Ok(s) ==> s@.len() == self.digits(),
            !self.counter_based() ==> (r matches Ok(s) && exists|n: nat|
                n <= max_number_spec(self.digits()) && s@ == encode(n, self.digits())),
            counter matches Some(Ok(c)) ==> (r matches Ok(s) && s@ == encode(
                self.key_number(c as nat),
                self.digits(),
            )),
            counter matches Some(Err(f)) ==> r == Err::<String, GeneratorError>(counter_error(f)),
    {
        proof {
            use_type_invariant(self);
        }
        let number = match &self.strategy {
            Strategy::Random(g) => g.generate_key(),
            Strategy::Redis(g) => match counter {
                Some(c) => g.generate_key(c),
                None => Err(GeneratorError::GeneratorNotFound),
            },
            Strategy::PrimitiveRootRedis(g) => match counter {
                Some(c) => g.generate_key(c),
                None => Err(GeneratorError::GeneratorNotFound),
            },
        };
        proof {
            if let Ok(n) = number {
                lemma_encode_len(n as nat, self.digits as nat);
            }
        }
        encode_key(number, self.digits)
    }
}

/// Builds the generator that `config` selects, for keys of `digits` symbols.
/// Fails as `construction_error` says; past those checks a counter-based
/// generator fails only when the store client does not accept its address.
pub fn new_key_generation_layer(config: &GeneratorConfig, digits: usize) -> (r: Result<
    Generator,
    ConstructionError,
>)
    ensures
        construction_error(*config, digits as nat) matches Some(e) ==> r == Err::<
            Generator,
            ConstructionError,
        >(e),
        construction_error(*config, digits as nat) is None ==> (r matches Ok(g) && g.selects(*config)
            && g.digits() == digits) || (!(config is Random) && r == Err::<
            Generator,
            ConstructionError,
        >(ConstructionError::InvalidCounterAddress)),
        counter_address_of(*config) matches Some(url) ==> (construction_error(*config, digits as nat)
            is None && has_redis_scheme(url) ==> (r is Ok <==> redis_tcp_url_ok(url))),
        config matches GeneratorConfig::PrimitiveRootRedis(_, pc) && pc.prime > max_number_spec(
            digits as nat,
        ) ==> r is Err,
{
    if digits < 1 || digits > MAX_NUMBER_DIGITS {
        return Err(ConstructionError::UnsupportedWidth);
    }
    let strategy = match config {
        GeneratorConfig::Random => Strategy::Random(RandomGenerator::new(digits)),
        GeneratorConfig::Redis(redis_config) => match RedisGenerator::new(redis_config) {
            Ok(g) => Strategy::Redis(g),
            Err(e) => {
                return Err(e);
            },
        },
        GeneratorConfig::PrimitiveRootRedis(redis_config, primitive_config) => {
            match PrimitiveRootRedisGenerator::new(redis_config, primitive_config, digits) {
                Ok(g) => Strategy::PrimitiveRootRedis(g),
                Err(e) => {
                    return Err(e);
                },
            }
        },
    };
    Ok(Generator { strategy, digits })
}

} // verus!
