//! Startup configuration of the service and of its key generator.
use vstd::prelude::*;
use vstd::string::*;
use crate::encoding::DEFAULT_NUMBER_DIGITS;
use crate::parse::{parse_u128, parse_u16, parse_usize, parsed_unsigned};

verus! {

/// Main configuration of the service.
#[derive(Debug, Clone, PartialEq, Eq, Hash)]
pub struct GenerationKeyServiceConfig {
    /// Port on which the boundary listens.
    pub listen_port: u16,
    /// The key generator to bind.
    pub generator_config: GeneratorConfig,
    /// Number of base-62 symbols in every key.
    pub number_digits: usize,
}

/// The key generators that can be selected.
#[derive(Debug, Clone, PartialEq, Eq, Hash)]
pub enum GeneratorConfig {
    /// Uniformly random keys.
    Random,
    /// Keys taken from a shared counter.
    Redis(RedisConfig),
    /// Keys from a modular exponentiation of a shared counter.
    PrimitiveRootRedis(RedisConfig, PrimitiveConfig),
}

/// Where the counter store is reached.
#[derive(Debug, Clone, PartialEq, Eq, Hash)]
pub struct RedisConfig {
    /// Address of the counter store.
    pub url: String,
}

/// Parameters of the modular-exponentiation generator.
#[derive(Debug, Clone, Copy, PartialEq, Eq, Hash)]
pub struct PrimitiveConfig {
    /// The prime modulus.
    pub prime: u128,
    /// Offset added to each counter value.
    pub start: u128,
    /// The primitive root used as base of the exponentiation.
    pub primitive_root: u128,
}

/// Where logs are shipped.
#[derive(Debug, Clone, PartialEq, Eq, Hash)]
pub struct LokiConfig {
    /// Address of the log collector.
    pub url: String,
}

/// Where traces are shipped.
#[derive(Debug, Clone, PartialEq, Eq, Hash)]
pub struct OTLPTraceConfig {
    /// Endpoint of the trace collector.
    pub endpoint: String,
}


/// Port the boundary listens on when none is configured.
pub const DEFAULT_LISTEN_PORT: u16 = 8080;

/// Modulus of the modular-exponentiation generator when none is configured.
pub const DEFAULT_PRIME: u128 = 1000003;

/// Counter offset when none is configured.
pub const DEFAULT_INCREMENT_START: u128 = 0;

/// Primitive root when none is configured.
pub const DEFAULT_PRIMITIVE_ROOT: u128 = 2;

/// Raw configuration values, as text; `None` where a value is not set.
#[derive(Debug, Clone)]
pub struct ConfigSource {
    pub listen_port: Option<String>,
    pub generator_type: Option<String>,
    pub redis_url: Option<String>,
    pub prime: Option<String>,
    pub increment_start: Option<String>,
    pub primitive_root: Option<String>,
    pub number_digits: Option<String>,
}

impl Default for ConfigSource {
    /// No value set: every setting takes its default.
    fn default() -> (r: Self)
        ensures
            r.listen_port is None,
            r.generator_type is None,
            r.redis_url is None,
            r.prime is None,
            r.increment_start is None,
            r.primitive_root is None,
            r.number_digits is None,
    {
        ConfigSource {
            listen_port: None,
            generator_type: None,
            redis_url: None,
            prime: None,
            increment_start: None,
            primitive_root: None,
            number_digits: None,
        }
    }
}

/// Why the configuration values could not be read.
#[derive(Debug, Clone, PartialEq)]
pub enum ConfigError {
    /// The listen port is not a number in `[0, 65535]`.
    InvalidPort,
    /// The prime is not an unsigned 128-bit number.
    InvalidPrime,
    /// The increment start is not an unsigned 128-bit number.
    InvalidIncrementStart,
    /// The primitive root is not an unsigned 128-bit number.
    InvalidPrimitiveRoot,
    /// The generator type names none of the generators.
    UnsupportedGeneratorType(String),
}

/// The number a setting holds: its default when unset, the number it writes
/// when that is at most `max`, otherwise none.
pub open spec fn setting(raw: Option<String>, default: nat, max: nat) -> Option<nat> {
    match raw {
        None => Some(default),
        Some(s) => parsed_unsigned(s@, max),
    }
}

/// The primitive-root parameters the values give, or the first one that is
/// invalid, in the order prime, start, root.
pub open spec fn primitive_config_of(src: ConfigSource) -> Result<PrimitiveConfig, ConfigError> {
    let max = u128::MAX as nat;
    match (
        setting(src.prime, DEFAULT_PRIME as nat, max),
        setting(src.increment_start, DEFAULT_INCREMENT_START as nat, max),
        setting(src.primitive_root, DEFAULT_PRIMITIVE_ROOT as nat, max),
    ) {
        (None, _, _) => Err(ConfigError::InvalidPrime),
        (Some(_), None, _) => Err(ConfigError::InvalidIncrementStart),
        (Some(_), Some(_), None) => Err(ConfigError::InvalidPrimitiveRoot),
        (Some(p), Some(s), Some(g)) => Ok(
            PrimitiveConfig { prime: p as u128, start: s as u128, primitive_root: g as u128 },
        ),
    }
}

/// The counter store address the values give.
pub open spec fn redis_url_of(src: ConfigSource) -> Seq<char> {
    match src.redis_url {
        Some(u) => u@,
        None => "redis://localhost:6379"@,
    }
}

/// The generator type the values name.
pub open spec fn generator_kind_of(src: ConfigSource) -> Seq<char> {
    match src.generator_type {
        Some(k) => k@,
        None => "random"@,
    }
}

/// Whether `r` is what the values give for the generator configuration.
pub open spec fn generator_config_outcome(
    src: ConfigSource,
    r: Result<GeneratorConfig, ConfigError>,
) -> bool {
    let kind = generator_kind_of(src);
    if kind == "random"@ {
        r matches Ok(GeneratorConfig::Random)
    } else if kind == "redis"@ {
        r matches Ok(GeneratorConfig::Redis(rc)) && rc.url@ == redis_url_of(src)
    } else if kind == "primitive_root_redis"@ {
        match primitive_config_of(src) {
            Ok(pc) => r matches Ok(GeneratorConfig::PrimitiveRootRedis(rc, p)) && rc.url@
                == redis_url_of(src) && p == pc,
            Err(e) => r == Err::<GeneratorConfig, ConfigError>(e),
        }
    } else {
        r matches Err(ConfigError::UnsupportedGeneratorType(k)) && k@ == kind
    }
}

/// Number of key symbols the values give: the default when unset or not a
/// number.
pub open spec fn number_digits_of(src: ConfigSource) -> nat {
    match setting(src.number_digits, DEFAULT_NUMBER_DIGITS as nat, usize::MAX as nat) {
        Some(d) => d,
        None => DEFAULT_NUMBER_DIGITS as nat,
    }
}

fn setting_u128(raw: &Option<String>, default: u128) -> (r: Option<u128>)
    ensures
        setting(*raw, default as nat, u128::MAX as nat) matches Some(v) ==> r == Some(v as u128),
        setting(*raw, default as nat, u128::MAX as nat) is None ==> r is None,
{
    match raw {
        Some(s) => parse_u128(s.as_str()),
        None => Some(default),
    }
}

/// Number of key symbols the values give; the default when unset or not a
/// number.
pub fn number_digits(src: &ConfigSource) -> (r: usize)
    ensures
        r == number_digits_of(*src),
{
    let parsed = match &src.number_digits {
        Some(s) => parse_usize(s.as_str()),
        None => Some(DEFAULT_NUMBER_DIGITS),
    };
    match parsed {
        Some(d) => d,
        None => DEFAULT_NUMBER_DIGITS,
    }
}

impl PrimitiveConfig {
    /// Reads the prime, the increment start and the primitive root, each
    /// defaulting when unset; fails on the first that is not a number.
    pub fn from_source(src: &ConfigSource) -> (r: Result<Self, ConfigError>)
        ensures
            r == primitive_config_of(*src),
    {
        let prime = match setting_u128(&src.prime, DEFAULT_PRIME) {
            Some(v) => v,
            None => {
                return Err(ConfigError::InvalidPrime);
            },
        };
        let start = match setting_u128(&src.increment_start, DEFAULT_INCREMENT_START) {
            Some(v) => v,
            None => {
                return Err(ConfigError::InvalidIncrementStart);
            },
        };
        let primitive_root = match setting_u128(&src.primitive_root, DEFAULT_PRIMITIVE_ROOT) {
            Some(v) => v,
            None => {
                return Err(ConfigError::InvalidPrimitiveRoot);
            },
        };
        Ok(PrimitiveConfig { prime, start, primitive_root })
    }
}

impl RedisConfig {
    /// Reads the counter store address, defaulting to a local store.
    pub fn from_source(src: &ConfigSource) -> (r: Self)
        ensures
            r.url@ == redis_url_of(*src),
    {
        match &src.redis_url {
            Some(u) => RedisConfig { url: u.clone() },
            None => RedisConfig { url: String::from_str("redis://localhost:6379") },
        }
    }
}

impl GeneratorConfig {
    /// Reads the generator type (`random` when unset) and the settings that
    /// type needs; fails on an unknown type or an invalid setting.
    pub fn from_source(src: &ConfigSource) -> (r: Result<Self, ConfigError>)
        ensures
            generator_config_outcome(*src, r),
    {
        proof {
            reveal_strlit("random");
            reveal_strlit("redis");
            reveal_strlit("primitive_root_redis");
        }
        let kind = match &src.generator_type {
            Some(k) => k.clone(),
            None => String::from_str("random"),
        };
        if kind == String::from_str("random") {
            Ok(GeneratorConfig::Random)
        } else if kind == String::from_str("redis") {
            Ok(GeneratorConfig::Redis(RedisConfig::from_source(src)))
        } else if kind == String::from_str("primitive_root_redis") {
            let redis_config = RedisConfig::from_source(src);
            match PrimitiveConfig::from_source(src) {
                Ok(pc) => Ok(GeneratorConfig::PrimitiveRootRedis(redis_config, pc)),
                Err(e) => Err(e),
            }
        } else {
            Err(ConfigError::UnsupportedGeneratorType(kind))
        }
    }
}

impl GenerationKeyServiceConfig {
    /// Reads the listen port (8080 when unset), the generator configuration and
    /// the key width; fails on an invalid port first, then as the generator
    /// configuration does.
    pub fn from_source(src: &ConfigSource) -> (r: Result<Self, ConfigError>)
        ensures
            setting(src.listen_port, DEFAULT_LISTEN_PORT as nat, u16::MAX as nat) is None ==> r
                == Err::<Self, ConfigError>(ConfigError::InvalidPort),
            setting(src.listen_port, DEFAULT_LISTEN_PORT as nat, u16::MAX as nat) matches Some(p)
                ==> (r matches Ok(c) && c.listen_port == p && c.number_digits == number_digits_of(
                *src,
            ) && generator_config_outcome(*src, Ok(c.generator_config))) || (r matches Err(e)
                && generator_config_outcome(*src, Err(e))),
    {
        let listen_port = match &src.listen_port {
            Some(s) => match parse_u16(s.as_str()) {
                Some(p) => p,
                None => {
                    return Err(ConfigError::InvalidPort);
                },
            },
            None => DEFAULT_LISTEN_PORT,
        };
        match GeneratorConfig::from_source(src) {
            Ok(generator_config) => Ok(
                GenerationKeyServiceConfig {
                    listen_port,
                    generator_config,
                    number_digits: number_digits(src),
                },
            ),
            Err(e) => Err(e),
        }
    }
}

} // verus!
