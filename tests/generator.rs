use key_generation::config::{GeneratorConfig, PrimitiveConfig, RedisConfig};
use key_generation::counter::{CounterFailure, RedisGenerator};
use key_generation::encoding::{convert_to_string, max_number};
use key_generation::error::{ConstructionError, GeneratorError};
use key_generation::generator::{encode_key, new_key_generation_layer};
use key_generation::modular::PrimitiveRootRedisGenerator;
use key_generation::random::RandomGenerator;

fn local() -> RedisConfig {
    RedisConfig { url: "redis://localhost:6379".to_string() }
}

fn primitive(prime: u128, start: u128, root: u128) -> PrimitiveConfig {
    PrimitiveConfig { prime, start, primitive_root: root }
}

fn dropped() -> CounterFailure {
    CounterFailure {
        timed_out: false,
        connection_refused: false,
        connection_dropped: true,
        detail: "broken pipe".to_string(),
    }
}

fn other_failure() -> CounterFailure {
    CounterFailure {
        timed_out: false,
        connection_refused: false,
        connection_dropped: false,
        detail: "WRONGTYPE".to_string(),
    }
}

#[test]
fn random_numbers_stay_in_range() {
    for digits in [1usize, 2, 8] {
        let g = RandomGenerator::new(digits);
        let max = max_number(digits);
        for _ in 0..2000 {
            let n = g.generate_key().unwrap();
            assert!(n <= max);
        }
    }
}

#[test]
fn random_one_digit_covers_alphabet() {
    let g = RandomGenerator::new(1);
    let mut seen = [false; 62];
    for _ in 0..20000 {
        seen[g.generate_key().unwrap() as usize] = true;
    }
    assert!(seen.iter().all(|s| *s));
}

#[test]
fn modular_hand_computed_cases() {
    let g = PrimitiveRootRedisGenerator::new(&local(), &primitive(7, 0, 3), 8).unwrap();
    assert_eq!(g.calculate_key(0), 1);
    assert_eq!(g.calculate_key(1), 3);
    assert_eq!(g.calculate_key(2), 2);
    assert_eq!(g.calculate_key(3), 6);
    assert_eq!(g.calculate_key(6), 1);
    assert_eq!(g.calculate_key(7), 1);
}

#[test]
fn modular_offset_and_permutation() {
    let g = PrimitiveRootRedisGenerator::new(&local(), &primitive(7, 2, 3), 8).unwrap();
    assert_eq!(g.calculate_key(0), 2);
    let mut outs: Vec<u64> = (6..12).map(|c| g.calculate_key(c)).collect();
    outs.sort();
    assert_eq!(outs, vec![1, 2, 3, 4, 5, 6]);
}

#[test]
fn modular_default_parameters() {
    let g = PrimitiveRootRedisGenerator::new(&local(), &primitive(1000003, 0, 2), 8).unwrap();
    assert_eq!(g.calculate_key(10), 1024);
    assert_eq!(g.calculate_key(20), (1u64 << 20) % 1000003);
    assert_eq!(g.calculate_key(1000003 + 10), 1024);
}

#[test]
fn modular_large_values_do_not_overflow() {
    let prime: u128 = 839299365868340171;
    let g = PrimitiveRootRedisGenerator::new(&local(), &primitive(prime, u128::MAX, u128::MAX), 10)
        .unwrap();
    let k = g.calculate_key(u64::MAX);
    assert!((k as u128) < prime);
}

#[test]
fn modular_generate_key_follows_counter() {
    let g = PrimitiveRootRedisGenerator::new(&local(), &primitive(7, 0, 3), 8).unwrap();
    assert_eq!(g.generate_key(Ok(2)), Ok(2));
    assert_eq!(g.generate_key(Err(dropped())), Err(GeneratorError::ConnectionError));
}

#[test]
fn modular_prime_above_key_space_is_rejected() {
    let r = PrimitiveRootRedisGenerator::new(&local(), &primitive(67, 0, 2), 1);
    assert_eq!(r.unwrap_err(), ConstructionError::PrimeTooLarge);
    let max = max_number(8) as u128;
    assert!(PrimitiveRootRedisGenerator::new(&local(), &primitive(max, 0, 2), 8).is_ok());
    let r = PrimitiveRootRedisGenerator::new(&local(), &primitive(max + 1, 0, 2), 8);
    assert_eq!(r.unwrap_err(), ConstructionError::PrimeTooLarge);
}

#[test]
fn modular_prime_below_two_is_rejected() {
    let r = PrimitiveRootRedisGenerator::new(&local(), &primitive(1, 0, 2), 8);
    assert_eq!(r.unwrap_err(), ConstructionError::PrimeTooSmall);
    let r = PrimitiveRootRedisGenerator::new(&local(), &primitive(0, 0, 2), 8);
    assert_eq!(r.unwrap_err(), ConstructionError::PrimeTooSmall);
}

#[test]
fn invalid_counter_address_is_rejected() {
    let bad = RedisConfig { url: "not a url".to_string() };
    assert_eq!(RedisGenerator::new(&bad).unwrap_err(), ConstructionError::InvalidCounterAddress);
    let http = RedisConfig { url: "http://localhost:6379".to_string() };
    assert_eq!(RedisGenerator::new(&http).unwrap_err(), ConstructionError::InvalidCounterAddress);
    let r = PrimitiveRootRedisGenerator::new(&bad, &primitive(7, 0, 3), 8);
    assert_eq!(r.unwrap_err(), ConstructionError::InvalidCounterAddress);
    assert!(RedisGenerator::new(&local()).is_ok());
}

#[test]
fn counter_failures_are_classified() {
    let g = RedisGenerator::new(&local()).unwrap();
    assert_eq!(g.generate_key(Ok(41)), Ok(41));
    assert_eq!(g.generate_key(Err(dropped())), Err(GeneratorError::ConnectionError));
    let timeout = CounterFailure { timed_out: true, ..other_failure() };
    assert_eq!(g.generate_key(Err(timeout)), Err(GeneratorError::ConnectionError));
    let refused = CounterFailure { connection_refused: true, ..other_failure() };
    assert_eq!(g.generate_key(Err(refused)), Err(GeneratorError::ConnectionError));
    assert_eq!(
        g.generate_key(Err(other_failure())),
        Err(GeneratorError::UnknownError("WRONGTYPE".to_string()))
    );
}

#[test]
fn facade_random_keys() {
    let g = new_key_generation_layer(&GeneratorConfig::Random, 8).unwrap();
    assert!(!g.uses_counter());
    assert!(g.counter_client().is_none());
    for _ in 0..200 {
        let key = g.generate_key(None).unwrap();
        assert_eq!(key.chars().count(), 8);
        assert!(key.chars().all(|c| c.is_ascii_alphanumeric()));
    }
}

#[test]
fn facade_counter_keys() {
    let g = new_key_generation_layer(&GeneratorConfig::Redis(local()), 8).unwrap();
    assert!(g.uses_counter());
    assert!(g.counter_client().is_some());
    assert_eq!(g.generate_key(Some(Ok(12345678))).unwrap(), "0000pnfq");
    assert_eq!(g.generate_key(Some(Err(dropped()))), Err(GeneratorError::ConnectionError));
}

#[test]
fn facade_modular_keys() {
    let config = GeneratorConfig::PrimitiveRootRedis(local(), primitive(7, 0, 3));
    let g = new_key_generation_layer(&config, 8).unwrap();
    assert!(g.uses_counter());
    assert_eq!(g.generate_key(Some(Ok(1))).unwrap(), "00000003");
    assert_eq!(g.generate_key(Some(Ok(3))).unwrap(), "00000006");
    assert_eq!(
        g.generate_key(Some(Err(other_failure()))),
        Err(GeneratorError::UnknownError("WRONGTYPE".to_string()))
    );
}

#[test]
fn facade_construction_errors() {
    assert_eq!(
        new_key_generation_layer(&GeneratorConfig::Random, 0).unwrap_err(),
        ConstructionError::UnsupportedWidth
    );
    assert_eq!(
        new_key_generation_layer(&GeneratorConfig::Random, 11).unwrap_err(),
        ConstructionError::UnsupportedWidth
    );
    let config = GeneratorConfig::PrimitiveRootRedis(local(), primitive(3845, 0, 2));
    assert_eq!(
        new_key_generation_layer(&config, 2).unwrap_err(),
        ConstructionError::PrimeTooLarge
    );
    let bad = GeneratorConfig::Redis(RedisConfig { url: "::".to_string() });
    assert_eq!(
        new_key_generation_layer(&bad, 8).unwrap_err(),
        ConstructionError::InvalidCounterAddress
    );
}

#[test]
fn encode_key_passes_failures() {
    assert_eq!(encode_key(Ok(61), 8).unwrap(), convert_to_string(61, 8));
    assert_eq!(encode_key(Err(GeneratorError::GeneratorNotFound), 8), Err(GeneratorError::GeneratorNotFound));
}

#[test]
fn generators_keep_their_counter_address() {
    let g = RedisGenerator::new(&local()).unwrap();
    assert_eq!(g.url(), "redis://localhost:6379");
    let store = RedisConfig { url: "redis://store:6380/2".to_string() };
    let g = PrimitiveRootRedisGenerator::new(&store, &primitive(7, 0, 3), 8).unwrap();
    assert_eq!(g.redis_generator().url(), "redis://store:6380/2");
}

#[test]
fn modular_prime_equal_to_key_space_is_accepted() {
    let prime = 218340105584895u128;
    assert_eq!(max_number(8) as u128, prime);
    let g = PrimitiveRootRedisGenerator::new(&local(), &primitive(prime, 0, 2), 8).unwrap();
    assert_eq!(g.calculate_key(10), 1024);
    let config = GeneratorConfig::PrimitiveRootRedis(local(), primitive(prime, 0, 2));
    assert!(new_key_generation_layer(&config, 8).is_ok());
}

#[test]
fn oversized_prime_rejected_at_any_width() {
    for digits in [0usize, 1, 8, 10, 11, 40] {
        let config = GeneratorConfig::PrimitiveRootRedis(local(), primitive(u128::MAX, 0, 2));
        assert!(new_key_generation_layer(&config, digits).is_err());
    }
}

#[test]
fn modular_constructor_rejects_oversized_prime_at_any_width() {
    for digits in [0usize, 1, 8, 10, 11, 40] {
        let r = PrimitiveRootRedisGenerator::new(&local(), &primitive(u128::MAX, 0, 2), digits);
        assert!(r.is_err());
    }
    let r = PrimitiveRootRedisGenerator::new(&local(), &primitive(7, 0, 3), 11);
    assert_eq!(r.unwrap_err(), ConstructionError::UnsupportedWidth);
}
