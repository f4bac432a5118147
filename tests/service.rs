use key_generation::config::{GeneratorConfig, PrimitiveConfig, RedisConfig};
use key_generation::counter::CounterFailure;
use key_generation::error::{Code, GeneratorError, Status};
use key_generation::generator::new_key_generation_layer;
use key_generation::service::CustomKeyGeneratorService;

fn get_generator() -> CustomKeyGeneratorService {
    let generator = new_key_generation_layer(&GeneratorConfig::Random, 8).unwrap();
    CustomKeyGeneratorService::new(generator)
}

fn redis_service() -> CustomKeyGeneratorService {
    let config = GeneratorConfig::Redis(RedisConfig { url: "redis://localhost:6379".to_string() });
    CustomKeyGeneratorService::new(new_key_generation_layer(&config, 8).unwrap())
}

#[test]
fn test_generator_error_conversion() {
    let connection_error = GeneratorError::ConnectionError;
    let status: Status = connection_error.into();
    assert_eq!(status.code(), Code::Unavailable);
    assert_eq!(status.message(), "Connection error");

    let not_found_error = GeneratorError::GeneratorNotFound;
    let status: Status = not_found_error.into();
    assert_eq!(status.code(), Code::NotFound);
    assert_eq!(status.message(), "Generator not found");

    let unknown_error = GeneratorError::UnknownError("Some error".to_string());
    let status: Status = unknown_error.into();
    assert_eq!(status.code(), Code::Internal);
    assert_eq!(status.message(), "Generator error: Some error");
}

#[test]
fn test_ping() {
    let service = get_generator();
    let response = service.ping();
    assert_eq!(response.response, "pong");
}

#[test]
fn ping_ignores_generator_configuration() {
    assert_eq!(redis_service().ping().response, "pong");
    let config = GeneratorConfig::PrimitiveRootRedis(
        RedisConfig { url: "redis://localhost:6379".to_string() },
        PrimitiveConfig { prime: 1000003, start: 0, primitive_root: 2 },
    );
    let service = CustomKeyGeneratorService::new(new_key_generation_layer(&config, 8).unwrap());
    assert_eq!(service.ping().response, "pong");
}

#[test]
fn test_generate_key_ok() {
    let response = CustomKeyGeneratorService::key_response(Ok("abcdef12".to_string())).unwrap();
    assert_eq!(response.key, "abcdef12");
}

#[test]
fn test_generate_key_err() {
    let response =
        CustomKeyGeneratorService::key_response(Err(GeneratorError::ConnectionError)).unwrap_err();
    assert_eq!(response.code(), Code::Unavailable);
}

#[test]
fn key_response_maps_each_failure() {
    let r = CustomKeyGeneratorService::key_response(Err(GeneratorError::GeneratorNotFound));
    assert_eq!(r.unwrap_err().code(), Code::NotFound);
    let r = CustomKeyGeneratorService::key_response(Err(GeneratorError::UnknownError("x".to_string())));
    let st = r.unwrap_err();
    assert_eq!(st.code(), Code::Internal);
    assert_eq!(st.message(), "Generator error: x");
}

#[test]
fn connection_drop_surfaces_as_unavailable_end_to_end() {
    let service = redis_service();
    for (t, r, d) in [(true, false, false), (false, true, false), (false, false, true)] {
        let failure = CounterFailure {
            timed_out: t,
            connection_refused: r,
            connection_dropped: d,
            detail: "io error".to_string(),
        };
        let st = service.generate_key(Some(Err(failure))).unwrap_err();
        assert_eq!(st.code(), Code::Unavailable);
        assert_eq!(st.message(), "Connection error");
    }
}

#[test]
fn other_counter_failure_is_internal() {
    let failure = CounterFailure {
        timed_out: false,
        connection_refused: false,
        connection_dropped: false,
        detail: "ERR value is not an integer".to_string(),
    };
    let st = redis_service().generate_key(Some(Err(failure))).unwrap_err();
    assert_eq!(st.code(), Code::Internal);
    assert_eq!(st.message(), "Generator error: ERR value is not an integer");
}

#[test]
fn service_generates_keys() {
    assert_eq!(redis_service().generate_key(Some(Ok(62))).unwrap().key, "00000010");
    let key = get_generator().generate_key(None).unwrap().key;
    assert_eq!(key.len(), 8);
}

#[test]
fn generate_key_reaches_counter_encoded_key() {
    let response = redis_service().generate_key(Some(Ok(128915133555604))).unwrap();
    assert_eq!(response.key, "abcdef12");
}
