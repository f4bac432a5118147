//! The request boundary: a liveness probe and key generation, with generator
//! failures mapped to boundary status codes.
use vstd::prelude::*;
use vstd::string::*;
use crate::counter::{counter_error, is_connection_failure, CounterFailure};
use crate::encoding::{encode, max_number_spec};
use crate::error::{status_code_of, status_message_of, Code, GeneratorError, Status};
use crate::generator::Generator;

verus! {

/// Reply to a liveness probe.
#[derive(Debug, Clone, PartialEq)]
pub struct PingResponse {
    pub response: String,
}

/// Reply carrying a generated key.
#[derive(Debug, Clone, PartialEq)]
pub struct GenerateKeyResponse {
    pub key: String,
}

/// The boundary reply for a generator result: the key, or the failure's
/// status code with its diagnostic message.
pub open spec fn key_response_ok(
    result: Result<String, GeneratorError>,
    r: Result<GenerateKeyResponse, Status>,
) -> bool {
    match result {
        Ok(key) => r matches Ok(resp) && resp.key@ == key@,
        Err(e) => r matches Err(st) && st.code == status_code_of(e) && st.message@
            == status_message_of(e),
    }
}

/// A failure to reach the counter store surfaces as a connection failure,
/// never as an unknown one, and the boundary reports it as unavailable.
pub proof fn lemma_connection_failure_surfaces(f: CounterFailure)
    requires
        is_connection_failure(f),
    ensures
        counter_error(f) == GeneratorError::ConnectionError,
        !(counter_error(f) is UnknownError),
        status_code_of(counter_error(f)) == Code::Unavailable,
{
}

/// Serves key requests from one generator.
#[derive(Debug)]
pub struct CustomKeyGeneratorService {
    pub generator: Generator,
}

impl CustomKeyGeneratorService {
    /// Creates the service around `generator`.
    pub fn new(generator: Generator) -> (r: Self)
        ensures
            r.generator == generator,
    {
        CustomKeyGeneratorService { generator }
    }

    /// Answers a liveness probe with `"pong"`, whatever the generator.
    pub fn ping(&self) -> (r: PingResponse)
        ensures
            r.response@ == "pong"@,
    {
        PingResponse { response: String::from_str("pong") }
    }

    /// Turns a generator result into the boundary reply.
    pub fn key_response(result: Result<String, GeneratorError>) -> (r: Result<
        GenerateKeyResponse,
        Status,
    >)
        ensures
            key_response_ok(result, r),
    {
        match result {
            Ok(key) => Ok(GenerateKeyResponse { key }),
            Err(e) => Err(e.to_status()),
        }
    }

    /// Generates a key through the generator and maps the outcome to the
    /// boundary reply. A counter-based generator takes the outcome of one
    /// increment of the shared counter; the random one takes none.
    pub fn generate_key(&self, counter: Option<Result<u64, CounterFailure>>) -> (r: Result<
        GenerateKeyResponse,
        Status,
    >)
        requires
            counter is Some <==> self.generator.counter_based(),
        ensures
            counter is None ==> (r matches Ok(resp) && exists|n: nat|
                n <= max_number_spec(self.generator.digits()) && resp.key@ == encode(
                    n,
                    self.generator.digits(),
                )),
            counter matches Some(Ok(c)) ==> (r matches Ok(resp) && resp.key@ == encode(
                self.generator.key_number(c as nat),
                self.generator.digits(),
            )),
            counter matches Some(Err(f)) ==> (r matches Err(st) && st.code == status_code_of(
                counter_error(f),
            ) && st.message@ == status_message_of(counter_error(f))),
            counter matches Some(Err(f)) && is_connection_failure(f) ==> (r matches Err(st)
                && st.code == Code::Unavailable),
    {
        Self::key_response(self.generator.generate_key(counter))
    }
}

} // verus!
