//! Failures of key generation, of building a generator, and their mapping to
//! boundary status codes.
use vstd::prelude::*;
use vstd::string::*;

verus! {

/// Why a key could not be generated.
#[derive(Debug, Clone, PartialEq)]
pub enum GeneratorError {
    /// The counter store could not be reached (timeout, refused or dropped
    /// connection).
    ConnectionError,
    /// The requested generator is not available.
    GeneratorNotFound,
    /// Any other failure, with its detail kept for diagnostics.
    UnknownError(String),
}

/// Why a generator could not be built from its configuration.
#[derive(Debug, Clone, Copy, PartialEq, Eq)]
pub enum ConstructionError {
    /// The digit width is zero or too wide for a key number to fit in a `u64`.
    UnsupportedWidth,
    /// The counter store address is not an address the store client accepts.
    InvalidCounterAddress,
    /// The modulus is larger than the largest number a key can hold.
    PrimeTooLarge,
    /// The modulus is below two, so it cannot be a prime.
    PrimeTooSmall,
}

/// Status codes of the request boundary.
#[derive(Debug, Clone, Copy, PartialEq, Eq)]
pub enum Code {
    Unavailable,
    NotFound,
    Internal,
}

/// A boundary-level failure: a status code and a diagnostic message.
#[derive(Debug, Clone)]
pub struct Status {
    pub code: Code,
    pub message: String,
}

impl Status {
    /// The status code.
    pub fn code(&self) -> (r: Code)
        ensures
            r == self.code,
    {
        self.code
    }

    /// The diagnostic message.
    pub fn message(&self) -> (r: &str)
        ensures
            r@ == self.message@,
    {
        self.message.as_str()
    }
}

/// Status code that a generator failure maps to.
pub open spec fn status_code_of(e: GeneratorError) -> Code {
    match e {
        GeneratorError::ConnectionError => Code::Unavailable,
        GeneratorError::GeneratorNotFound => Code::NotFound,
        GeneratorError::UnknownError(_) => Code::Internal,
    }
}

/// Diagnostic message that a generator failure maps to.
pub open spec fn status_message_of(e: GeneratorError) -> Seq<char> {
    match e {
        GeneratorError::ConnectionError => "Connection error"@,
        GeneratorError::GeneratorNotFound => "Generator not found"@,
        GeneratorError::UnknownError(detail) => "Generator error: "@ + detail@,
    }
}

impl GeneratorError {
    /// Maps the failure to its boundary status: a connection failure becomes
    /// unavailable, a missing generator not found, anything else an internal
    /// error whose message carries the detail.
    pub fn to_status(self) -> (r: Status)
        ensures
            r.code == status_code_of(self),
            r.message@ == status_message_of(self),
    {
        match self {
            GeneratorError::ConnectionError => Status {
                code: Code::Unavailable,
                message: String::from_str("Connection error"),
            },
            GeneratorError::GeneratorNotFound => Status {
                code: Code::NotFound,
                message: String::from_str("Generator not found"),
            },
            GeneratorError::UnknownError(detail) => Status {
                code: Code::Internal,
                message: String::from_str("Generator error: ").concat(detail.as_str()),
            },
        }
    }
}

impl From<GeneratorError> for Status {
    /// Same mapping as `GeneratorError::to_status`.
    fn from(err: GeneratorError) -> (r: Status)
        ensures
            r.code == status_code_of(err),
            r.message@ == status_message_of(err),
    {
        err.to_status()
    }
}

impl vstd::std_specs::convert::FromSpecImpl<GeneratorError> for Status {
    open spec fn obeys_from_spec() -> bool {
        false
    }

    open spec fn from_spec(v: GeneratorError) -> Status {
        arbitrary()
    }
}

} // verus!
