//! Error types shared by every component: the core error enumeration,
//! numeric error codes, and the mapping from HTTP statuses to errors.

use vstd::prelude::*;

use crate::util::spec_dec_digits;
use crate::util::u64_to_dec_string;

verus! {

/// The core error type of the library.
#[derive(Debug)]
pub enum CoreError {
    /// A malformed or rejected request.
    Request(String),
    /// A response carrying an error status code.
    Response { code: u16, message: String },
    /// An operation that ran out of time.
    Timeout(String),
    /// Failed authentication.
    Authentication(String),
    /// Insufficient permissions.
    Authorization(String),
    /// Malformed or inconsistent data.
    Data(String),
    /// Invalid configuration.
    Configuration(String),
    /// A validation rule that did not hold.
    Validation(String),
    /// A domain rule that did not hold.
    Domain(String),
    /// A lookup that found nothing.
    NotFound(String),
    /// Anything else.
    Unknown(String),
}

impl CoreError {
    /// The rendered message of this error: a category prefix followed by
    /// the detail text.
    pub open spec fn spec_message(&self) -> Seq<char> {
        match self {
            CoreError::Request(m) => "요청 오류: "@ + m@,
            CoreError::Response { code, message } => "응답 오류 (코드: "@ + spec_dec_digits(
                *code as nat,
            ) + "): "@ + message@,
            CoreError::Timeout(m) => "타임아웃 오류: "@ + m@,
            CoreError::Authentication(m) => "인증 오류: "@ + m@,
            CoreError::Authorization(m) => "권한 오류: "@ + m@,
            CoreError::Data(m) => "데이터 오류: "@ + m@,
            CoreError::Configuration(m) => "구성 오류: "@ + m@,
            CoreError::Validation(m) => "유효성 검사 오류: "@ + m@,
            CoreError::Domain(m) => "도메인 오류: "@ + m@,
            CoreError::NotFound(m) => "검색 요소를 찾을 수 없음: "@ + m@,
            CoreError::Unknown(m) => "알 수 없는 오류: "@ + m@,
        }
    }

    /// Renders the error as text.
    pub fn to_string(&self) -> (r: String)
        ensures
            r@ == self.spec_message(),
    {
        match self {
            CoreError::Request(m) => "요청 오류: ".to_owned().concat(m.as_str()),
            CoreError::Response { code, message } => "응답 오류 (코드: ".to_owned().concat(
                u64_to_dec_string(*code as u64).as_str(),
            ).concat("): ").concat(message.as_str()),
            CoreError::Timeout(m) => "타임아웃 오류: ".to_owned().concat(m.as_str()),
            CoreError::Authentication(m) => "인증 오류: ".to_owned().concat(m.as_str()),
            CoreError::Authorization(m) => "권한 오류: ".to_owned().concat(m.as_str()),
            CoreError::Data(m) => "데이터 오류: ".to_owned().concat(m.as_str()),
            CoreError::Configuration(m) => "구성 오류: ".to_owned().concat(m.as_str()),
            CoreError::Validation(m) => "유효성 검사 오류: ".to_owned().concat(m.as_str()),
            CoreError::Domain(m) => "도메인 오류: ".to_owned().concat(m.as_str()),
            CoreError::NotFound(m) => "검색 요소를 찾을 수 없음: ".to_owned().concat(m.as_str()),
            CoreError::Unknown(m) => "알 수 없는 오류: ".to_owned().concat(m.as_str()),
        }
    }
}

/// Result alias used throughout the library.
pub type CoreResult<T> = Result<T, CoreError>;

/// Coarse numeric error codes for reporting.
#[derive(Debug, Clone, Copy, PartialEq, Eq, Structural)]
pub enum ErrorCode {
    Success,
    GeneralError,
    NetworkError,
    ValidationError,
    AuthenticationError,
    AuthorizationError,
    DataError,
    ConfigurationError,
    TimeoutError,
    NotFoundError,
    DuplicateError,
    DomainError,
}

impl ErrorCode {
    /// The numeric value of this code.
    pub fn code(&self) -> (r: u32)
        ensures
            r == self.spec_code(),
    {
        match self {
            ErrorCode::Success => 0,
            ErrorCode::GeneralError => 1000,
            ErrorCode::NetworkError => 1100,
            ErrorCode::ValidationError => 1200,
            ErrorCode::AuthenticationError => 1300,
            ErrorCode::AuthorizationError => 1400,
            ErrorCode::DataError => 1500,
            ErrorCode::ConfigurationError => 1600,
            ErrorCode::TimeoutError => 1700,
            ErrorCode::NotFoundError => 1800,
            ErrorCode::DuplicateError => 1900,
            ErrorCode::DomainError => 2000,
        }
    }

    /// The numeric value of this code.
    pub open spec fn spec_code(&self) -> u32 {
        match self {
            ErrorCode::Success => 0,
            ErrorCode::GeneralError => 1000,
            ErrorCode::NetworkError => 1100,
            ErrorCode::ValidationError => 1200,
            ErrorCode::AuthenticationError => 1300,
            ErrorCode::AuthorizationError => 1400,
            ErrorCode::DataError => 1500,
            ErrorCode::ConfigurationError => 1600,
            ErrorCode::TimeoutError => 1700,
            ErrorCode::NotFoundError => 1800,
            ErrorCode::DuplicateError => 1900,
            ErrorCode::DomainError => 2000,
        }
    }

    /// The name of this code, as its declaration spells it.
    pub open spec fn spec_name(&self) -> Seq<char> {
        match self {
            ErrorCode::Success => "Success"@,
            ErrorCode::GeneralError => "GeneralError"@,
            ErrorCode::NetworkError => "NetworkError"@,
            ErrorCode::ValidationError => "ValidationError"@,
            ErrorCode::AuthenticationError => "AuthenticationError"@,
            ErrorCode::AuthorizationError => "AuthorizationError"@,
            ErrorCode::DataError => "DataError"@,
            ErrorCode::ConfigurationError => "ConfigurationError"@,
            ErrorCode::TimeoutError => "TimeoutError"@,
            ErrorCode::NotFoundError => "NotFoundError"@,
            ErrorCode::DuplicateError => "DuplicateError"@,
            ErrorCode::DomainError => "DomainError"@,
        }
    }

    /// The name of this code as a string slice.
    pub fn name(&self) -> (r: &'static str)
        ensures
            r@ == self.spec_name(),
    {
        match self {
            ErrorCode::Success => "Success",
            ErrorCode::GeneralError => "GeneralError",
            ErrorCode::NetworkError => "NetworkError",
            ErrorCode::ValidationError => "ValidationError",
            ErrorCode::AuthenticationError => "AuthenticationError",
            ErrorCode::AuthorizationError => "AuthorizationError",
            ErrorCode::DataError => "DataError",
            ErrorCode::ConfigurationError => "ConfigurationError",
            ErrorCode::TimeoutError => "TimeoutError",
            ErrorCode::NotFoundError => "NotFoundError",
            ErrorCode::DuplicateError => "DuplicateError",
            ErrorCode::DomainError => "DomainError",
        }
    }

    /// Renders the code as `Name (value)`, e.g. `Success (0)`.
    pub fn to_string(&self) -> (r: String)
        ensures
            r@ == self.spec_name() + " ("@ + spec_dec_digits(self.spec_code() as nat) + ")"@,
    {
        self.name().to_owned().concat(" (").concat(u64_to_dec_string(self.code() as u64).as_str()).concat(
            ")",
        )
    }
}

/// The message `HTTP <status>: <body>` used by HTTP error mapping.
pub open spec fn spec_http_msg(status: u16, body: Seq<char>) -> Seq<char> {
    "HTTP "@ + spec_dec_digits(status as nat) + ": "@ + body
}

/// Builds the `HTTP <status>: <body>` message.
fn http_msg(status: u16, body: &str) -> (r: String)
    ensures
        r@ == spec_http_msg(status, body@),
{
    "HTTP ".to_owned().concat(u64_to_dec_string(status as u64).as_str()).concat(": ").concat(body)
}

/// Maps an HTTP status and response body onto a `CoreError`:
/// authentication for 401/403, not-found for 404, rate limiting for 429,
/// request errors for the remaining 4xx, response errors for 5xx, and
/// unknown for everything else.
pub fn from_http_error(status: u16, body: &str) -> (r: CoreError)
    ensures
        (status == 401 || status == 403) ==> (r matches CoreError::Authentication(m) && m@
            == spec_http_msg(status, body@)),
        status == 404 ==> (r matches CoreError::NotFound(m) && m@ == spec_http_msg(status, body@)),
        status == 429 ==> (r matches CoreError::Timeout(m) && m@ == "속도 제한 초과: "@
            + spec_http_msg(status, body@)),
        (400 <= status <= 499 && status != 401 && status != 403 && status != 404 && status != 429)
            ==> (r matches CoreError::Request(m) && m@ == spec_http_msg(status, body@)),
        (500 <= status <= 599) ==> (r matches CoreError::Response { code, message } && code
            == status && message@ == body@),
        !(400 <= status <= 599) ==> (r matches CoreError::Unknown(m) && m@
            == "예상치 못한 HTTP 상태 코드 "@ + spec_dec_digits(status as nat) + ": "@ + body@),
{
    if status == 401 || status == 403 {
        CoreError::Authentication(http_msg(status, body))
    } else if status == 404 {
        CoreError::NotFound(http_msg(status, body))
    } else if status == 429 {
        CoreError::Timeout("속도 제한 초과: ".to_owned().concat(http_msg(status, body).as_str()))
    } else if 400 <= status && status <= 499 {
        CoreError::Request(http_msg(status, body))
    } else if 500 <= status && status <= 599 {
        CoreError::Response { code: status, message: body.to_owned() }
    } else {
        CoreError::Unknown(
            "예상치 못한 HTTP 상태 코드 ".to_owned().concat(
                u64_to_dec_string(status as u64).as_str(),
            ).concat(": ").concat(body),
        )
    }
}

} // verus!
