//! Errors of the exchange connectivity layer, their rendering, and their
//! mapping onto the core error type.

use vstd::prelude::*;

use crate::error::CoreError;
use crate::error::spec_http_msg;
use crate::timeframe::parse_u32;
use crate::timeframe::spec_is_number;
use crate::timeframe::spec_number_val;
use crate::util::spec_dec_digits;
use crate::util::u64_to_dec_string;

verus! {

/// An error from talking to an exchange.
#[derive(Debug)]
pub enum ExchangeError {
    /// A malformed or rejected API request.
    RequestError(String),
    /// An API response carrying an error, with the exchange's own code.
    ResponseError { code: String, message: String },
    /// Failed authentication.
    AuthenticationError(String),
    /// The exchange's rate limit was hit.
    RateLimitExceeded(String),
    /// A WebSocket failure.
    WebSocketError(String),
    /// A response that could not be parsed.
    ParseError(String),
    /// An operation that ran out of time.
    TimeoutError(String),
    /// Invalid request parameters.
    InvalidRequestParams(String),
    /// A feature the exchange does not offer.
    UnsupportedFeature(String),
    /// A network failure.
    NetworkError(String),
    /// An internal failure.
    InternalError(String),
    /// A core error passed through.
    CommonError(CoreError),
}

/// The response code a core response error carries for an exchange code
/// string: the number it names, or 400 when it names none in range.
pub open spec fn spec_response_code(code: Seq<char>) -> u16 {
    if spec_is_number(code) && spec_number_val(code) <= u16::MAX {
        spec_number_val(code) as u16
    } else {
        400
    }
}

impl ExchangeError {
    /// Maps the exchange error onto the core error type: each variant
    /// becomes the core category closest to it, with a prefix naming the
    /// exchange layer; a passed-through core error stays as it is.
    pub fn to_core_error(self) -> (r: CoreError)
        ensures
            match self {
                ExchangeError::RequestError(m) => r matches CoreError::Request(t) && t@
                    == "거래소 요청 오류: "@ + m@,
                ExchangeError::ResponseError { code, message } => r matches CoreError::Response {
                    code: c,
                    message: t,
                } && c == spec_response_code(code@) && t@ == "거래소 응답 오류: "@ + message@,
                ExchangeError::AuthenticationError(m) => r matches CoreError::Authentication(t)
                    && t@ == "거래소 인증 오류: "@ + m@,
                ExchangeError::RateLimitExceeded(m) => r matches CoreError::Request(t) && t@
                    == "거래소 속도 제한: "@ + m@,
                ExchangeError::WebSocketError(m) => r matches CoreError::Request(t) && t@
                    == "거래소 WebSocket 오류: "@ + m@,
                ExchangeError::ParseError(m) => r matches CoreError::Data(t) && t@
                    == "거래소 응답 파싱 오류: "@ + m@,
                ExchangeError::TimeoutError(m) => r matches CoreError::Timeout(t) && t@
                    == "거래소 타임아웃: "@ + m@,
                ExchangeError::InvalidRequestParams(m) => r matches CoreError::Data(t) && t@
                    == "거래소 잘못된 요청: "@ + m@,
                ExchangeError::UnsupportedFeature(m) => r matches CoreError::Configuration(t) && t@
                    == "지원되지 않는 거래소 기능: "@ + m@,
                ExchangeError::NetworkError(m) => r matches CoreError::Request(t) && t@
                    == "거래소 네트워크 오류: "@ + m@,
                ExchangeError::InternalError(m) => r matches CoreError::Unknown(t) && t@
                    == "거래소 내부 오류: "@ + m@,
                ExchangeError::CommonError(err) => r == err,
            },
    {
        match self {
            ExchangeError::RequestError(m) => CoreError::Request(
                "거래소 요청 오류: ".to_owned().concat(m.as_str()),
            ),
            ExchangeError::ResponseError { code, message } => CoreError::Response {
                code: parse_response_code(code.as_str()),
                message: "거래소 응답 오류: ".to_owned().concat(message.as_str()),
            },
            ExchangeError::AuthenticationError(m) => CoreError::Authentication(
                "거래소 인증 오류: ".to_owned().concat(m.as_str()),
            ),
            ExchangeError::RateLimitExceeded(m) => CoreError::Request(
                "거래소 속도 제한: ".to_owned().concat(m.as_str()),
            ),
            ExchangeError::WebSocketError(m) => CoreError::Request(
                "거래소 WebSocket 오류: ".to_owned().concat(m.as_str()),
            ),
            ExchangeError::ParseError(m) => CoreError::Data(
                "거래소 응답 파싱 오류: ".to_owned().concat(m.as_str()),
            ),
            ExchangeError::TimeoutError(m) => CoreError::Timeout(
                "거래소 타임아웃: ".to_owned().concat(m.as_str()),
            ),
            ExchangeError::InvalidRequestParams(m) => CoreError::Data(
                "거래소 잘못된 요청: ".to_owned().concat(m.as_str()),
            ),
            ExchangeError::UnsupportedFeature(m) => CoreError::Configuration(
                "지원되지 않는 거래소 기능: ".to_owned().concat(m.as_str()),
            ),
            ExchangeError::NetworkError(m) => CoreError::Request(
                "거래소 네트워크 오류: ".to_owned().concat(m.as_str()),
            ),
            ExchangeError::InternalError(m) => CoreError::Unknown(
                "거래소 내부 오류: ".to_owned().concat(m.as_str()),
            ),
            ExchangeError::CommonError(err) => err,
        }
    }
}

/// Reads an exchange's response code; codes that name no number in range
/// fall back to 400.
fn parse_response_code(code: &str) -> (r: u16)
    ensures
        r == spec_response_code(code@),
{
    match parse_u32(code) {
        Some(n) => {
            if n <= u16::MAX as u32 {
                n as u16
            } else {
                400
            }
        },
        None => 400,
    }
}

impl From<ExchangeError> for CoreError {
    /// Maps as `to_core_error` does; its exact statement stands there.
    fn from(err: ExchangeError) -> CoreError {
        err.to_core_error()
    }
}

impl vstd::std_specs::convert::FromSpecImpl<ExchangeError> for CoreError {
    open spec fn obeys_from_spec() -> bool {
        false
    }

    open spec fn from_spec(err: ExchangeError) -> CoreError {
        vstd::pervasive::arbitrary()
    }
}

/// Maps an HTTP status and response body onto an `ExchangeError`: rate
/// limiting for 429, authentication for 401/403, request errors for the
/// remaining 4xx, response errors for 5xx and above, and an internal
/// error for everything else.
pub fn from_http_error(status: u16, body: &str) -> (r: ExchangeError)
    ensures
        status == 429 ==> (r matches ExchangeError::RateLimitExceeded(m) && m@ == spec_http_msg(
            status,
            body@,
        )),
        (status == 401 || status == 403) ==> (r matches ExchangeError::AuthenticationError(m) && m@
            == spec_http_msg(status, body@)),
        (400 <= status <= 499 && status != 401 && status != 403 && status != 429) ==> (r matches
            ExchangeError::RequestError(m) && m@ == spec_http_msg(status, body@)),
        status >= 500 ==> (r matches ExchangeError::ResponseError { code, message } && code@
            == spec_dec_digits(status as nat) && message@ == body@),
        status < 400 ==> (r matches ExchangeError::InternalError(m) && m@
            == "예상치 못한 HTTP 오류 "@ + spec_dec_digits(status as nat) + ": "@ + body@),
{
    if status == 429 {
        return ExchangeError::RateLimitExceeded(http_msg(status, body));
    }
    if status == 401 || status == 403 {
        return ExchangeError::AuthenticationError(http_msg(status, body));
    }
    if status >= 400 && status < 500 {
        return ExchangeError::RequestError(http_msg(status, body));
    }
    if status >= 500 {
        return ExchangeError::ResponseError {
            code: u64_to_dec_string(status as u64),
            message: body.to_owned(),
        };
    }
    ExchangeError::InternalError(
        "예상치 못한 HTTP 오류 ".to_owned().concat(u64_to_dec_string(status as u64).as_str()).concat(
            ": ",
        ).concat(body),
    )
}

/// Builds the `HTTP <status>: <body>` message.
fn http_msg(status: u16, body: &str) -> (r: String)
    ensures
        r@ == spec_http_msg(status, body@),
{
    "HTTP ".to_owned().concat(u64_to_dec_string(status as u64).as_str()).concat(": ").concat(body)
}

/// Result alias of the exchange connectivity layer.
pub type ExchangeResult<T> = Result<T, ExchangeError>;

} // verus!
