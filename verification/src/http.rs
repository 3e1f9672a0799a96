//! The vocabulary of the server: request methods and response statuses.

use crate::text::{decimal, digit, str_equal};
use vstd::prelude::*;

verus! {

/// The request methods a resource can answer to.
#[derive(Debug, Clone, Copy, PartialEq, Eq, Structural)]
pub enum Method {
    GET,
    POST,
    PUT,
    DELETE,
    PATCH,
}

impl Method {
    /// The method's name as it stands in a request line.
    pub open spec fn name(self) -> Seq<char> {
        match self {
            Method::GET => "GET"@,
            Method::POST => "POST"@,
            Method::PUT => "PUT"@,
            Method::DELETE => "DELETE"@,
            Method::PATCH => "PATCH"@,
        }
    }

    /// The method's name as it stands in a request line.
    pub fn value(&self) -> (r: &'static str)
        ensures
            r@ == self.name(),
    {
        match self {
            Method::GET => "GET",
            Method::POST => "POST",
            Method::PUT => "PUT",
            Method::DELETE => "DELETE",
            Method::PATCH => "PATCH",
        }
    }

    /// Whether `value` is exactly this method's name; the comparison is case
    /// sensitive.
    pub fn equal(&self, value: &str) -> (r: bool)
        ensures
            r == (self.name() == value@),
    {
        str_equal(self.value(), value)
    }
}

/// The five method names differ from one another.
pub proof fn lemma_method_names_distinct(a: Method, b: Method)
    ensures
        a.name() == b.name() <==> a == b,
{
    reveal_strlit("GET");
    reveal_strlit("POST");
    reveal_strlit("PUT");
    reveal_strlit("DELETE");
    reveal_strlit("PATCH");
    if a != b {
        assert(a.name().len() != b.name().len() || a.name()[1] != b.name()[1]);
    }
}

/// The response statuses that have a name.
#[derive(Debug, Clone, Copy, PartialEq, Eq, Structural)]
pub enum Status {
    Continue,
    SwitchingProtocols,
    Processing,
    OK,
    Created,
    Accepted,
    NonAuthoritativeInformation,
    NoContent,
    ResetContent,
    PartialContent,
    MultiStatus,
    MultipleChoices,
    MovedPermanently,
    Found,
    SeeOther,
    NotModified,
    UseProxy,
    TemporaryRedirect,
    PermanentRedirect,
    BadRequest,
    Unauthorized,
    PaymentRequired,
    Forbidden,
    NotFound,
    MethodNotAllowed,
    NotAcceptable,
    ProxyAuthenticationRequired,
    RequestTimeout,
    Conflict,
    Gone,
    LengthRequired,
    PreconditionFailed,
    PayloadTooLarge,
    UriTooLong,
    UnsupportedMediaType,
    RangeNotSatisfiable,
    ExpectationFailed,
    ImATeapot,
    UnprocessableEntity,
    Locked,
    FailedDependency,
    UpgradeRequired,
    PreconditionRequired,
    TooManyRequests,
    RequestHeaderFieldsTooLarge,
    InternalServerError,
    NotImplemented,
    BadGateway,
    ServiceUnavailable,
    GatewayTimeout,
    HttpVersionNotSupported,
    InsufficientStorage,
    NetworkAuthenticationRequired,
}

impl Status {
    /// The numeric status code.
    pub open spec fn code_value(self) -> nat {
        match self {
            Status::Continue => 100,
            Status::SwitchingProtocols => 101,
            Status::Processing => 102,
            Status::OK => 200,
            Status::Created => 201,
            Status::Accepted => 202,
            Status::NonAuthoritativeInformation => 203,
            Status::NoContent => 204,
            Status::ResetContent => 205,
            Status::PartialContent => 206,
            Status::MultiStatus => 207,
            Status::MultipleChoices => 300,
            Status::MovedPermanently => 301,
            Status::Found => 302,
            Status::SeeOther => 303,
            Status::NotModified => 304,
            Status::UseProxy => 305,
            Status::TemporaryRedirect => 307,
            Status::PermanentRedirect => 308,
            Status::BadRequest => 400,
            Status::Unauthorized => 401,
            Status::PaymentRequired => 402,
            Status::Forbidden => 403,
            Status::NotFound => 404,
            Status::MethodNotAllowed => 405,
            Status::NotAcceptable => 406,
            Status::ProxyAuthenticationRequired => 407,
            Status::RequestTimeout => 408,
            Status::Conflict => 409,
            Status::Gone => 410,
            Status::LengthRequired => 411,
            Status::PreconditionFailed => 412,
            Status::PayloadTooLarge => 413,
            Status::UriTooLong => 414,
            Status::UnsupportedMediaType => 415,
            Status::RangeNotSatisfiable => 416,
            Status::ExpectationFailed => 417,
            Status::ImATeapot => 418,
            Status::UnprocessableEntity => 422,
            Status::Locked => 423,
            Status::FailedDependency => 424,
            Status::UpgradeRequired => 426,
            Status::PreconditionRequired => 428,
            Status::TooManyRequests => 429,
            Status::RequestHeaderFieldsTooLarge => 431,
            Status::InternalServerError => 500,
            Status::NotImplemented => 501,
            Status::BadGateway => 502,
            Status::ServiceUnavailable => 503,
            Status::GatewayTimeout => 504,
            Status::HttpVersionNotSupported => 505,
            Status::InsufficientStorage => 507,
            Status::NetworkAuthenticationRequired => 511,
        }
    }

    /// The status line's text after the protocol version: the code, a space
    /// and the reason phrase.
    pub open spec fn line(self) -> Seq<char> {
        match self {
            Status::Continue => "100 Continue"@,
            Status::SwitchingProtocols => "101 Switching Protocols"@,
            Status::Processing => "102 Processing"@,
            Status::OK => "200 Ok"@,
            Status::Created => "201 Created"@,
            Status::Accepted => "202 Accepted"@,
            Status::NonAuthoritativeInformation => "203 Non Authoritative Information"@,
            Status::NoContent => "204 No Content"@,
            Status::ResetContent => "205 Reset Content"@,
            Status::PartialContent => "206 Partial Content"@,
            Status::MultiStatus => "207 Multi Status"@,
            Status::MultipleChoices => "300 Multiple Choices"@,
            Status::MovedPermanently => "301 Moved Permanently"@,
            Status::Found => "302 Found"@,
            Status::SeeOther => "303 See Other"@,
            Status::NotModified => "304 Not Modified"@,
            Status::UseProxy => "305 Use Proxy"@,
            Status::TemporaryRedirect => "307 Temporary Redirect"@,
            Status::PermanentRedirect => "308 Permanent Redirect"@,
            Status::BadRequest => "400 Bad Request"@,
            Status::Unauthorized => "401 Unauthorized"@,
            Status::PaymentRequired => "402 Payment Required"@,
            Status::Forbidden => "403 Forbidden"@,
            Status::NotFound => "404 Not Found"@,
            Status::MethodNotAllowed => "405 Method Not Allowed"@,
            Status::NotAcceptable => "406 Not Acceptable"@,
            Status::ProxyAuthenticationRequired => "407 Proxy Authentication Required"@,
            Status::RequestTimeout => "408 Request Timeout"@,
            Status::Conflict => "409 Conflict"@,
            Status::Gone => "410 Gone"@,
            Status::LengthRequired => "411 Length Required"@,
            Status::PreconditionFailed => "412 Precondition Failed"@,
            Status::PayloadTooLarge => "413 Payload Too Large"@,
            Status::UriTooLong => "414 URI Too Long"@,
            Status::UnsupportedMediaType => "415 Unsupported Media Type"@,
            Status::RangeNotSatisfiable => "416 Range Not Satisfiable"@,
            Status::ExpectationFailed => "417 Expectation Failed"@,
            Status::ImATeapot => "418 I'm A Teapot"@,
            Status::UnprocessableEntity => "422 Unprocessable Entity"@,
            Status::Locked => "423 Locked"@,
            Status::FailedDependency => "424 Failed Dependency"@,
            Status::UpgradeRequired => "426 Upgrade Required"@,
            Status::PreconditionRequired => "428 Precondition Required"@,
            Status::TooManyRequests => "429 Too Many Requests"@,
            Status::RequestHeaderFieldsTooLarge => "431 Request Header Fields Too Large"@,
            Status::InternalServerError => "500 Internal Server Error"@,
            Status::NotImplemented => "501 Not Implemented"@,
            Status::BadGateway => "502 Bad Gateway"@,
            Status::ServiceUnavailable => "503 Service Unavailable"@,
            Status::GatewayTimeout => "504 Gateway Timeout"@,
            Status::HttpVersionNotSupported => "505 Http Version Not Supported"@,
            Status::InsufficientStorage => "507 Insufficient Storage"@,
            Status::NetworkAuthenticationRequired => "511 Network Authentication Required"@,
        }
    }

    /// The numeric status code.
    pub fn code(&self) -> (r: u16)
        ensures
            r == self.code_value(),
    {
        match self {
            Status::Continue => 100,
            Status::SwitchingProtocols => 101,
            Status::Processing => 102,
            Status::OK => 200,
            Status::Created => 201,
            Status::Accepted => 202,
            Status::NonAuthoritativeInformation => 203,
            Status::NoContent => 204,
            Status::ResetContent => 205,
            Status::PartialContent => 206,
            Status::MultiStatus => 207,
            Status::MultipleChoices => 300,
            Status::MovedPermanently => 301,
            Status::Found => 302,
            Status::SeeOther => 303,
            Status::NotModified => 304,
            Status::UseProxy => 305,
            Status::TemporaryRedirect => 307,
            Status::PermanentRedirect => 308,
            Status::BadRequest => 400,
            Status::Unauthorized => 401,
            Status::PaymentRequired => 402,
            Status::Forbidden => 403,
            Status::NotFound => 404,
            Status::MethodNotAllowed => 405,
            Status::NotAcceptable => 406,
            Status::ProxyAuthenticationRequired => 407,
            Status::RequestTimeout => 408,
            Status::Conflict => 409,
            Status::Gone => 410,
            Status::LengthRequired => 411,
            Status::PreconditionFailed => 412,
            Status::PayloadTooLarge => 413,
            Status::UriTooLong => 414,
            Status::UnsupportedMediaType => 415,
            Status::RangeNotSatisfiable => 416,
            Status::ExpectationFailed => 417,
            Status::ImATeapot => 418,
            Status::UnprocessableEntity => 422,
            Status::Locked => 423,
            Status::FailedDependency => 424,
            Status::UpgradeRequired => 426,
            Status::PreconditionRequired => 428,
            Status::TooManyRequests => 429,
            Status::RequestHeaderFieldsTooLarge => 431,
            Status::InternalServerError => 500,
            Status::NotImplemented => 501,
            Status::BadGateway => 502,
            Status::ServiceUnavailable => 503,
            Status::GatewayTimeout => 504,
            Status::HttpVersionNotSupported => 505,
            Status::InsufficientStorage => 507,
            Status::NetworkAuthenticationRequired => 511,
        }
    }

    /// The code and reason phrase, as they stand in the status line.
    pub fn description(&self) -> (r: &'static str)
        ensures
            r@ == self.line(),
    {
        match self {
            Status::Continue => "100 Continue",
            Status::SwitchingProtocols => "101 Switching Protocols",
            Status::Processing => "102 Processing",
            Status::OK => "200 Ok",
            Status::Created => "201 Created",
            Status::Accepted => "202 Accepted",
            Status::NonAuthoritativeInformation => "203 Non Authoritative Information",
            Status::NoContent => "204 No Content",
            Status::ResetContent => "205 Reset Content",
            Status::PartialContent => "206 Partial Content",
            Status::MultiStatus => "207 Multi Status",
            Status::MultipleChoices => "300 Multiple Choices",
            Status::MovedPermanently => "301 Moved Permanently",
            Status::Found => "302 Found",
            Status::SeeOther => "303 See Other",
            Status::NotModified => "304 Not Modified",
            Status::UseProxy => "305 Use Proxy",
            Status::TemporaryRedirect => "307 Temporary Redirect",
            Status::PermanentRedirect => "308 Permanent Redirect",
            Status::BadRequest => "400 Bad Request",
            Status::Unauthorized => "401 Unauthorized",
            Status::PaymentRequired => "402 Payment Required",
            Status::Forbidden => "403 Forbidden",
            Status::NotFound => "404 Not Found",
            Status::MethodNotAllowed => "405 Method Not Allowed",
            Status::NotAcceptable => "406 Not Acceptable",
            Status::ProxyAuthenticationRequired => "407 Proxy Authentication Required",
            Status::RequestTimeout => "408 Request Timeout",
            Status::Conflict => "409 Conflict",
            Status::Gone => "410 Gone",
            Status::LengthRequired => "411 Length Required",
            Status::PreconditionFailed => "412 Precondition Failed",
            Status::PayloadTooLarge => "413 Payload Too Large",
            Status::UriTooLong => "414 URI Too Long",
            Status::UnsupportedMediaType => "415 Unsupported Media Type",
            Status::RangeNotSatisfiable => "416 Range Not Satisfiable",
            Status::ExpectationFailed => "417 Expectation Failed",
            Status::ImATeapot => "418 I'm A Teapot",
            Status::UnprocessableEntity => "422 Unprocessable Entity",
            Status::Locked => "423 Locked",
            Status::FailedDependency => "424 Failed Dependency",
            Status::UpgradeRequired => "426 Upgrade Required",
            Status::PreconditionRequired => "428 Precondition Required",
            Status::TooManyRequests => "429 Too Many Requests",
            Status::RequestHeaderFieldsTooLarge => "431 Request Header Fields Too Large",
            Status::InternalServerError => "500 Internal Server Error",
            Status::NotImplemented => "501 Not Implemented",
            Status::BadGateway => "502 Bad Gateway",
            Status::ServiceUnavailable => "503 Service Unavailable",
            Status::GatewayTimeout => "504 Gateway Timeout",
            Status::HttpVersionNotSupported => "505 Http Version Not Supported",
            Status::InsufficientStorage => "507 Insufficient Storage",
            Status::NetworkAuthenticationRequired => "511 Network Authentication Required",
        }
    }
}

/// Every status line starts with the status code in decimal and a space.
pub proof fn lemma_line_starts_with_code(status: Status)
    ensures
        status.line().len() > 4,
        status.line().take(3) == decimal(status.code_value()),
        status.line()[3] == ' ',
{
    reveal_strlit("100 Continue");
    reveal_strlit("101 Switching Protocols");
    reveal_strlit("102 Processing");
    reveal_strlit("200 Ok");
    reveal_strlit("201 Created");
    reveal_strlit("202 Accepted");
    reveal_strlit("203 Non Authoritative Information");
    reveal_strlit("204 No Content");
    reveal_strlit("205 Reset Content");
    reveal_strlit("206 Partial Content");
    reveal_strlit("207 Multi Status");
    reveal_strlit("300 Multiple Choices");
    reveal_strlit("301 Moved Permanently");
    reveal_strlit("302 Found");
    reveal_strlit("303 See Other");
    reveal_strlit("304 Not Modified");
    reveal_strlit("305 Use Proxy");
    reveal_strlit("307 Temporary Redirect");
    reveal_strlit("308 Permanent Redirect");
    reveal_strlit("400 Bad Request");
    reveal_strlit("401 Unauthorized");
    reveal_strlit("402 Payment Required");
    reveal_strlit("403 Forbidden");
    reveal_strlit("404 Not Found");
    reveal_strlit("405 Method Not Allowed");
    reveal_strlit("406 Not Acceptable");
    reveal_strlit("407 Proxy Authentication Required");
    reveal_strlit("408 Request Timeout");
    reveal_strlit("409 Conflict");
    reveal_strlit("410 Gone");
    reveal_strlit("411 Length Required");
    reveal_strlit("412 Precondition Failed");
    reveal_strlit("413 Payload Too Large");
    reveal_strlit("414 URI Too Long");
    reveal_strlit("415 Unsupported Media Type");
    reveal_strlit("416 Range Not Satisfiable");
    reveal_strlit("417 Expectation Failed");
    reveal_strlit("418 I'm A Teapot");
    reveal_strlit("422 Unprocessable Entity");
    reveal_strlit("423 Locked");
    reveal_strlit("424 Failed Dependency");
    reveal_strlit("426 Upgrade Required");
    reveal_strlit("428 Precondition Required");
    reveal_strlit("429 Too Many Requests");
    reveal_strlit("431 Request Header Fields Too Large");
    reveal_strlit("500 Internal Server Error");
    reveal_strlit("501 Not Implemented");
    reveal_strlit("502 Bad Gateway");
    reveal_strlit("503 Service Unavailable");
    reveal_strlit("504 Gateway Timeout");
    reveal_strlit("505 Http Version Not Supported");
    reveal_strlit("507 Insufficient Storage");
    reveal_strlit("511 Network Authentication Required");
    let code = status.code_value();
    assert(decimal(code) =~= seq![digit(code as int / 100), digit(code as int / 10 % 10), digit(code as int % 10)]) by {
        reveal_with_fuel(decimal, 3);
    }
    assert(status.line().take(3) =~= decimal(code));
}

} // verus!
