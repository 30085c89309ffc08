//! What the request middleware decides.
//!
//! A middleware wraps a service: it looks at the request, calls the service
//! and looks at the response. The calls and the waiting are the caller's;
//! what is here is each middleware's state and its decisions, as functions
//! from what was observed to what is to be done.

use vstd::prelude::*;

use crate::json::{get_request_details_from_value, request_details, JsonValue};

verus! {

/// The header that carries the request id.
pub const X_REQUEST_ID: &'static str = "x-request-id";

/// The value of the transport security header: a maximum age of one year,
/// in seconds.
pub const STRICT_TRANSPORT_SECURITY_VALUE: &'static str = "max-age=31536000";

/// The status of a bad request.
pub const BAD_REQUEST: u16 = 400;

/// Adds the request id to the response.
#[derive(Debug, Clone, Copy, Default)]
pub struct RequestId;

/// Opens the top-level log span of a request.
#[derive(Debug, Clone, Copy, Default)]
pub struct LogSpanInitializer;

/// Logs a summary of the body of each bad request.
#[derive(Debug, Clone, Copy, Default)]
pub struct Http400RequestDetailsLogger;

/// Sets the language of a request from its query.
#[derive(Debug, Clone, Copy, Default)]
pub struct AddAcceptLanguageHeader;

/// Records the number and duration of requests.
#[derive(Debug, Clone, Copy, Default)]
pub struct RequestResponseMetrics;

/// The request id middleware around a service.
#[derive(Debug)]
pub struct RequestIdMiddleware<S> {
    pub service: S,
}

/// The log span middleware around a service.
#[derive(Debug)]
pub struct LogSpanInitializerMiddleware<S> {
    pub service: S,
}

/// The bad request logger around a service.
#[derive(Debug)]
pub struct Http400RequestDetailsLoggerMiddleware<S> {
    pub service: S,
}

/// The language middleware around a service.
#[derive(Debug)]
pub struct AddAcceptLanguageHeaderMiddleware<S> {
    pub service: S,
}

/// The metrics middleware around a service.
#[derive(Debug)]
pub struct RequestResponseMetricsMiddleware<S> {
    pub service: S,
}

/// A header to set: its name and its value.
#[derive(Debug)]
pub struct Header {
    pub name: String,
    pub value: String,
}

/// What is known of a request's body when its response is seen.
#[derive(Debug)]
pub enum RequestBody {
    /// The body was empty.
    Empty,
    /// The body was a JSON document.
    Json(JsonValue),
    /// The body was not JSON; the text says why.
    Invalid(String),
}

/// The severity of a log line.
#[derive(Debug, Clone, Copy, PartialEq, Eq, Structural)]
pub enum LogLevel {
    Info,
    Warn,
}

/// A line for the log.
#[derive(Debug)]
pub struct LogLine {
    pub level: LogLevel,
    pub text: String,
}

/// What to do with the language header of a request.
#[derive(Debug)]
pub enum LanguageAction {
    /// Set it to the locale that the query names.
    Use(String),
    /// Set it to English.
    SetDefault,
    /// Leave it as it is.
    Keep,
}

/// What is done with the language header: the locale of the query wins over
/// a header; without a locale, a header is kept and a missing header becomes
/// English.
pub open spec fn language_action(locale: Option<String>, has_header: bool) -> LanguageAction {
    match locale {
        Some(locale) => LanguageAction::Use(locale),
        None => if has_header {
            LanguageAction::Keep
        } else {
            LanguageAction::SetDefault
        },
    }
}

/// The line logged for a body, if any: none unless the request was bad; the
/// summary of a JSON body or a note of an empty one, at the level of
/// information; the reason why a body could not be read, as a warning.
pub open spec fn is_details_line(
    line: Option<LogLine>,
    status: u16,
    request_id: Seq<char>,
    body: RequestBody,
) -> bool {
    if status != BAD_REQUEST {
        line is None
    } else {
        match body {
            RequestBody::Empty => line matches Some(l) && l.level == LogLevel::Info && l.text@
                == "request_id: "@ + request_id + ", request_details: Empty Body"@,
            RequestBody::Json(value) => line matches Some(l) && l.level == LogLevel::Info && l.text@
                == "request_id: "@ + request_id + ", request_details: "@ + request_details(
                value,
                Seq::empty(),
            ),
            RequestBody::Invalid(reason) => line matches Some(l) && l.level == LogLevel::Warn
                && l.text@ == "error while parsing the request in json value: "@ + reason@,
        }
    }
}

/// The path under which a request is counted: the pattern of its route, or
/// `UNKNOWN` where it matched none.
pub open spec fn metrics_path(pattern: Option<String>) -> Seq<char> {
    match pattern {
        Some(p) => p@,
        None => "UNKNOWN"@,
    }
}

impl<S> RequestIdMiddleware<S> {
    pub fn new(service: S) -> (res: Self)
        ensures
            res.service == service,
    {
        RequestIdMiddleware { service }
    }

    /// The header added to a response: the request id under its name.
    pub fn response_header(request_id: String) -> (header: Header)
        ensures
            header.name@ == X_REQUEST_ID@,
            header.value == request_id,
    {
        Header { name: String::from_str(X_REQUEST_ID), value: request_id }
    }
}

impl<S> LogSpanInitializerMiddleware<S> {
    pub fn new(service: S) -> (res: Self)
        ensures
            res.service == service,
    {
        LogSpanInitializerMiddleware { service }
    }

    /// The tenant recorded in the span: the tenant header where the request
    /// has one that is readable as text.
    pub fn tenant_id(header: Option<Option<String>>) -> (tenant: Option<String>)
        ensures
            tenant == match header {
                Some(Some(text)) => Some(text),
                _ => None::<String>,
            },
    {
        match header {
            Some(Some(text)) => Some(text),
            _ => None,
        }
    }
}

impl<S> Http400RequestDetailsLoggerMiddleware<S> {
    pub fn new(service: S) -> (res: Self)
        ensures
            res.service == service,
    {
        Http400RequestDetailsLoggerMiddleware { service }
    }

    /// Whether the response to a request calls for a line about its body.
    pub fn should_log(status: u16) -> (res: bool)
        ensures
            res == (status == BAD_REQUEST),
    {
        status == BAD_REQUEST
    }

    /// The line to log about the body of a request, given the status of its
    /// response.
    pub fn details_line(status: u16, request_id: &str, body: &RequestBody) -> (line: Option<
        LogLine,
    >)
        ensures
            is_details_line(line, status, request_id@, *body),
    {
        if status != BAD_REQUEST {
            return None;
        }
        match body {
            RequestBody::Empty => {
                let text = String::from_str("request_id: ").concat(request_id).concat(
                    ", request_details: Empty Body",
                );
                Some(LogLine { level: LogLevel::Info, text })
            },
            RequestBody::Json(value) => {
                let details = get_request_details_from_value(value, "");
                proof {
                    reveal_strlit("");
                    assert(""@ =~= Seq::<char>::empty());
                }
                let text = String::from_str("request_id: ").concat(request_id).concat(
                    ", request_details: ",
                ).concat(details.as_str());
                Some(LogLine { level: LogLevel::Info, text })
            },
            RequestBody::Invalid(reason) => {
                let text = String::from_str(
                    "error while parsing the request in json value: ",
                ).concat(reason.as_str());
                Some(LogLine { level: LogLevel::Warn, text })
            },
        }
    }
}

impl<S> AddAcceptLanguageHeaderMiddleware<S> {
    pub fn new(service: S) -> (res: Self)
        ensures
            res.service == service,
    {
        AddAcceptLanguageHeaderMiddleware { service }
    }

    /// What to do with the language header, given the locale of the query
    /// and whether the request has the header.
    pub fn decide(locale: Option<String>, has_header: bool) -> (action: LanguageAction)
        ensures
            action == language_action(locale, has_header),
    {
        match locale {
            Some(locale) => LanguageAction::Use(locale),
            None => {
                if has_header {
                    LanguageAction::Keep
                } else {
                    LanguageAction::SetDefault
                }
            },
        }
    }
}

impl<S> RequestResponseMetricsMiddleware<S> {
    pub fn new(service: S) -> (res: Self)
        ensures
            res.service == service,
    {
        RequestResponseMetricsMiddleware { service }
    }

    /// The path under which a request is counted.
    pub fn request_path(pattern: Option<String>) -> (path: String)
        ensures
            path@ == metrics_path(pattern),
    {
        match pattern {
            Some(p) => p,
            None => String::from_str("UNKNOWN"),
        }
    }
}

/// The headers added to every response that does not set them itself:
/// transport security for a year, and the name of the platform as the
/// intermediary.
pub fn default_response_headers() -> (headers: Vec<Header>)
    ensures
        headers@.len() == 2,
        headers@[0].name@ == "strict-transport-security"@,
        headers@[0].value@ == STRICT_TRANSPORT_SECURITY_VALUE@,
        headers@[1].name@ == "via"@,
        headers@[1].value@ == "HyperSwitch"@,
{
    let mut headers: Vec<Header> = Vec::new();
    headers.push(
        Header {
            name: String::from_str("strict-transport-security"),
            value: String::from_str(STRICT_TRANSPORT_SECURITY_VALUE),
        },
    );
    headers.push(Header { name: String::from_str("via"), value: String::from_str("HyperSwitch") });
    headers
}

/// The locale of the query always decides the language; without one, a
/// request leaves the middleware with a language header in every case.
pub proof fn lemma_language_is_always_set(locale: Option<String>, has_header: bool)
    ensures
        locale matches Some(l) ==> language_action(locale, has_header) == LanguageAction::Use(l),
        language_action(locale, has_header) is Keep ==> has_header && locale is None,
        language_action(locale, has_header) is SetDefault <==> !has_header && locale is None,
{
}

} // verus!
