//! The error kinds of the library, their conversions, and the text of each.
//!
//! An error is a closed set of kinds with structured fields. Its text is
//! produced on demand by `to_string`, and `text` says in the model what that
//! text is.

use vstd::prelude::*;
use crate::json::{json_error_text, json_error_to_string};
use crate::text::{concat_str, decimal, format_decimal};
use crate::transport::{transport_error_text, transport_error_to_string};

verus! {

/// Any failure that can reach the user.
#[derive(Debug)]
pub enum RestlessError {
    /// The exchange with the server failed.
    Network(reqwest::Error),
    /// A JSON document could not be read or written.
    Json(serde_json::Error),
    UrlEncoding(String),
    InvalidHttpMethod { method: String },
    InvalidUrl { url: String },
    Timeout,
    InvalidHeader { header: String },
    InvalidParameter { param: String },
    /// The tab store refused an operation.
    Tab { message: String },
    /// An input or output operation failed; the field holds its description.
    Io(String),
    Terminal(String),
    ResponseParsing { message: String },
    Configuration { message: String },
    /// The application state is not what its own rules allow.
    AppState { message: String },
}

/// A failure while a request is validated or sent.
#[derive(Debug)]
pub enum RequestError {
    Http(reqwest::Error),
    InvalidUrl { url: String },
    Timeout { seconds: u64 },
    InvalidHeader { key: String, value: String },
    BodySerialization(String),
    Connection { message: String },
}

/// A failure while a response is turned into its displayed form.
#[derive(Debug)]
pub enum ResponseError {
    BodyParsing(String),
    HeaderParsing(String),
    JsonFormatting(serde_json::Error),
    EmptyBody,
    UnsupportedContentType { content_type: String },
}

/// A failure of the user interface.
#[derive(Debug)]
pub enum UiError {
    TerminalInit(String),
    Drawing(String),
    EventHandling(String),
    InvalidScreenState { state: String },
}

impl RestlessError {
    /// The text of the error.
    pub open spec fn text(self) -> Seq<char> {
        match self {
            RestlessError::Network(e) => "Network error: "@ + transport_error_text(e),
            RestlessError::Json(e) => "JSON parsing error: "@ + json_error_text(e),
            RestlessError::UrlEncoding(msg) => "URL encoding error: "@ + msg@,
            RestlessError::InvalidHttpMethod { method } => "Invalid HTTP method: "@ + method@,
            RestlessError::InvalidUrl { url } => "Invalid URL: "@ + url@,
            RestlessError::Timeout => "Request timeout"@,
            RestlessError::InvalidHeader { header } => "Invalid header format: "@ + header@,
            RestlessError::InvalidParameter { param } => "Invalid parameter format: "@ + param@,
            RestlessError::Tab { message } => "Tab error: "@ + message@,
            RestlessError::Io(msg) => "IO error: "@ + msg@,
            RestlessError::Terminal(msg) => "Terminal error: "@ + msg@,
            RestlessError::ResponseParsing { message } => "Response parsing error: "@ + message@,
            RestlessError::Configuration { message } => "Configuration error: "@ + message@,
            RestlessError::AppState { message } => "Application state error: "@ + message@,
        }
    }

    /// What a request error becomes as a `RestlessError`.
    pub open spec fn converts_request_error(self, err: RequestError) -> bool {
        match err {
            RequestError::Http(e) => self == RestlessError::Network(e),
            RequestError::InvalidUrl { url } => self == (RestlessError::InvalidUrl { url }),
            RequestError::Timeout { seconds } => self is Timeout,
            RequestError::InvalidHeader { key, value } => self matches RestlessError::InvalidHeader {
                header,
            } && header@ == key@ + ": "@ + value@,
            RequestError::BodySerialization(msg) => self == (RestlessError::ResponseParsing {
                message: msg,
            }),
            RequestError::Connection { message } => self == (RestlessError::ResponseParsing {
                message,
            }),
        }
    }

    /// What a response error becomes as a `RestlessError`.
    pub open spec fn converts_response_error(self, err: ResponseError) -> bool {
        match err {
            ResponseError::BodyParsing(msg) => self == (RestlessError::ResponseParsing {
                message: msg,
            }),
            ResponseError::HeaderParsing(msg) => self == (RestlessError::ResponseParsing {
                message: msg,
            }),
            ResponseError::JsonFormatting(e) => self == RestlessError::Json(e),
            ResponseError::EmptyBody => self matches RestlessError::ResponseParsing { message }
                && message@ == "Response body is empty"@,
            ResponseError::UnsupportedContentType { content_type } => self matches RestlessError::ResponseParsing {
                message,
            } && message@ == "Unsupported content type: "@ + content_type@,
        }
    }

    /// What a user-interface error becomes as a `RestlessError`.
    pub open spec fn converts_ui_error(self, err: UiError) -> bool {
        match err {
            UiError::TerminalInit(msg) => self == RestlessError::Terminal(msg),
            UiError::Drawing(msg) => self == RestlessError::Terminal(msg),
            UiError::EventHandling(msg) => self == RestlessError::Terminal(msg),
            UiError::InvalidScreenState { state } => self matches RestlessError::AppState { message }
                && message@ == "Invalid screen state: "@ + state@,
        }
    }

    /// The error for a text that cannot be encoded for a URL.
    pub fn url_encoding(msg: &str) -> (r: Self)
        ensures
            r matches RestlessError::UrlEncoding(m) && m@ == msg@,
    {
        RestlessError::UrlEncoding(String::from_str(msg))
    }

    /// The error for a method that is none of the four verbs.
    pub fn invalid_http_method(method: &str) -> (r: Self)
        ensures
            r matches RestlessError::InvalidHttpMethod { method: m } && m@ == method@,
    {
        RestlessError::InvalidHttpMethod { method: String::from_str(method) }
    }

    /// The error for a URL with a fault; `url` holds the words for it.
    pub fn invalid_url(url: &str) -> (r: Self)
        ensures
            r matches RestlessError::InvalidUrl { url: u } && u@ == url@,
    {
        RestlessError::InvalidUrl { url: String::from_str(url) }
    }

    /// The error for a header with a fault; `header` holds the words for it.
    pub fn invalid_header(header: &str) -> (r: Self)
        ensures
            r matches RestlessError::InvalidHeader { header: h } && h@ == header@,
    {
        RestlessError::InvalidHeader { header: String::from_str(header) }
    }

    /// The error for a parameter with a fault; `param` holds the words for it.
    pub fn invalid_parameter(param: &str) -> (r: Self)
        ensures
            r matches RestlessError::InvalidParameter { param: p } && p@ == param@,
    {
        RestlessError::InvalidParameter { param: String::from_str(param) }
    }

    /// The error for an operation that the tab store refuses.
    pub fn tab(message: &str) -> (r: Self)
        ensures
            r matches RestlessError::Tab { message: m } && m@ == message@,
    {
        RestlessError::Tab { message: String::from_str(message) }
    }

    /// The error for a terminal that cannot be set up or given back.
    pub fn terminal(msg: &str) -> (r: Self)
        ensures
            r matches RestlessError::Terminal(m) && m@ == msg@,
    {
        RestlessError::Terminal(String::from_str(msg))
    }

    /// The error for a response that cannot be read.
    pub fn response_parsing(message: &str) -> (r: Self)
        ensures
            r matches RestlessError::ResponseParsing { message: m } && m@ == message@,
    {
        RestlessError::ResponseParsing { message: String::from_str(message) }
    }

    /// The error for a configuration that cannot be used.
    pub fn configuration(message: &str) -> (r: Self)
        ensures
            r matches RestlessError::Configuration { message: m } && m@ == message@,
    {
        RestlessError::Configuration { message: String::from_str(message) }
    }

    /// The error for a state that breaks the rules of the application.
    pub fn app_state(message: &str) -> (r: Self)
        ensures
            r matches RestlessError::AppState { message: m } && m@ == message@,
    {
        RestlessError::AppState { message: String::from_str(message) }
    }

    /// Writes the error out.
    pub fn to_string(&self) -> (r: String)
        ensures
            r@ == self.text(),
    {
        match self {
            RestlessError::Network(e) => {
                let t = transport_error_to_string(e);
                concat_str("Network error: ", t.as_str())
            },
            RestlessError::Json(e) => {
                let t = json_error_to_string(e);
                concat_str("JSON parsing error: ", t.as_str())
            },
            RestlessError::UrlEncoding(msg) => concat_str("URL encoding error: ", msg.as_str()),
            RestlessError::InvalidHttpMethod { method } => concat_str(
                "Invalid HTTP method: ",
                method.as_str(),
            ),
            RestlessError::InvalidUrl { url } => concat_str("Invalid URL: ", url.as_str()),
            RestlessError::Timeout => String::from_str("Request timeout"),
            RestlessError::InvalidHeader { header } => concat_str(
                "Invalid header format: ",
                header.as_str(),
            ),
            RestlessError::InvalidParameter { param } => concat_str(
                "Invalid parameter format: ",
                param.as_str(),
            ),
            RestlessError::Tab { message } => concat_str("Tab error: ", message.as_str()),
            RestlessError::Io(msg) => concat_str("IO error: ", msg.as_str()),
            RestlessError::Terminal(msg) => concat_str("Terminal error: ", msg.as_str()),
            RestlessError::ResponseParsing { message } => concat_str(
                "Response parsing error: ",
                message.as_str(),
            ),
            RestlessError::Configuration { message } => concat_str(
                "Configuration error: ",
                message.as_str(),
            ),
            RestlessError::AppState { message } => concat_str(
                "Application state error: ",
                message.as_str(),
            ),
        }
    }
}

impl RequestError {
    /// The text of the error.
    pub open spec fn text(self) -> Seq<char> {
        match self {
            RequestError::Http(e) => "HTTP request failed: "@ + transport_error_text(e),
            RequestError::InvalidUrl { url } => "Invalid URL format: "@ + url@,
            RequestError::Timeout { seconds } => "Request timeout after "@ + decimal(seconds as nat)
                + " seconds"@,
            RequestError::InvalidHeader { key, value } => "Invalid request header: "@ + key@ + "="@
                + value@,
            RequestError::BodySerialization(msg) => "Request body serialization failed: "@ + msg@,
            RequestError::Connection { message } => "Connection failed: "@ + message@,
        }
    }

    /// The error for a URL that cannot be sent to; `url` holds the words for it.
    pub fn invalid_url(url: &str) -> (r: Self)
        ensures
            r matches RequestError::InvalidUrl { url: u } && u@ == url@,
    {
        RequestError::InvalidUrl { url: String::from_str(url) }
    }

    /// The error for an exchange that took longer than `seconds`.
    pub fn timeout(seconds: u64) -> (r: Self)
        ensures
            r == (RequestError::Timeout { seconds }),
    {
        RequestError::Timeout { seconds }
    }

    /// The error for a header that cannot be sent; `value` holds the words for it.
    pub fn invalid_header(key: &str, value: &str) -> (r: Self)
        ensures
            r matches RequestError::InvalidHeader { key: k, value: v } && k@ == key@ && v@
                == value@,
    {
        RequestError::InvalidHeader { key: String::from_str(key), value: String::from_str(value) }
    }

    /// The error for a body that cannot be written out.
    pub fn body_serialization(msg: &str) -> (r: Self)
        ensures
            r matches RequestError::BodySerialization(m) && m@ == msg@,
    {
        RequestError::BodySerialization(String::from_str(msg))
    }

    /// The error for a server that cannot be reached.
    pub fn connection(message: &str) -> (r: Self)
        ensures
            r matches RequestError::Connection { message: m } && m@ == message@,
    {
        RequestError::Connection { message: String::from_str(message) }
    }

    /// Writes the error out.
    pub fn to_string(&self) -> (r: String)
        ensures
            r@ == self.text(),
    {
        match self {
            RequestError::Http(e) => {
                let t = transport_error_to_string(e);
                concat_str("HTTP request failed: ", t.as_str())
            },
            RequestError::InvalidUrl { url } => concat_str("Invalid URL format: ", url.as_str()),
            RequestError::Timeout { seconds } => {
                let n = format_decimal(*seconds);
                let mut r = concat_str("Request timeout after ", n.as_str());
                r.append(" seconds");
                r
            },
            RequestError::InvalidHeader { key, value } => {
                let mut r = concat_str("Invalid request header: ", key.as_str());
                r.append("=");
                r.append(value.as_str());
                r
            },
            RequestError::BodySerialization(msg) => concat_str(
                "Request body serialization failed: ",
                msg.as_str(),
            ),
            RequestError::Connection { message } => concat_str("Connection failed: ", message.as_str()),
        }
    }
}

impl ResponseError {
    /// The text of the error.
    pub open spec fn text(self) -> Seq<char> {
        match self {
            ResponseError::BodyParsing(msg) => "Failed to parse response body: "@ + msg@,
            ResponseError::HeaderParsing(msg) => "Invalid response headers: "@ + msg@,
            ResponseError::JsonFormatting(e) => "JSON formatting error: "@ + json_error_text(e),
            ResponseError::EmptyBody => "Response body is empty"@,
            ResponseError::UnsupportedContentType { content_type } => "Unsupported content type: "@
                + content_type@,
        }
    }

    /// The error for a body that cannot be read.
    pub fn body_parsing(msg: &str) -> (r: Self)
        ensures
            r matches ResponseError::BodyParsing(m) && m@ == msg@,
    {
        ResponseError::BodyParsing(String::from_str(msg))
    }

    /// The error for a header blob that cannot be read.
    pub fn header_parsing(msg: &str) -> (r: Self)
        ensures
            r matches ResponseError::HeaderParsing(m) && m@ == msg@,
    {
        ResponseError::HeaderParsing(String::from_str(msg))
    }

    /// The error for a content type that cannot be shown.
    pub fn unsupported_content_type(content_type: &str) -> (r: Self)
        ensures
            r matches ResponseError::UnsupportedContentType { content_type: c } && c@
                == content_type@,
    {
        ResponseError::UnsupportedContentType { content_type: String::from_str(content_type) }
    }

    /// Writes the error out.
    pub fn to_string(&self) -> (r: String)
        ensures
            r@ == self.text(),
    {
        match self {
            ResponseError::BodyParsing(msg) => concat_str(
                "Failed to parse response body: ",
                msg.as_str(),
            ),
            ResponseError::HeaderParsing(msg) => concat_str("Invalid response headers: ", msg.as_str()),
            ResponseError::JsonFormatting(e) => {
                let t = json_error_to_string(e);
                concat_str("JSON formatting error: ", t.as_str())
            },
            ResponseError::EmptyBody => String::from_str("Response body is empty"),
            ResponseError::UnsupportedContentType { content_type } => concat_str(
                "Unsupported content type: ",
                content_type.as_str(),
            ),
        }
    }
}

impl UiError {
    /// The text of the error.
    pub open spec fn text(self) -> Seq<char> {
        match self {
            UiError::TerminalInit(msg) => "Terminal initialization failed: "@ + msg@,
            UiError::Drawing(msg) => "Drawing error: "@ + msg@,
            UiError::EventHandling(msg) => "Event handling error: "@ + msg@,
            UiError::InvalidScreenState { state } => "Invalid screen state: "@ + state@,
        }
    }

    /// The error for a terminal that cannot be set up.
    pub fn terminal_init(msg: &str) -> (r: Self)
        ensures
            r matches UiError::TerminalInit(m) && m@ == msg@,
    {
        UiError::TerminalInit(String::from_str(msg))
    }

    /// The error for a frame that cannot be drawn.
    pub fn drawing(msg: &str) -> (r: Self)
        ensures
            r matches UiError::Drawing(m) && m@ == msg@,
    {
        UiError::Drawing(String::from_str(msg))
    }

    /// The error for an event that cannot be handled.
    pub fn event_handling(msg: &str) -> (r: Self)
        ensures
            r matches UiError::EventHandling(m) && m@ == msg@,
    {
        UiError::EventHandling(String::from_str(msg))
    }

    /// The error for a screen that the interface cannot be on.
    pub fn invalid_screen_state(state: &str) -> (r: Self)
        ensures
            r matches UiError::InvalidScreenState { state: s } && s@ == state@,
    {
        UiError::InvalidScreenState { state: String::from_str(state) }
    }

    /// Writes the error out.
    pub fn to_string(&self) -> (r: String)
        ensures
            r@ == self.text(),
    {
        match self {
            UiError::TerminalInit(msg) => concat_str("Terminal initialization failed: ", msg.as_str()),
            UiError::Drawing(msg) => concat_str("Drawing error: ", msg.as_str()),
            UiError::EventHandling(msg) => concat_str("Event handling error: ", msg.as_str()),
            UiError::InvalidScreenState { state } => concat_str(
                "Invalid screen state: ",
                state.as_str(),
            ),
        }
    }
}

impl From<RequestError> for RestlessError {
    fn from(err: RequestError) -> (r: Self)
        ensures
            r.converts_request_error(err),
    {
        match err {
            RequestError::Http(e) => RestlessError::Network(e),
            RequestError::InvalidUrl { url } => RestlessError::InvalidUrl { url },
            RequestError::Timeout { .. } => RestlessError::Timeout,
            RequestError::InvalidHeader { key, value } => {
                let mut header = concat_str(key.as_str(), ": ");
                header.append(value.as_str());
                RestlessError::InvalidHeader { header }
            },
            RequestError::BodySerialization(msg) => RestlessError::ResponseParsing { message: msg },
            RequestError::Connection { message } => RestlessError::ResponseParsing { message },
        }
    }
}

/// The conversion builds a new string in one case, so its result is stated
/// by `converts_request_error` on `from` itself and not by `from_spec`.
impl vstd::std_specs::convert::FromSpecImpl<RequestError> for RestlessError {
    open spec fn obeys_from_spec() -> bool {
        false
    }

    open spec fn from_spec(err: RequestError) -> Self {
        RestlessError::Timeout
    }
}

impl From<ResponseError> for RestlessError {
    fn from(err: ResponseError) -> (r: Self)
        ensures
            r.converts_response_error(err),
    {
        match err {
            ResponseError::BodyParsing(msg) => RestlessError::ResponseParsing { message: msg },
            ResponseError::HeaderParsing(msg) => RestlessError::ResponseParsing { message: msg },
            ResponseError::JsonFormatting(e) => RestlessError::Json(e),
            ResponseError::EmptyBody => RestlessError::ResponseParsing {
                message: String::from_str("Response body is empty"),
            },
            ResponseError::UnsupportedContentType { content_type } => {
                RestlessError::ResponseParsing {
                    message: concat_str("Unsupported content type: ", content_type.as_str()),
                }
            },
        }
    }
}

/// As for request errors: the result is stated by `converts_response_error`.
impl vstd::std_specs::convert::FromSpecImpl<ResponseError> for RestlessError {
    open spec fn obeys_from_spec() -> bool {
        false
    }

    open spec fn from_spec(err: ResponseError) -> Self {
        RestlessError::Timeout
    }
}

impl From<UiError> for RestlessError {
    fn from(err: UiError) -> (r: Self)
        ensures
            r.converts_ui_error(err),
    {
        match err {
            UiError::TerminalInit(msg) => RestlessError::Terminal(msg),
            UiError::Drawing(msg) => RestlessError::Terminal(msg),
            UiError::EventHandling(msg) => RestlessError::Terminal(msg),
            UiError::InvalidScreenState { state } => RestlessError::AppState {
                message: concat_str("Invalid screen state: ", state.as_str()),
            },
        }
    }
}

/// As for request errors: the result is stated by `converts_ui_error`.
impl vstd::std_specs::convert::FromSpecImpl<UiError> for RestlessError {
    open spec fn obeys_from_spec() -> bool {
        false
    }

    open spec fn from_spec(err: UiError) -> Self {
        RestlessError::Timeout
    }
}

} // verus!
