//! The request model: validation, URL assembly, and the classification of
//! what the transport hands back.

use vstd::prelude::*;
use crate::encoding::{percent_encoded, url_encode};
use crate::error::{RequestError, RestlessError};
use crate::text::{
    concat_str, contains_char, contains_line_break, has_line_break, is_blank, is_blank_text, join,
    lemma_join_next, pairs_view, same_text, starts_with,
};
use crate::transport::{
    is_connect_error, is_timeout_error, method_delete, method_get, method_post, method_put,
    method_token, transport_error_text, transport_error_to_string,
};

verus! {

/// The verbs that the user can choose.
#[derive(Clone, Copy, Debug, PartialEq, Eq, Structural)]
pub enum HttpMethod {
    GET,
    POST,
    PUT,
    DELETE,
}

/// A request as a tab holds it.
pub struct Request {
    pub url: String,
    pub method: reqwest::Method,
    pub headers: Vec<(String, String)>,
    pub body: Option<String>,
    pub params: Vec<(String, String)>,
}

/// The model of a request. The method is taken by its token.
pub struct RequestView {
    pub url: Seq<char>,
    pub method: Seq<char>,
    pub headers: Seq<(Seq<char>, Seq<char>)>,
    pub body: Option<Seq<char>>,
    pub params: Seq<(Seq<char>, Seq<char>)>,
}

impl View for Request {
    type V = RequestView;

    open spec fn view(&self) -> RequestView {
        RequestView {
            url: self.url@,
            method: method_token(self.method),
            headers: pairs_view(self.headers@),
            body: match self.body {
                Some(b) => Some(b@),
                None => None,
            },
            params: pairs_view(self.params@),
        }
    }
}

/// How many seconds a request may take.
pub const REQUEST_TIMEOUT_SECONDS: u64 = 30;

impl HttpMethod {
    /// The token that stands for the verb on the wire.
    pub open spec fn token(self) -> Seq<char> {
        match self {
            HttpMethod::GET => "GET"@,
            HttpMethod::POST => "POST"@,
            HttpMethod::PUT => "PUT"@,
            HttpMethod::DELETE => "DELETE"@,
        }
    }

    /// The verb that a token stands for, if it is one of the four.
    pub open spec fn of_token(token: Seq<char>) -> Option<HttpMethod> {
        if token == "GET"@ {
            Some(HttpMethod::GET)
        } else if token == "POST"@ {
            Some(HttpMethod::POST)
        } else if token == "PUT"@ {
            Some(HttpMethod::PUT)
        } else if token == "DELETE"@ {
            Some(HttpMethod::DELETE)
        } else {
            None
        }
    }

    /// The verb's place in the method list, from 0 to 3.
    pub open spec fn index(self) -> usize {
        match self {
            HttpMethod::GET => 0,
            HttpMethod::POST => 1,
            HttpMethod::PUT => 2,
            HttpMethod::DELETE => 3,
        }
    }

    /// The verb at a place in the method list. Places beyond the list give
    /// the first verb.
    pub open spec fn at_index(index: usize) -> HttpMethod {
        if index == 1 {
            HttpMethod::POST
        } else if index == 2 {
            HttpMethod::PUT
        } else if index == 3 {
            HttpMethod::DELETE
        } else {
            HttpMethod::GET
        }
    }

    /// The verb's token as text.
    pub fn as_str(&self) -> (r: &'static str)
        ensures
            r@ == self.token(),
    {
        match self {
            HttpMethod::GET => "GET",
            HttpMethod::POST => "POST",
            HttpMethod::PUT => "PUT",
            HttpMethod::DELETE => "DELETE",
        }
    }

    /// The verb's place in the method list.
    pub fn to_index(&self) -> (r: usize)
        ensures
            r == self.index(),
    {
        match self {
            HttpMethod::GET => 0,
            HttpMethod::POST => 1,
            HttpMethod::PUT => 2,
            HttpMethod::DELETE => 3,
        }
    }

    /// The verb at a place in the method list.
    pub fn from_index(index: usize) -> (r: HttpMethod)
        ensures
            r == HttpMethod::at_index(index),
    {
        if index == 1 {
            HttpMethod::POST
        } else if index == 2 {
            HttpMethod::PUT
        } else if index == 3 {
            HttpMethod::DELETE
        } else {
            HttpMethod::GET
        }
    }

    /// The verb that a token stands for, if it is one of the four. Tokens
    /// are compared as they stand: `get` is no verb.
    pub fn from_token(token: &str) -> (r: Option<HttpMethod>)
        ensures
            r == HttpMethod::of_token(token@),
    {
        if same_text(token, "GET") {
            Some(HttpMethod::GET)
        } else if same_text(token, "POST") {
            Some(HttpMethod::POST)
        } else if same_text(token, "PUT") {
            Some(HttpMethod::PUT)
        } else if same_text(token, "DELETE") {
            Some(HttpMethod::DELETE)
        } else {
            None
        }
    }

    /// The tokens of the four verbs differ, so a verb can be read back from
    /// its token.
    pub proof fn lemma_token_round_trip(self)
        ensures
            HttpMethod::of_token(self.token()) == Some(self),
    {
        reveal_strlit("GET");
        reveal_strlit("POST");
        reveal_strlit("PUT");
        reveal_strlit("DELETE");
        assert("GET"@.len() == 3);
        assert("POST"@.len() == 4);
        assert("PUT"@.len() == 3);
        assert("DELETE"@.len() == 6);
        assert("GET"@[0] == 'G');
        assert("PUT"@[0] == 'P');
    }

    /// A place in the method list leads to its verb and back.
    pub proof fn lemma_index_round_trip(self)
        ensures
            HttpMethod::at_index(self.index()) == self,
            self.index() <= 3,
    {
    }
}

/// What is wrong with a URL, in words, or `None` for a URL that can be
/// sent to: one that is not blank and starts with `http://` or `https://`.
pub open spec fn url_fault(url: Seq<char>) -> Option<Seq<char>> {
    if is_blank(url) {
        Some("URL cannot be empty"@)
    } else if !("http://"@.is_prefix_of(url) || "https://"@.is_prefix_of(url)) {
        Some("URL must start with http:// or https://, got: "@ + url)
    } else {
        None
    }
}

/// What is wrong with a header, in words, or `None` for a header that can
/// be sent: the key is not blank, and neither key nor value holds a line
/// break.
pub open spec fn header_fault(key: Seq<char>, value: Seq<char>) -> Option<Seq<char>> {
    if is_blank(key) {
        Some("Header key cannot be empty"@)
    } else if has_line_break(key) {
        Some("Header key cannot contain newlines"@)
    } else if has_line_break(value) {
        Some("Header value cannot contain newlines"@)
    } else {
        None
    }
}

/// The first header of the list that has a fault, as its key and the fault.
pub open spec fn first_header_fault(headers: Seq<(Seq<char>, Seq<char>)>) -> Option<
    (Seq<char>, Seq<char>),
>
    decreases headers.len(),
{
    if headers.len() == 0 {
        None
    } else {
        match header_fault(headers[0].0, headers[0].1) {
            Some(fault) => Some((headers[0].0, fault)),
            None => first_header_fault(headers.drop_first()),
        }
    }
}

/// The key of the first parameter whose key is blank.
pub open spec fn first_blank_key(params: Seq<(Seq<char>, Seq<char>)>) -> Option<Seq<char>>
    decreases params.len(),
{
    if params.len() == 0 {
        None
    } else if is_blank(params[0].0) {
        Some(params[0].0)
    } else {
        first_blank_key(params.drop_first())
    }
}

/// One parameter as it stands in a query string.
pub open spec fn query_pair(param: (Seq<char>, Seq<char>)) -> Seq<char> {
    percent_encoded(param.0) + "="@ + percent_encoded(param.1)
}

/// The parameters as they stand in a query string, one text each.
pub open spec fn query_pairs(params: Seq<(Seq<char>, Seq<char>)>) -> Seq<Seq<char>> {
    Seq::new(params.len(), |i: int| query_pair(params[i]))
}

/// The query string of a list of parameters: `key=value` joined by `&`,
/// keys and values percent-encoded each for itself.
pub open spec fn query_string(params: Seq<(Seq<char>, Seq<char>)>) -> Seq<char> {
    join(query_pairs(params), "&"@)
}

/// The URL that a request goes to: the base as it stands, then the query
/// string behind `?`, or behind `&` where the base holds a `?` already.
/// Without parameters it is the base.
pub open spec fn url_with_params(base: Seq<char>, params: Seq<(Seq<char>, Seq<char>)>) -> Seq<
    char,
> {
    if params.len() == 0 {
        base
    } else if base.contains('?') {
        base + "&"@ + query_string(params)
    } else {
        base + "?"@ + query_string(params)
    }
}

/// What keeps a request from going out: a fault of the URL, in words; the
/// key of a faulty header and its fault, in words; or the blank key of a
/// parameter.
pub enum DispatchFault {
    Url(Seq<char>),
    Header(Seq<char>, Seq<char>),
    Parameter(Seq<char>),
}

/// The URL that a request goes to, or what keeps it from going out. The
/// URL is looked at first, then the headers in their order, then the
/// parameters in theirs.
pub open spec fn target_url_of(req: RequestView) -> Result<Seq<char>, DispatchFault> {
    match url_fault(req.url) {
        Some(fault) => Err(DispatchFault::Url(fault)),
        None => match first_header_fault(req.headers) {
            Some((key, fault)) => Err(DispatchFault::Header(key, fault)),
            None => match first_blank_key(req.params) {
                Some(key) => Err(DispatchFault::Parameter(key)),
                None => Ok(url_with_params(req.url, req.params)),
            },
        },
    }
}

/// One header of a response as a line of text. A value that is no text is
/// replaced by a fixed mark.
pub open spec fn header_line(name: Seq<char>, value: Option<Seq<char>>) -> Seq<char> {
    name + ": "@ + match value {
        Some(v) => v,
        None => "<invalid-header-value>"@,
    }
}

/// The headers of a response as lines of text.
pub open spec fn header_lines(headers: Seq<(String, Option<String>)>) -> Seq<Seq<char>> {
    Seq::new(
        headers.len(),
        |i: int|
            header_line(
                headers[i].0@,
                match headers[i].1 {
                    Some(v) => Some(v@),
                    None => None,
                },
            ),
    )
}

/// Looks for a fault in a URL.
pub fn check_url(url: &str) -> (r: Option<String>)
    ensures
        match url_fault(url@) {
            Some(fault) => r matches Some(t) && t@ == fault,
            None => r is None,
        },
{
    if is_blank_text(url) {
        Some(String::from_str("URL cannot be empty"))
    } else if !starts_with(url, "http://") && !starts_with(url, "https://") {
        Some(concat_str("URL must start with http:// or https://, got: ", url))
    } else {
        None
    }
}

/// Looks for a fault in a header.
pub fn check_header(key: &str, value: &str) -> (r: Option<&'static str>)
    ensures
        match header_fault(key@, value@) {
            Some(fault) => r matches Some(t) && t@ == fault,
            None => r is None,
        },
{
    if is_blank_text(key) {
        Some("Header key cannot be empty")
    } else if contains_line_break(key) {
        Some("Header key cannot contain newlines")
    } else if contains_line_break(value) {
        Some("Header value cannot contain newlines")
    } else {
        None
    }
}

/// Looks for the first header with a fault.
pub fn find_header_fault(headers: &Vec<(String, String)>) -> (r: Option<(usize, &'static str)>)
    ensures
        match first_header_fault(pairs_view(headers@)) {
            Some((key, fault)) => r matches Some((i, t)) && i < headers.len() && headers@[i as int].0@
                == key && t@ == fault,
            None => r is None,
        },
{
    let ghost all = pairs_view(headers@);
    let mut i: usize = 0;
    assert(all.skip(0) =~= all);
    while i < headers.len()
        invariant
            i <= headers.len(),
            all == pairs_view(headers@),
            first_header_fault(all) == first_header_fault(all.skip(i as int)),
        decreases headers.len() - i,
    {
        let ghost rest = all.skip(i as int);
        assert(rest[0] == all[i as int]);
        assert(rest.drop_first() =~= all.skip(i + 1));
        match check_header(headers[i].0.as_str(), headers[i].1.as_str()) {
            Some(fault) => {
                return Some((i, fault));
            },
            None => {},
        }
        i = i + 1;
    }
    assert(all.skip(i as int).len() == 0);
    None
}

/// Looks for the first parameter whose key is blank.
pub fn find_blank_key(params: &Vec<(String, String)>) -> (r: Option<usize>)
    ensures
        match first_blank_key(pairs_view(params@)) {
            Some(key) => r matches Some(i) && i < params.len() && params@[i as int].0@ == key,
            None => r is None,
        },
{
    let ghost all = pairs_view(params@);
    let mut i: usize = 0;
    assert(all.skip(0) =~= all);
    while i < params.len()
        invariant
            i <= params.len(),
            all == pairs_view(params@),
            first_blank_key(all) == first_blank_key(all.skip(i as int)),
        decreases params.len() - i,
    {
        let ghost rest = all.skip(i as int);
        assert(rest[0] == all[i as int]);
        assert(rest.drop_first() =~= all.skip(i + 1));
        if is_blank_text(params[i].0.as_str()) {
            return Some(i);
        }
        i = i + 1;
    }
    assert(all.skip(i as int).len() == 0);
    None
}

/// Writes the parameters as a query string.
pub fn build_query_string(params: &Vec<(String, String)>) -> (r: String)
    ensures
        r@ == query_string(pairs_view(params@)),
{
    let ghost all = query_pairs(pairs_view(params@));
    let mut out = String::new();
    let mut i: usize = 0;
    proof {
        if all.len() > 0 {
            lemma_join_next(all, "&"@, 0);
        }
    }
    while i < params.len()
        invariant
            i <= params.len(),
            all == query_pairs(pairs_view(params@)),
            out@ == join(all.take(i as int), "&"@),
        decreases params.len() - i,
    {
        let mut pair = url_encode(params[i].0.as_str());
        let value = url_encode(params[i].1.as_str());
        pair.append("=");
        pair.append(value.as_str());
        assert(pair@ == all[i as int]);
        if i > 0 {
            out.append("&");
        }
        out.append(pair.as_str());
        proof {
            lemma_join_next(all, "&"@, i as int);
            assert(Seq::<char>::empty() + pair@ =~= pair@);
        }
        i = i + 1;
    }
    assert(all.take(all.len() as int) =~= all);
    out
}

/// Appends the parameters to a URL as its query string. A parameter with a
/// blank key is refused.
pub fn build_url_with_params(base_url: &str, params: &Vec<(String, String)>) -> (r: Result<
    String,
    RequestError,
>)
    ensures
        match first_blank_key(pairs_view(params@)) {
            Some(key) => r matches Err(RequestError::InvalidHeader { key: k, value: v }) && k@
                == key && v@ == "Parameter key cannot be empty"@,
            None => r matches Ok(url) && url@ == url_with_params(base_url@, pairs_view(params@)),
        },
{
    match find_blank_key(params) {
        Some(i) => {
            return Err(
                RequestError::invalid_header(
                    params[i].0.as_str(),
                    "Parameter key cannot be empty",
                ),
            );
        },
        None => {},
    }
    let mut url = String::from_str(base_url);
    if params.len() == 0 {
        return Ok(url);
    }
    if contains_char(base_url, '?') {
        url.append("&");
    } else {
        url.append("?");
    }
    let query = build_query_string(params);
    url.append(query.as_str());
    Ok(url)
}

/// The kinds of a failed exchange.
#[derive(Debug, Clone, Copy, PartialEq, Eq, Structural)]
pub enum FailureKind {
    Timeout,
    Connection,
    Other,
}

/// The kind of a failed exchange, given what the transport says of it. A
/// timeout is a timeout even where the connection failed too.
pub open spec fn kind_of_failure(timed_out: bool, connect_failed: bool) -> FailureKind {
    if timed_out {
        FailureKind::Timeout
    } else if connect_failed {
        FailureKind::Connection
    } else {
        FailureKind::Other
    }
}

/// The kind of a failed exchange, given what the transport says of it.
pub fn failure_kind(timed_out: bool, connect_failed: bool) -> (r: FailureKind)
    ensures
        r == kind_of_failure(timed_out, connect_failed),
{
    if timed_out {
        FailureKind::Timeout
    } else if connect_failed {
        FailureKind::Connection
    } else {
        FailureKind::Other
    }
}

/// Sorts a failed exchange into its kind: a timeout, a failed connection,
/// or any other failure of the transport.
pub fn classify_transport_error(e: reqwest::Error) -> (r: RequestError)
    ensures
        match kind_of_failure(is_timeout_error(e), is_connect_error(e)) {
            FailureKind::Timeout => r == (RequestError::Timeout {
                seconds: REQUEST_TIMEOUT_SECONDS,
            }),
            FailureKind::Connection => r matches RequestError::Connection { message } && message@
                == "Connection failed: "@ + transport_error_text(e),
            FailureKind::Other => r == RequestError::Http(e),
        },
{
    match failure_kind(e.is_timeout(), e.is_connect()) {
        FailureKind::Timeout => RequestError::timeout(REQUEST_TIMEOUT_SECONDS),
        FailureKind::Connection => {
            let text = transport_error_to_string(&e);
            RequestError::Connection { message: concat_str("Connection failed: ", text.as_str()) }
        },
        FailureKind::Other => RequestError::Http(e),
    }
}

/// The error for a client that could not be set up.
pub fn client_setup_error(e: &reqwest::Error) -> (r: RequestError)
    ensures
        r matches RequestError::Connection { message } && message@
            == "Failed to create HTTP client: "@ + transport_error_text(*e),
{
    let text = transport_error_to_string(e);
    RequestError::Connection { message: concat_str("Failed to create HTTP client: ", text.as_str()) }
}

/// Writes the headers of a response as `Name: value` lines, joined by line
/// feeds.
pub fn join_header_lines(headers: &Vec<(String, Option<String>)>) -> (r: String)
    ensures
        r@ == join(header_lines(headers@), "\n"@),
{
    let ghost all = header_lines(headers@);
    let mut out = String::new();
    let mut i: usize = 0;
    proof {
        if all.len() > 0 {
            lemma_join_next(all, "\n"@, 0);
        }
    }
    while i < headers.len()
        invariant
            i <= headers.len(),
            all == header_lines(headers@),
            out@ == join(all.take(i as int), "\n"@),
        decreases headers.len() - i,
    {
        let mut line = concat_str(headers[i].0.as_str(), ": ");
        match &headers[i].1 {
            Some(v) => {
                line.append(v.as_str());
            },
            None => {
                line.append("<invalid-header-value>");
            },
        }
        assert(line@ == all[i as int]);
        if i > 0 {
            out.append("\n");
        }
        out.append(line.as_str());
        proof {
            lemma_join_next(all, "\n"@, i as int);
            assert(Seq::<char>::empty() + line@ =~= line@);
        }
        i = i + 1;
    }
    assert(all.take(all.len() as int) =~= all);
    out
}

impl Request {
    /// Checks the URL of the request.
    pub fn validate_url(&self) -> (r: Result<(), RequestError>)
        ensures
            match url_fault(self@.url) {
                Some(fault) => r matches Err(RequestError::InvalidUrl { url }) && url@ == fault,
                None => r is Ok,
            },
    {
        match check_url(self.url.as_str()) {
            Some(fault) => Err(RequestError::InvalidUrl { url: fault }),
            None => Ok(()),
        }
    }

    /// Checks the headers of the request, in order. The first fault found
    /// is reported with the key of its header.
    pub fn validate_headers(&self) -> (r: Result<(), RequestError>)
        ensures
            match first_header_fault(self@.headers) {
                Some((key, fault)) => r matches Err(RequestError::InvalidHeader { key: k, value: v })
                    && k@ == key && v@ == fault,
                None => r is Ok,
            },
    {
        match find_header_fault(&self.headers) {
            Some((i, fault)) => Err(
                RequestError::invalid_header(self.headers[i].0.as_str(), fault),
            ),
            None => Ok(()),
        }
    }

    /// Checks the request and assembles the URL that it goes to. This is
    /// all that happens to a request before it is handed to the transport.
    pub fn target_url(&self) -> (r: Result<String, RequestError>)
        ensures
            match target_url_of(self@) {
                Ok(url) => r matches Ok(u) && u@ == url,
                Err(DispatchFault::Url(fault)) => r matches Err(RequestError::InvalidUrl { url })
                    && url@ == fault,
                Err(DispatchFault::Header(key, fault)) => r matches Err(
                    RequestError::InvalidHeader { key: k, value: v },
                ) && k@ == key && v@ == fault,
                Err(DispatchFault::Parameter(key)) => r matches Err(
                    RequestError::InvalidHeader { key: k, value: v },
                ) && k@ == key && v@ == "Parameter key cannot be empty"@,
            },
    {
        match self.validate_url() {
            Err(e) => {
                return Err(e);
            },
            Ok(()) => {},
        }
        match self.validate_headers() {
            Err(e) => {
                return Err(e);
            },
            Ok(()) => {},
        }
        build_url_with_params(self.url.as_str(), &self.params)
    }
}

impl From<&HttpMethod> for reqwest::Method {
    /// The transport's method with the verb's token.
    fn from(method: &HttpMethod) -> (r: reqwest::Method)
        ensures
            method_token(r) == method.token(),
    {
        match method {
            HttpMethod::GET => method_get(),
            HttpMethod::POST => method_post(),
            HttpMethod::PUT => method_put(),
            HttpMethod::DELETE => method_delete(),
        }
    }
}

/// The transport's method is opaque, so the result is stated over its token
/// on `from` itself and not by `from_spec`.
impl vstd::std_specs::convert::FromSpecImpl<&HttpMethod> for reqwest::Method {
    open spec fn obeys_from_spec() -> bool {
        false
    }

    open spec fn from_spec(method: &HttpMethod) -> reqwest::Method {
        arbitrary()
    }
}

impl TryFrom<&reqwest::Method> for HttpMethod {
    type Error = RestlessError;

    /// The verb of a transport method. A method that is none of the four
    /// is refused, with its token in the error.
    fn try_from(method: &reqwest::Method) -> (r: Result<HttpMethod, RestlessError>)
        ensures
            match HttpMethod::of_token(method_token(*method)) {
                Some(m) => r == Ok::<HttpMethod, RestlessError>(m),
                None => r matches Err(RestlessError::InvalidHttpMethod { method: t }) && t@
                    == method_token(*method),
            },
    {
        let token = method.as_str();
        match HttpMethod::from_token(token) {
            Some(m) => Ok(m),
            None => Err(RestlessError::invalid_http_method(token)),
        }
    }
}

/// The error of a refused method holds a new string, so the result is stated
/// on `try_from` itself and not by `try_from_spec`.
impl vstd::std_specs::convert::TryFromSpecImpl<&reqwest::Method> for HttpMethod {
    open spec fn obeys_try_from_spec() -> bool {
        false
    }

    open spec fn try_from_spec(method: &reqwest::Method) -> Result<HttpMethod, RestlessError> {
        arbitrary()
    }
}

} // verus!
