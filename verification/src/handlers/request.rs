//! The request actions: what happens around the sending of the selected
//! tab's request. The exchange itself is the caller's part; these
//! functions decide what is sent and what becomes of the answer.

use vstd::prelude::*;
use crate::app::app::{App, AppView};
use crate::app::tab::{tabs_view, TabView};
use crate::error::{RequestError, ResponseError, RestlessError};
use crate::handlers::{KeyAction, KeyActionView};
use crate::handlers::keyboard::validation_message;
use crate::json::json_error_text;
use crate::logic::request::HttpMethod;
use crate::logic::response::{
    empty_key_message, find_header_named, first_header_named, formatted_body,
    lemma_strict_response_is_lenient, lenient_response,
    parse_headers, Response, ResponseView,
};
use crate::text::{
    concat_str, decimal, format_decimal, is_blank, is_blank_text, lowercase, pairs_view, same_text,
};

verus! {

/// The committed headers without those whose key, in lower case, is
/// `name`.
pub open spec fn without_headers_named(headers: Seq<(Seq<char>, Seq<char>)>, name: Seq<char>) -> Seq<
    (Seq<char>, Seq<char>),
>
    decreases headers.len(),
{
    if headers.len() == 0 {
        Seq::empty()
    } else {
        let rest = without_headers_named(headers.drop_last(), name);
        if lowercase(headers.last().0) == name {
            rest
        } else {
            rest.push(headers.last())
        }
    }
}

/// One line about the request in the edit buffers.
pub open spec fn request_info(s: AppView) -> Seq<char> {
    s.selected_method.token() + " "@ + (if s.url_input.len() == 0 {
        "<no URL>"@
    } else {
        s.url_input
    }) + " (Headers: "@ + decimal(s.headers_input.len()) + ", Params: "@ + decimal(
        s.params_input.len(),
    ) + ", Body: "@ + (if s.body_input.len() == 0 {
        "No"@
    } else {
        "Yes"@
    }) + ")"@
}

/// The state with `response` kept in the tab at `index`.
pub open spec fn with_response(s: AppView, index: int, response: Option<ResponseView>) -> AppView
    recommends
        0 <= index < s.tabs.len(),
{
    AppView { tabs: s.tabs.update(index, TabView { response, ..s.tabs[index] }), ..s }
}

/// The words about a response that was kept though it could not be read
/// in full: the fault of the header blob where it has one, else that of
/// the body. `None` where the response could be read.
pub open spec fn response_fault(headers: Seq<char>, body: Seq<char>) -> Option<Seq<char>> {
    match parse_headers(headers) {
        Err((n, line)) => Some("Invalid response headers: "@ + empty_key_message(n, line)),
        Ok(_) => match formatted_body(body) {
            Err(e) => Some("JSON formatting error: "@ + json_error_text(e)),
            Ok(_) => None,
        },
    }
}

/// Checks the edit buffers, writes them into the selected tab, and says
/// whether the tab's request is to be sent.
pub fn send_current_request(app: &mut App) -> (r: Result<KeyAction, RestlessError>)
    ensures
        match validation_message(old(app)@) {
            Some(text) => final(app)@ == old(app)@ && (r matches Ok(action) && action@
                == KeyActionView::Done(Some(text))),
            None => if old(app)@.selected_tab < old(app)@.tabs.len() {
                final(app)@ == old(app)@.saved() && (r matches Ok(action) && action@
                    == KeyActionView::Send)
            } else {
                final(app)@ == old(app)@ && (r matches Ok(action) && action@
                    == KeyActionView::Done(Some("Invalid tab index"@)))
            },
        },
        old(app)@.wf() ==> final(app)@.wf(),
        old(app)@.verbs_known() ==> final(app)@.verbs_known(),
{
    match app.validate_current_request() {
        Err(e) => {
            let text = e.to_string();
            return Ok(KeyAction::Done(Some(concat_str("Validation error: ", text.as_str()))));
        },
        Ok(()) => {},
    }
    if app.selected_tab >= app.tabs.len() {
        return Ok(KeyAction::Done(Some(String::from_str("Invalid tab index"))));
    }
    match sync_request_with_app_state(app) {
        Err(e) => Err(e),
        Ok(()) => Ok(KeyAction::Send),
    }
}

/// Writes the edit buffers into the selected tab's request.
pub fn sync_request_with_app_state(app: &mut App) -> (r: Result<(), RestlessError>)
    ensures
        old(app)@.selected_tab < old(app)@.tabs.len() ==> r is Ok && final(app)@ == old(app)@.saved(),
        old(app)@.selected_tab >= old(app)@.tabs.len() ==> final(app)@ == old(app)@ && (
        r matches Err(RestlessError::AppState { message }) && message@ == "Invalid tab index"@),
        old(app)@.wf() ==> final(app)@.wf(),
        old(app)@.verbs_known() ==> final(app)@.verbs_known(),
{
    if app.selected_tab >= app.tabs.len() {
        return Err(RestlessError::app_state("Invalid tab index"));
    }
    app.save_current_tab_state()
}

/// Keeps the answer of the server in the tab at `tab_index`. An answer
/// that cannot be read in full is kept as far as it can be read, and a
/// warning says what was wrong.
pub fn handle_successful_response(
    app: &mut App,
    tab_index: usize,
    status_code: u16,
    headers: String,
    body: String,
) -> (r: Result<Option<String>, RestlessError>)
    requires
        tab_index < old(app).tabs.len(),
    ensures
        final(app)@ == with_response(
            old(app)@,
            tab_index as int,
            Some(lenient_response(status_code, headers@, body@)),
        ),
        match response_fault(headers@, body@) {
            None => r matches Ok(None),
            Some(fault) => r matches Ok(Some(msg)) && msg@ == "Response parsing warning: "@
                + fault,
        },
        old(app)@.wf() ==> final(app)@.wf(),
        old(app)@.verbs_known() ==> final(app)@.verbs_known(),
{
    let (response, fault) = read_response(status_code, headers, body);
    let ghost before = tabs_view(app.tabs@);
    app.tabs[tab_index].response = Some(response);
    proof {
        assert(tabs_view(app.tabs@) =~= before.update(
            tab_index as int,
            TabView { response: Some(response@), ..before[tab_index as int] },
        ));
        if old(app)@.verbs_known() {
            assert forall|j: int| 0 <= j < app@.tabs.len() implies HttpMethod::of_token(
                #[trigger] app@.tabs[j].request.method,
            ) is Some by {
                assert(app@.tabs[j].request == old(app)@.tabs[j].request);
            }
        }
    }
    match fault {
        None => Ok(None),
        Some(e) => {
            let text = e.to_string();
            Ok(Some(concat_str("Response parsing warning: ", text.as_str())))
        },
    }
}

/// Builds the response that is kept for an answer of the server: the
/// strict reading where it succeeds, otherwise the lenient one together
/// with the error of the strict one.
pub fn read_response(status_code: u16, headers: String, body: String) -> (r: (
    Response,
    Option<ResponseError>,
))
    ensures
        r.0@ == lenient_response(status_code, headers@, body@),
        match parse_headers(headers@) {
            Err((n, line)) => r.1 matches Some(ResponseError::HeaderParsing(msg)) && msg@
                == empty_key_message(n, line),
            Ok(_) => match formatted_body(body@) {
                Err(e) => r.1 matches Some(ResponseError::JsonFormatting(x)) && x == e,
                Ok(_) => r.1 is None,
            },
        },
{
    match Response::new(status_code, headers.clone(), body.clone()) {
        Ok(response) => {
            proof {
                lemma_strict_response_is_lenient(status_code, headers@, body@);
            }
            (response, None)
        },
        Err(e) => (Response::new_unchecked(status_code, headers, body), Some(e)),
    }
}

/// The message for a request that could not be exchanged.
pub fn handle_request_error(error: RequestError) -> (r: Result<Option<String>, RestlessError>)
    ensures
        r matches Ok(Some(msg)) && msg@ == "Request failed: "@ + ("Application state error: "@
            + error.text()),
{
    let restless_error = RestlessError::AppState { message: error.to_string() };
    let text = restless_error.to_string();
    Ok(Some(concat_str("Request failed: ", text.as_str())))
}

/// Checks that the edit buffers hold what a request cannot do without: a
/// URL.
pub fn validate_request_completeness(app: &App) -> (r: Result<(), RestlessError>)
    ensures
        is_blank(app@.url_input) ==> (r matches Err(RestlessError::InvalidUrl { url }) && url@
            == "URL cannot be empty"@),
        !is_blank(app@.url_input) ==> r is Ok,
{
    if is_blank_text(app.url_input.as_str()) {
        return Err(RestlessError::invalid_url("URL cannot be empty"));
    }
    Ok(())
}

/// Drops the response of the selected tab.
pub fn clear_current_response(app: &mut App) -> (r: Result<(), RestlessError>)
    ensures
        old(app)@.selected_tab < old(app)@.tabs.len() ==> r is Ok && final(app)@ == with_response(
            old(app)@,
            old(app)@.selected_tab as int,
            None,
        ),
        old(app)@.selected_tab >= old(app)@.tabs.len() ==> final(app)@ == old(app)@ && (
        r matches Err(RestlessError::AppState { message }) && message@ == "Invalid tab index"@),
        old(app)@.wf() ==> final(app)@.wf(),
        old(app)@.verbs_known() ==> final(app)@.verbs_known(),
{
    if app.selected_tab >= app.tabs.len() {
        return Err(RestlessError::app_state("Invalid tab index"));
    }
    let i = app.selected_tab;
    let ghost before = tabs_view(app.tabs@);
    app.tabs[i].response = None;
    proof {
        assert(tabs_view(app.tabs@) =~= before.update(
            i as int,
            TabView { response: None, ..before[i as int] },
        ));
        if old(app)@.verbs_known() {
            assert forall|j: int| 0 <= j < app@.tabs.len() implies HttpMethod::of_token(
                #[trigger] app@.tabs[j].request.method,
            ) is Some by {
                assert(app@.tabs[j].request == old(app)@.tabs[j].request);
            }
        }
    }
    Ok(())
}

/// The value of the first committed `Content-Type` header, whatever the
/// case of its key.
pub fn get_request_content_type(app: &App) -> (r: Option<String>)
    ensures
        ({
            let i = first_header_named(app@.headers_input, "content-type"@);
            if i < app@.headers_input.len() {
                r matches Some(v) && v@ == app@.headers_input[i].1
            } else {
                r is None
            }
        }),
{
    let i = find_header_named(&app.headers_input, "content-type");
    if i < app.headers_input.len() {
        Some(app.headers_input[i].1.clone())
    } else {
        None
    }
}

/// Replaces every committed `Content-Type` header, whatever the case of
/// its key, by one at the end of the list.
pub fn set_request_content_type(app: &mut App, content_type: &str) -> (r: Result<
    (),
    RestlessError,
>)
    ensures
        r is Ok,
        final(app)@ == (AppView {
            headers_input: without_headers_named(old(app)@.headers_input, "content-type"@).push(
                ("Content-Type"@, content_type@),
            ),
            ..old(app)@
        }),
        old(app)@.wf() ==> final(app)@.wf(),
{
    let ghost all = pairs_view(app.headers_input@);
    let mut kept: Vec<(String, String)> = Vec::new();
    let mut i: usize = 0;
    assert(all.take(0) =~= Seq::empty());
    assert(pairs_view(kept@) =~= Seq::empty());
    while i < app.headers_input.len()
        invariant
            i <= app.headers_input.len(),
            all == pairs_view(app.headers_input@),
            *app == *old(app),
            pairs_view(kept@) == without_headers_named(all.take(i as int), "content-type"@),
        decreases app.headers_input.len() - i,
    {
        let ghost before = pairs_view(kept@);
        assert(all.take(i + 1).drop_last() =~= all.take(i as int));
        assert(all.take(i + 1).last() == all[i as int]);
        let key = app.headers_input[i].0.as_str().to_lowercase();
        if !same_text(key.as_str(), "content-type") {
            let k = app.headers_input[i].0.clone();
            let v = app.headers_input[i].1.clone();
            kept.push((k, v));
            assert(pairs_view(kept@) =~= before.push(all[i as int]));
        }
        i = i + 1;
    }
    assert(all.take(all.len() as int) =~= all);
    let ghost before = pairs_view(kept@);
    kept.push((String::from_str("Content-Type"), String::from_str(content_type)));
    assert(pairs_view(kept@) =~= before.push(("Content-Type"@, content_type@)));
    app.headers_input = kept;
    Ok(())
}

/// One line about the request in the edit buffers.
pub fn format_request_info(app: &App) -> (r: String)
    ensures
        r@ == request_info(app@),
{
    let mut r = String::from_str(app.selected_method.as_str());
    r.append(" ");
    if app.url_input.as_str().is_empty() {
        r.append("<no URL>");
    } else {
        r.append(app.url_input.as_str());
    }
    r.append(" (Headers: ");
    let headers = format_decimal(app.headers_input.len() as u64);
    r.append(headers.as_str());
    r.append(", Params: ");
    let params = format_decimal(app.params_input.len() as u64);
    r.append(params.as_str());
    r.append(", Body: ");
    if app.body_input.as_str().is_empty() {
        r.append("No");
    } else {
        r.append("Yes");
    }
    r.append(")");
    r
}

/// Writes the edit buffers into the selected tab and checks them.
pub fn prepare_request(app: &mut App) -> (r: Result<(), RestlessError>)
    ensures
        old(app)@.selected_tab >= old(app)@.tabs.len() ==> final(app)@ == old(app)@ && (
        r matches Err(RestlessError::AppState { message }) && message@ == "Invalid tab index"@),
        old(app)@.selected_tab < old(app)@.tabs.len() ==> final(app)@ == old(app)@.saved() && (
        r is Ok <==> old(app)@.request_fault() is None),
        old(app)@.wf() ==> final(app)@.wf(),
        old(app)@.verbs_known() ==> final(app)@.verbs_known(),
{
    match sync_request_with_app_state(app) {
        Err(e) => {
            return Err(e);
        },
        Ok(()) => {},
    }
    app.validate_current_request()
}

/// Gives up a request. Nothing is in flight while a key is handled, so
/// nothing changes.
pub fn cancel_request(app: &mut App) -> (r: Result<(), RestlessError>)
    ensures
        r is Ok,
        *final(app) == *old(app),
{
    Ok(())
}

} // verus!
