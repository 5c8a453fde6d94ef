//! One tab: a named slot for a request and the response to it.

use vstd::prelude::*;
use crate::logic::request::{HttpMethod, Request, RequestView};
use crate::logic::response::{Response, ResponseView};

verus! {

/// A tab of the application.
pub struct Tab {
    pub name: String,
    pub request: Request,
    pub response: Option<Response>,
}

/// The model of a tab.
pub struct TabView {
    pub name: Seq<char>,
    pub request: RequestView,
    pub response: Option<ResponseView>,
}

impl View for Tab {
    type V = TabView;

    open spec fn view(&self) -> TabView {
        TabView {
            name: self.name@,
            request: self.request@,
            response: match self.response {
                Some(r) => Some(r@),
                None => None,
            },
        }
    }
}

impl TabView {
    /// A tab as it is when it has just been opened: a `GET` request to
    /// `url` without headers, parameters or body, and no response.
    pub open spec fn fresh(name: Seq<char>, url: Seq<char>) -> TabView {
        TabView {
            name,
            request: RequestView {
                url,
                method: HttpMethod::GET.token(),
                headers: Seq::empty(),
                body: None,
                params: Seq::empty(),
            },
            response: None,
        }
    }
}

/// The views of a list of tabs.
pub open spec fn tabs_view(tabs: Seq<Tab>) -> Seq<TabView> {
    Seq::new(tabs.len(), |i: int| tabs[i]@)
}

impl Tab {
    /// Opens a tab.
    pub fn new(name: String, url: String) -> (r: Tab)
        ensures
            r@ == TabView::fresh(name@, url@),
    {
        let headers: Vec<(String, String)> = Vec::new();
        let params: Vec<(String, String)> = Vec::new();
        let r = Tab {
            name,
            request: Request {
                url,
                method: reqwest::Method::from(&HttpMethod::GET),
                headers,
                body: None,
                params,
            },
            response: None,
        };
        assert(r@.request.headers =~= Seq::empty());
        assert(r@.request.params =~= Seq::empty());
        r
    }

    /// The verb of the tab's request; `GET` where the request holds a
    /// method that is none of the four.
    pub fn method(&self) -> (r: HttpMethod)
        ensures
            r == match HttpMethod::of_token(self@.request.method) {
                Some(m) => m,
                None => HttpMethod::GET,
            },
    {
        match HttpMethod::try_from(&self.request.method) {
            Ok(m) => m,
            Err(_) => HttpMethod::GET,
        }
    }

    /// The URL of the tab's request.
    pub fn url(&self) -> (r: &str)
        ensures
            r@ == self@.request.url,
    {
        self.request.url.as_str()
    }
}

} // verus!
