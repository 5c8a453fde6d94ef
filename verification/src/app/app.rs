//! The application state and the operations on it.

pub use crate::app::model::{
    banner_text, entry_index_message, help_entries, pending_key_fault, pending_pair,
    tab_index_message, AppView, RequestFault, HELP_ENTRY_COUNT,
};

use vstd::prelude::*;
use crate::app::tab::{tabs_view, Tab, TabView};
use crate::error::RestlessError;
use crate::logic::request::{
    check_header, check_url, find_blank_key, find_header_fault, HttpMethod, Request,
};
use crate::text::{
    after_first, before_first, clone_pairs, concat_str, contains_line_break, find_char,
    format_decimal, from_chars, is_blank_text, pairs_view, to_chars, trim_range,
};
use crate::transport::transport_error_to_string;

verus! {

/// The screen that has the focus.
#[derive(Debug, PartialEq, Eq, Copy, Clone, Structural)]
pub enum CurrentScreen {
    Url,
    Values,
    Response,
    EditingUrl,
    EditingBody,
    EditingHeaders,
    EditingParams,
    Help,
    Exiting,
}

/// The part of the values section that is shown.
#[derive(Debug, PartialEq, Eq, Copy, Clone, Structural)]
pub enum ValuesScreen {
    Body,
    Headers,
    Params,
}

/// The whole state of the application.
pub struct App {
    pub current_screen: CurrentScreen,
    pub values_screen: ValuesScreen,
    pub tabs: Vec<Tab>,
    pub selected_tab: usize,
    pub url_input: String,
    pub selected_method: HttpMethod,
    pub method_dropdown_open: bool,
    pub method_dropdown_selected: usize,
    pub body_input: String,
    pub headers_input: Vec<(String, String)>,
    pub params_input: Vec<(String, String)>,
    pub current_header_key: String,
    pub current_header_value: String,
    pub current_param_key: String,
    pub current_param_value: String,
    pub editing_header_index: Option<usize>,
    pub editing_param_index: Option<usize>,
    pub response_tab_selected: usize,
    pub response_scroll: usize,
    pub help_visible: bool,
    pub help_scroll: usize,
    pub previous_screen: CurrentScreen,
}

impl View for App {
    type V = AppView;

    open spec fn view(&self) -> AppView {
        AppView {
            current_screen: self.current_screen,
            values_screen: self.values_screen,
            tabs: tabs_view(self.tabs@),
            selected_tab: self.selected_tab,
            url_input: self.url_input@,
            selected_method: self.selected_method,
            method_dropdown_open: self.method_dropdown_open,
            method_dropdown_selected: self.method_dropdown_selected,
            body_input: self.body_input@,
            headers_input: pairs_view(self.headers_input@),
            params_input: pairs_view(self.params_input@),
            current_header_key: self.current_header_key@,
            current_header_value: self.current_header_value@,
            current_param_key: self.current_param_key@,
            current_param_value: self.current_param_value@,
            editing_header_index: self.editing_header_index,
            editing_param_index: self.editing_param_index,
            response_tab_selected: self.response_tab_selected,
            response_scroll: self.response_scroll,
            help_visible: self.help_visible,
            help_scroll: self.help_scroll,
            previous_screen: self.previous_screen,
        }
    }
}

/// Splits the pending texts of an editor into the pair that they stand for.
pub fn split_pending(key: &str, value: &str, delimiter: char) -> (r: (String, String))
    ensures
        (r.0@, r.1@) == pending_pair(key@, value@, delimiter),
{
    let k = to_chars(key);
    let v = to_chars(value);
    assert(k@.subrange(0, k@.len() as int) =~= k@);
    assert(v@.subrange(0, v@.len() as int) =~= v@);
    let c = find_char(&k, 0, k.len(), delimiter);
    if c < k.len() {
        let (a, b) = trim_range(&k, 0, c);
        assert(k@.subrange(0, c as int) =~= before_first(k@, delimiter));
        let mut rest: Vec<char> = Vec::new();
        let mut i: usize = c + 1;
        while i < k.len()
            invariant
                c + 1 <= i <= k.len(),
                rest@ == k@.subrange(c + 1, i as int),
            decreases k.len() - i,
        {
            rest.push(k[i]);
            i = i + 1;
            assert(k@.subrange(c + 1, i as int) =~= k@.subrange(c + 1, i - 1).push(k@[i - 1]));
        }
        assert(rest@ =~= after_first(k@, delimiter));
        let mut j: usize = 0;
        while j < v.len()
            invariant
                j <= v.len(),
                rest@ == after_first(k@, delimiter) + v@.subrange(0, j as int),
            decreases v.len() - j,
        {
            rest.push(v[j]);
            j = j + 1;
            assert(v@.subrange(0, j as int) =~= v@.subrange(0, j - 1).push(v@[j - 1]));
            assert(rest@ =~= after_first(k@, delimiter) + v@.subrange(0, j as int));
        }
        assert(rest@.subrange(0, rest@.len() as int) =~= rest@);
        let (x, y) = trim_range(&rest, 0, rest.len());
        (from_chars(&k, a, b), from_chars(&rest, x, y))
    } else {
        let (a, b) = trim_range(&k, 0, k.len());
        let (x, y) = trim_range(&v, 0, v.len());
        (from_chars(&k, a, b), from_chars(&v, x, y))
    }
}

/// Writes a message about an index that names no tab.
fn write_tab_index_message(prefix: &str, index: usize, count: usize) -> (r: String)
    ensures
        r@ == tab_index_message(prefix@, index, count as nat),
{
    let a = format_decimal(index as u64);
    let b = format_decimal(count as u64);
    let mut r = concat_str(prefix, a.as_str());
    r.append(" (only ");
    r.append(b.as_str());
    r.append(" tabs exist)");
    r
}

/// Writes a message about an index that names no entry of a list.
fn write_entry_index_message(prefix: &str, index: usize, count: usize, suffix: &str) -> (r:
    String)
    ensures
        r@ == entry_index_message(prefix@, index, count as nat, suffix@),
{
    let a = format_decimal(index as u64);
    let b = format_decimal(count as u64);
    let mut r = concat_str(prefix, a.as_str());
    r.append(": only ");
    r.append(b.as_str());
    r.append(suffix);
    r
}

impl App {
    /// The application at startup: one empty tab, the values section in
    /// focus.
    pub fn new() -> (r: App)
        ensures
            r@ == AppView::initial(),
            r@.wf(),
    {
        let mut tabs: Vec<Tab> = Vec::new();
        tabs.push(Tab::new(String::from_str("Tab 1"), String::new()));
        let headers_input: Vec<(String, String)> = Vec::new();
        let params_input: Vec<(String, String)> = Vec::new();
        let r = App {
            current_screen: CurrentScreen::Values,
            values_screen: ValuesScreen::Body,
            tabs,
            selected_tab: 0,
            url_input: String::new(),
            selected_method: HttpMethod::GET,
            method_dropdown_open: false,
            method_dropdown_selected: 0,
            body_input: String::new(),
            headers_input,
            params_input,
            current_header_key: String::new(),
            current_header_value: String::new(),
            current_param_key: String::new(),
            current_param_value: String::new(),
            editing_header_index: None,
            editing_param_index: None,
            response_tab_selected: 1,
            response_scroll: 0,
            help_visible: false,
            help_scroll: 0,
            previous_screen: CurrentScreen::Values,
        };
        assert(r@.tabs =~= AppView::initial().tabs);
        assert(r@.headers_input =~= Seq::empty());
        assert(r@.params_input =~= Seq::empty());
        r
    }

    /// Commits the pending header. Without a pending key nothing happens.
    /// A pending key text that is blank or holds a line break, and a
    /// header with a fault, are refused, and the pending texts stay.
    pub fn add_header(&mut self) -> (r: Result<(), RestlessError>)
        ensures
            match old(self)@.header_commit() {
                Ok(s) => r is Ok && final(self)@ == s,
                Err(fault) => r matches Err(RestlessError::InvalidHeader { header }) && header@
                    == fault && final(self)@ == old(self)@,
            },
            old(self)@.wf() ==> final(self)@.wf(),
    {
        if self.current_header_key.as_str().is_empty() {
            return Ok(());
        }
        if is_blank_text(self.current_header_key.as_str()) {
            return Err(RestlessError::invalid_header("Header key cannot be empty"));
        }
        if contains_line_break(self.current_header_key.as_str()) {
            return Err(RestlessError::invalid_header("Header key cannot contain newlines"));
        }
        let (key, value) = split_pending(
            self.current_header_key.as_str(),
            self.current_header_value.as_str(),
            ':',
        );
        match check_header(key.as_str(), value.as_str()) {
            Some(fault) => {
                return Err(RestlessError::invalid_header(fault));
            },
            None => {},
        }
        let ghost before = pairs_view(self.headers_input@);
        self.headers_input.push((key, value));
        self.current_header_key = String::new();
        self.current_header_value = String::new();
        assert(pairs_view(self.headers_input@) =~= before.push((key@, value@)));
        Ok(())
    }

    /// Commits the pending parameter. Without a pending key nothing
    /// happens. A parameter with a blank key is refused and the pending
    /// texts stay.
    pub fn add_param(&mut self) -> (r: Result<(), RestlessError>)
        ensures
            match old(self)@.param_commit() {
                Ok(s) => r is Ok && final(self)@ == s,
                Err(fault) => r matches Err(RestlessError::InvalidParameter { param }) && param@
                    == fault && final(self)@ == old(self)@,
            },
            old(self)@.wf() ==> final(self)@.wf(),
    {
        if self.current_param_key.as_str().is_empty() {
            return Ok(());
        }
        let (key, value) = split_pending(
            self.current_param_key.as_str(),
            self.current_param_value.as_str(),
            '=',
        );
        if is_blank_text(key.as_str()) {
            return Err(RestlessError::invalid_parameter("Parameter key cannot be empty"));
        }
        let ghost before = pairs_view(self.params_input@);
        self.params_input.push((key, value));
        self.current_param_key = String::new();
        self.current_param_value = String::new();
        assert(pairs_view(self.params_input@) =~= before.push((key@, value@)));
        Ok(())
    }

    /// Takes the header at `index` out of the committed list.
    pub fn remove_header(&mut self, index: usize) -> (r: Result<(), RestlessError>)
        ensures
            index < old(self)@.headers_input.len() ==> r is Ok && final(self)@ == (AppView {
                headers_input: old(self)@.headers_input.remove(index as int),
                ..old(self)@
            }),
            index >= old(self)@.headers_input.len() ==> final(self)@ == old(self)@ && (
            r matches Err(RestlessError::AppState { message }) && message@ == entry_index_message(
                "Cannot remove header at index "@,
                index,
                old(self)@.headers_input.len(),
                " headers exist"@,
            )),
            old(self)@.wf() ==> final(self)@.wf(),
    {
        if index < self.headers_input.len() {
            let ghost before = pairs_view(self.headers_input@);
            self.headers_input.remove(index);
            assert(pairs_view(self.headers_input@) =~= before.remove(index as int));
            Ok(())
        } else {
            let message = write_entry_index_message(
                "Cannot remove header at index ",
                index,
                self.headers_input.len(),
                " headers exist",
            );
            Err(RestlessError::AppState { message })
        }
    }

    /// Takes the parameter at `index` out of the committed list.
    pub fn remove_param(&mut self, index: usize) -> (r: Result<(), RestlessError>)
        ensures
            index < old(self)@.params_input.len() ==> r is Ok && final(self)@ == (AppView {
                params_input: old(self)@.params_input.remove(index as int),
                ..old(self)@
            }),
            index >= old(self)@.params_input.len() ==> final(self)@ == old(self)@ && (
            r matches Err(RestlessError::AppState { message }) && message@ == entry_index_message(
                "Cannot remove parameter at index "@,
                index,
                old(self)@.params_input.len(),
                " parameters exist"@,
            )),
            old(self)@.wf() ==> final(self)@.wf(),
    {
        if index < self.params_input.len() {
            let ghost before = pairs_view(self.params_input@);
            self.params_input.remove(index);
            assert(pairs_view(self.params_input@) =~= before.remove(index as int));
            Ok(())
        } else {
            let message = write_entry_index_message(
                "Cannot remove parameter at index ",
                index,
                self.params_input.len(),
                " parameters exist",
            );
            Err(RestlessError::AppState { message })
        }
    }

    /// Shows the help overlay over the current screen.
    pub fn show_help(&mut self)
        ensures
            final(self)@ == old(self)@.help_shown(),
            old(self)@.wf() ==> final(self)@.wf(),
    {
        if !self.help_visible {
            self.previous_screen = self.current_screen;
            self.current_screen = CurrentScreen::Help;
            self.help_visible = true;
            self.help_scroll = 0;
        }
    }

    /// Closes the help overlay and goes back to the screen that it covered.
    pub fn hide_help(&mut self)
        ensures
            final(self)@ == old(self)@.help_hidden(),
            old(self)@.wf() ==> final(self)@.wf(),
    {
        if self.help_visible {
            self.current_screen = self.previous_screen;
            self.help_visible = false;
        }
    }

    /// Checks the request in the edit buffers: the URL, then the headers in
    /// order, then the parameters.
    pub fn validate_current_request(&self) -> (r: Result<(), RestlessError>)
        ensures
            match self@.request_fault() {
                None => r is Ok,
                Some(RequestFault::Url(fault)) => r matches Err(RestlessError::InvalidUrl { url })
                    && url@ == fault,
                Some(RequestFault::Header(fault)) => r matches Err(
                    RestlessError::InvalidHeader { header },
                ) && header@ == fault,
                Some(RequestFault::Parameter(fault)) => r matches Err(
                    RestlessError::InvalidParameter { param },
                ) && param@ == fault,
            },
    {
        match check_url(self.url_input.as_str()) {
            Some(fault) => {
                return Err(RestlessError::InvalidUrl { url: fault });
            },
            None => {},
        }
        match find_header_fault(&self.headers_input) {
            Some((_, fault)) => {
                return Err(RestlessError::invalid_header(fault));
            },
            None => {},
        }
        match find_blank_key(&self.params_input) {
            Some(_) => Err(RestlessError::invalid_parameter("Parameter key cannot be empty")),
            None => Ok(()),
        }
    }

    /// The entries of the help screen.
    pub fn get_help_content(&self) -> (r: Vec<(&'static str, &'static str)>)
        ensures
            r@ == help_entries(),
            r.len() == HELP_ENTRY_COUNT,
    {
        let r = vec![
            ("Navigation", ""),
            ("Ctrl+j/k", "Navigate between sections (URL/Values/Response)"),
            ("h/l", "Navigate between Body/Headers/Params in Values"),
            ("", ""),
            ("Tab Management", ""),
            ("t", "Create new tab"),
            ("x", "Close current tab"),
            ("Tab", "Next tab"),
            ("Shift+Tab", "Previous tab"),
            ("", ""),
            ("Editing", ""),
            ("i", "Insert/edit mode (body/headers/params)"),
            ("u", "Edit URL"),
            ("m", "Open method dropdown"),
            ("Enter", "Execute HTTP request"),
            ("Esc", "Exit edit mode"),
            ("", ""),
            ("Response Navigation", ""),
            ("j/k", "Scroll response content"),
            ("h/b", "Switch between Headers/Body"),
            ("", ""),
            ("Application", ""),
            ("?", "Show/hide this help"),
            ("q", "Quit application"),
        ];
        assert(r@ =~= help_entries());
        r
    }

    /// The text that is shown to the user for an error.
    pub fn get_error_message(&self, error: &RestlessError) -> (r: String)
        ensures
            r@ == banner_text(*error),
    {
        match error {
            RestlessError::Network(e) => {
                let text = transport_error_to_string(e);
                concat_str("Network Error: ", text.as_str())
            },
            RestlessError::InvalidUrl { url } => concat_str("Invalid URL: ", url.as_str()),
            RestlessError::InvalidHeader { header } => concat_str("Invalid Header: ", header.as_str()),
            RestlessError::InvalidParameter { param } => concat_str(
                "Invalid Parameter: ",
                param.as_str(),
            ),
            RestlessError::Timeout => String::from_str("Request timed out"),
            RestlessError::Tab { message } => concat_str("Tab Error: ", message.as_str()),
            RestlessError::ResponseParsing { message } => concat_str(
                "Response Error: ",
                message.as_str(),
            ),
            RestlessError::AppState { message } => concat_str("App Error: ", message.as_str()),
            _ => {
                let text = error.to_string();
                concat_str("Error: ", text.as_str())
            },
        }
    }

    /// Writes the edit buffers into the selected tab's request. An empty
    /// body buffer stands for no body.
    pub fn save_current_tab_state(&mut self) -> (r: Result<(), RestlessError>)
        ensures
            final(self)@ == if old(self)@.selected_tab < old(self)@.tabs.len() {
                old(self)@.saved()
            } else {
                old(self)@
            },
            match old(self)@.save_fault() {
                Some(fault) => r matches Err(e) && e is AppState && e.text() == fault,
                None => r is Ok,
            },
            old(self)@.wf() ==> final(self)@.wf(),
            old(self)@.verbs_known() ==> final(self)@.verbs_known(),
    {
        if self.selected_tab < self.tabs.len() {
            let i = self.selected_tab;
            let ghost before = tabs_view(self.tabs@);
            let request = Request {
                url: self.url_input.clone(),
                method: reqwest::Method::from(&self.selected_method),
                headers: clone_pairs(&self.headers_input),
                body: if self.body_input.as_str().is_empty() {
                    None
                } else {
                    Some(self.body_input.clone())
                },
                params: clone_pairs(&self.params_input),
            };
            assert(request@ == old(self)@.buffered_request());
            self.tabs[i].request = request;
            proof {
                assert(tabs_view(self.tabs@) =~= before.update(
                    i as int,
                    TabView { request: old(self)@.buffered_request(), ..before[i as int] },
                ));
                self.selected_method.lemma_token_round_trip();
                if old(self)@.verbs_known() {
                    assert forall|j: int| 0 <= j < self@.tabs.len() implies HttpMethod::of_token(
                        #[trigger] self@.tabs[j].request.method,
                    ) is Some by {
                        if j != i {
                            assert(self@.tabs[j] == old(self)@.tabs[j]);
                        }
                    }
                }
            }
            Ok(())
        } else {
            let message = write_tab_index_message(
                "Cannot save state: invalid tab index ",
                self.selected_tab,
                self.tabs.len(),
            );
            Err(RestlessError::AppState { message })
        }
    }

    /// Reads the selected tab's request into the edit buffers. A request
    /// without a body gives an empty body buffer. Where the request holds
    /// a method that is none of the four verbs, the reading stops after the
    /// URL and reports it.
    pub fn restore_current_tab_state(&mut self) -> (r: Result<(), RestlessError>)
        ensures
            final(self)@ == if old(self)@.selected_tab < old(self)@.tabs.len() {
                old(self)@.restored()
            } else {
                old(self)@
            },
            match old(self)@.restore_error() {
                Some(fault) => r matches Err(e) && e is AppState && e.text() == fault,
                None => r is Ok,
            },
            old(self)@.wf() ==> final(self)@.wf(),
            old(self)@.verbs_known() ==> final(self)@.verbs_known(),
    {
        if self.selected_tab < self.tabs.len() {
            let i = self.selected_tab;
            assert(self@.tabs[i as int] == self.tabs@[i as int]@);
            self.url_input = self.tabs[i].request.url.clone();
            match HttpMethod::try_from(&self.tabs[i].request.method) {
                Ok(m) => {
                    self.selected_method = m;
                },
                Err(e) => {
                    let text = e.to_string();
                    return Err(
                        RestlessError::AppState {
                            message: concat_str("Invalid HTTP method in tab: ", text.as_str()),
                        },
                    );
                },
            }
            self.body_input = match &self.tabs[i].request.body {
                Some(b) => b.clone(),
                None => String::new(),
            };
            self.headers_input = clone_pairs(&self.tabs[i].request.headers);
            self.params_input = clone_pairs(&self.tabs[i].request.params);
            Ok(())
        } else {
            let message = write_tab_index_message(
                "Cannot restore state: invalid tab index ",
                self.selected_tab,
                self.tabs.len(),
            );
            Err(RestlessError::AppState { message })
        }
    }

    /// Switches to the tab behind the selected one; from the last tab to
    /// the first.
    pub fn next_tab(&mut self) -> (r: Result<(), RestlessError>)
        ensures
            final(self)@ == old(self)@.after_switch_to(old(self)@.next_index()),
            match old(self)@.switch_fault(old(self)@.next_index()) {
                Some(fault) => r matches Err(e) && e is AppState && e.text() == fault,
                None => r is Ok,
            },
            old(self)@.wf() ==> final(self)@.wf(),
            old(self)@.verbs_known() ==> final(self)@.verbs_known(),
    {
        match self.save_current_tab_state() {
            Err(e) => {
                return Err(e);
            },
            Ok(()) => {},
        }
        assert(self.selected_tab < self.tabs.len());
        self.selected_tab = (self.selected_tab + 1) % self.tabs.len();
        self.restore_current_tab_state()
    }

    /// Switches to the tab before the selected one; from the first tab to
    /// the last.
    pub fn prev_tab(&mut self) -> (r: Result<(), RestlessError>)
        ensures
            final(self)@ == old(self)@.after_switch_to(old(self)@.prev_index()),
            match old(self)@.switch_fault(old(self)@.prev_index()) {
                Some(fault) => r matches Err(e) && e is AppState && e.text() == fault,
                None => r is Ok,
            },
            old(self)@.wf() ==> final(self)@.wf(),
            old(self)@.verbs_known() ==> final(self)@.verbs_known(),
    {
        match self.save_current_tab_state() {
            Err(e) => {
                return Err(e);
            },
            Ok(()) => {},
        }
        if self.selected_tab == 0 {
            self.selected_tab = self.tabs.len() - 1;
        } else {
            self.selected_tab = self.selected_tab - 1;
        }
        self.restore_current_tab_state()
    }

    /// Opens a new tab behind the others and switches to it. The new tab
    /// is named after its place, counted from one.
    pub fn add_new_tab(&mut self) -> (r: Result<(), RestlessError>)
        requires
            old(self).tabs.len() < usize::MAX,
        ensures
            final(self)@ == old(self)@.after_new_tab(),
            match old(self)@.new_tab_fault() {
                Some(fault) => r matches Err(e) && e is Tab && e.text() == fault,
                None => r is Ok,
            },
            old(self)@.wf() ==> final(self)@.wf(),
            old(self)@.verbs_known() ==> final(self)@.verbs_known(),
    {
        match self.save_current_tab_state() {
            Err(e) => {
                let text = e.to_string();
                return Err(
                    RestlessError::Tab {
                        message: concat_str("Failed to save current tab state: ", text.as_str()),
                    },
                );
            },
            Ok(()) => {},
        }
        let ghost saved = self@;
        let number = format_decimal((self.tabs.len() + 1) as u64);
        let name = concat_str("Tab ", number.as_str());
        let new_tab = Tab::new(name, String::new());
        self.tabs.push(new_tab);
        self.selected_tab = self.tabs.len() - 1;
        proof {
            HttpMethod::GET.lemma_token_round_trip();
            assert(self@.tabs =~= saved.tabs.push(TabView::fresh(name@, Seq::empty())));
            if old(self)@.verbs_known() {
                assert forall|j: int| 0 <= j < self@.tabs.len() implies HttpMethod::of_token(
                    #[trigger] self@.tabs[j].request.method,
                ) is Some by {
                    if j < saved.tabs.len() {
                        assert(self@.tabs[j] == saved.tabs[j]);
                    }
                }
            }
        }
        match self.restore_current_tab_state() {
            Err(e) => {
                let text = e.to_string();
                Err(
                    RestlessError::Tab {
                        message: concat_str("Failed to restore tab state: ", text.as_str()),
                    },
                )
            },
            Ok(()) => Ok(()),
        }
    }

    /// Closes the selected tab. The only remaining tab cannot be closed.
    /// The tab behind the closed one gets the selection, or the new last
    /// tab where the last one was closed, and is read into the edit
    /// buffers.
    pub fn close_current_tab(&mut self) -> (r: Result<(), RestlessError>)
        ensures
            final(self)@ == old(self)@.after_close_tab(),
            match old(self)@.close_tab_fault() {
                Some(fault) => r matches Err(e) && e.text() == fault && (if old(self)@.tabs.len() > 1
                    && old(self)@.selected_tab >= old(self)@.tabs.len() {
                    e is AppState
                } else {
                    e is Tab
                }),
                None => r is Ok,
            },
            old(self)@.wf() ==> final(self)@.wf(),
            old(self)@.verbs_known() ==> final(self)@.verbs_known(),
    {
        if self.tabs.len() <= 1 {
            return Err(RestlessError::tab("Cannot close the last remaining tab"));
        }
        if self.selected_tab >= self.tabs.len() {
            let message = write_tab_index_message(
                "Invalid tab index: ",
                self.selected_tab,
                self.tabs.len(),
            );
            return Err(RestlessError::AppState { message });
        }
        let ghost before = self@;
        self.tabs.remove(self.selected_tab);
        if self.selected_tab >= self.tabs.len() {
            self.selected_tab = self.tabs.len() - 1;
        }
        proof {
            assert(self@.tabs =~= before.tabs.remove(before.selected_tab as int));
            if old(self)@.verbs_known() {
                assert forall|j: int| 0 <= j < self@.tabs.len() implies HttpMethod::of_token(
                    #[trigger] self@.tabs[j].request.method,
                ) is Some by {
                    if j < before.selected_tab {
                        assert(self@.tabs[j] == before.tabs[j]);
                    } else {
                        assert(self@.tabs[j] == before.tabs[j + 1]);
                    }
                }
            }
        }
        match self.restore_current_tab_state() {
            Err(e) => {
                let text = e.to_string();
                Err(
                    RestlessError::Tab {
                        message: concat_str(
                            "Failed to restore tab state after closing: ",
                            text.as_str(),
                        ),
                    },
                )
            },
            Ok(()) => Ok(()),
        }
    }
}

} // verus!
