//! The model of the application state: what each operation makes of it,
//! and the laws that hold of the operations.

use vstd::prelude::*;
use crate::app::app::{CurrentScreen, ValuesScreen};
use crate::app::tab::TabView;
use crate::error::RestlessError;
use crate::logic::request::{
    first_blank_key, first_header_fault, header_fault, url_fault, HttpMethod, RequestView,
};
use crate::text::{
    after_first, before_first, decimal, has_line_break, is_blank, lemma_trim_is_clean, trim,
};
use crate::transport::transport_error_text;

verus! {

/// The model of the application state.
pub struct AppView {
    pub current_screen: CurrentScreen,
    pub values_screen: ValuesScreen,
    pub tabs: Seq<TabView>,
    pub selected_tab: usize,
    pub url_input: Seq<char>,
    pub selected_method: HttpMethod,
    pub method_dropdown_open: bool,
    pub method_dropdown_selected: usize,
    pub body_input: Seq<char>,
    pub headers_input: Seq<(Seq<char>, Seq<char>)>,
    pub params_input: Seq<(Seq<char>, Seq<char>)>,
    pub current_header_key: Seq<char>,
    pub current_header_value: Seq<char>,
    pub current_param_key: Seq<char>,
    pub current_param_value: Seq<char>,
    pub editing_header_index: Option<usize>,
    pub editing_param_index: Option<usize>,
    pub response_tab_selected: usize,
    pub response_scroll: usize,
    pub help_visible: bool,
    pub help_scroll: usize,
    pub previous_screen: CurrentScreen,
}

impl AppView {
    /// The tab store is in order: there is a tab, and the selected index
    /// names one.
    pub open spec fn wf(self) -> bool {
        self.tabs.len() >= 1 && self.selected_tab < self.tabs.len()
    }

    /// The state at startup.
    pub open spec fn initial() -> AppView {
        AppView {
            current_screen: CurrentScreen::Values,
            values_screen: ValuesScreen::Body,
            tabs: seq![TabView::fresh("Tab 1"@, Seq::empty())],
            selected_tab: 0,
            url_input: Seq::empty(),
            selected_method: HttpMethod::GET,
            method_dropdown_open: false,
            method_dropdown_selected: 0,
            body_input: Seq::empty(),
            headers_input: Seq::empty(),
            params_input: Seq::empty(),
            current_header_key: Seq::empty(),
            current_header_value: Seq::empty(),
            current_param_key: Seq::empty(),
            current_param_value: Seq::empty(),
            editing_header_index: None,
            editing_param_index: None,
            response_tab_selected: 1,
            response_scroll: 0,
            help_visible: false,
            help_scroll: 0,
            previous_screen: CurrentScreen::Values,
        }
    }

    /// The request that the edit buffers describe. An empty body buffer
    /// stands for no body.
    pub open spec fn buffered_request(self) -> RequestView {
        RequestView {
            url: self.url_input,
            method: self.selected_method.token(),
            headers: self.headers_input,
            body: if self.body_input.len() == 0 {
                None
            } else {
                Some(self.body_input)
            },
            params: self.params_input,
        }
    }

    /// The state after the edit buffers have been written into the selected
    /// tab.
    pub open spec fn saved(self) -> AppView
        recommends
            self.selected_tab < self.tabs.len(),
    {
        let i = self.selected_tab as int;
        AppView {
            tabs: self.tabs.update(
                i,
                TabView { request: self.buffered_request(), ..self.tabs[i] },
            ),
            ..self
        }
    }

    /// The state after the selected tab's request has been read into the
    /// edit buffers, with `method` as the verb of that request.
    pub open spec fn restored_with(self, method: HttpMethod) -> AppView
        recommends
            self.selected_tab < self.tabs.len(),
    {
        let request = self.tabs[self.selected_tab as int].request;
        AppView {
            url_input: request.url,
            selected_method: method,
            body_input: match request.body {
                Some(b) => b,
                None => Seq::empty(),
            },
            headers_input: request.headers,
            params_input: request.params,
            ..self
        }
    }

    /// The state with another tab selected.
    pub open spec fn selecting(self, index: usize) -> AppView {
        AppView { selected_tab: index, ..self }
    }
}

/// What keeps a request from being sent, with the words for it.
pub enum RequestFault {
    Url(Seq<char>),
    Header(Seq<char>),
    Parameter(Seq<char>),
}

/// The pair that a pending key text and value text stand for. Where the
/// key text holds the delimiter, the key is what stands before the first
/// one, and the value is the rest of the key text followed by the value
/// text. Both sides are trimmed.
pub open spec fn pending_pair(key: Seq<char>, value: Seq<char>, delimiter: char) -> (
    Seq<char>,
    Seq<char>,
) {
    if key.contains(delimiter) {
        (trim(before_first(key, delimiter)), trim(after_first(key, delimiter) + value))
    } else {
        (trim(key), trim(value))
    }
}

/// What is wrong with a pending header key text as it stands, untrimmed:
/// it is blank, or it holds a line feed or a carriage return.
pub open spec fn pending_key_fault(key: Seq<char>) -> Option<Seq<char>> {
    if is_blank(key) {
        Some("Header key cannot be empty"@)
    } else if has_line_break(key) {
        Some("Header key cannot contain newlines"@)
    } else {
        None
    }
}

/// A message about an index that names no tab.
pub open spec fn tab_index_message(prefix: Seq<char>, index: usize, count: nat) -> Seq<char> {
    prefix + decimal(index as nat) + " (only "@ + decimal(count) + " tabs exist)"@
}

/// A message about an index that names no entry of a list.
pub open spec fn entry_index_message(
    prefix: Seq<char>,
    index: usize,
    count: nat,
    suffix: Seq<char>,
) -> Seq<char> {
    prefix + decimal(index as nat) + ": only "@ + decimal(count) + suffix
}

/// The entries of the help screen: section titles with an empty second
/// part, key bindings with their description, and empty separators.
pub open spec fn help_entries() -> Seq<(&'static str, &'static str)> {
    seq![
        ("Navigation", ""),
        ("Ctrl+j/k", "Navigate between sections (URL/Values/Response)"),
        ("h/l", "Navigate between Body/Headers/Params in Values"),
        ("", ""),
        ("Tab Management", ""),
        ("t", "Create new tab"),
        ("x", "Close current tab"),
        ("Tab", "Next tab"),
        ("Shift+Tab", "Previous tab"),
        ("", ""),
        ("Editing", ""),
        ("i", "Insert/edit mode (body/headers/params)"),
        ("u", "Edit URL"),
        ("m", "Open method dropdown"),
        ("Enter", "Execute HTTP request"),
        ("Esc", "Exit edit mode"),
        ("", ""),
        ("Response Navigation", ""),
        ("j/k", "Scroll response content"),
        ("h/b", "Switch between Headers/Body"),
        ("", ""),
        ("Application", ""),
        ("?", "Show/hide this help"),
        ("q", "Quit application"),
    ]
}

/// The text that is shown to the user for an error.
pub open spec fn banner_text(error: RestlessError) -> Seq<char> {
    match error {
        RestlessError::Network(e) => "Network Error: "@ + transport_error_text(
            e,
        ),
        RestlessError::InvalidUrl { url } => "Invalid URL: "@ + url@,
        RestlessError::InvalidHeader { header } => "Invalid Header: "@ + header@,
        RestlessError::InvalidParameter { param } => "Invalid Parameter: "@ + param@,
        RestlessError::Timeout => "Request timed out"@,
        RestlessError::Tab { message } => "Tab Error: "@ + message@,
        RestlessError::ResponseParsing { message } => "Response Error: "@ + message@,
        RestlessError::AppState { message } => "App Error: "@ + message@,
        _ => "Error: "@ + error.text(),
    }
}

/// How many entries the help screen has.
pub const HELP_ENTRY_COUNT: usize = 24;

impl AppView {
    /// What committing the pending header gives: the state with the header
    /// appended and the pending texts cleared, or the fault that keeps the
    /// header out. Without a pending key nothing happens. The pending key
    /// text is looked at as it stands, before anything is trimmed: a key
    /// text that is blank or holds a line break anywhere, at its edge too,
    /// is refused. Then the pair is taken, and its faults are looked for.
    pub open spec fn header_commit(self) -> Result<AppView, Seq<char>> {
        if self.current_header_key.len() == 0 {
            Ok(self)
        } else {
            match pending_key_fault(self.current_header_key) {
                Some(fault) => Err(fault),
                None => {
                    let pair = pending_pair(
                        self.current_header_key,
                        self.current_header_value,
                        ':',
                    );
                    match header_fault(pair.0, pair.1) {
                        Some(fault) => Err(fault),
                        None => Ok(
                            AppView {
                                headers_input: self.headers_input.push(pair),
                                current_header_key: Seq::empty(),
                                current_header_value: Seq::empty(),
                                ..self
                            },
                        ),
                    }
                },
            }
        }
    }

    /// What committing the pending parameter gives. A parameter is kept
    /// out only by a blank key.
    pub open spec fn param_commit(self) -> Result<AppView, Seq<char>> {
        if self.current_param_key.len() == 0 {
            Ok(self)
        } else {
            let pair = pending_pair(self.current_param_key, self.current_param_value, '=');
            if is_blank(pair.0) {
                Err("Parameter key cannot be empty"@)
            } else {
                Ok(
                    AppView {
                        params_input: self.params_input.push(pair),
                        current_param_key: Seq::empty(),
                        current_param_value: Seq::empty(),
                        ..self
                    },
                )
            }
        }
    }

    /// The state with the help overlay shown. The screen that it covers is
    /// remembered.
    pub open spec fn help_shown(self) -> AppView {
        if self.help_visible {
            self
        } else {
            AppView {
                previous_screen: self.current_screen,
                current_screen: CurrentScreen::Help,
                help_visible: true,
                help_scroll: 0,
                ..self
            }
        }
    }

    /// The state with the help overlay closed and the covered screen back.
    pub open spec fn help_hidden(self) -> AppView {
        if self.help_visible {
            AppView { current_screen: self.previous_screen, help_visible: false, ..self }
        } else {
            self
        }
    }

    /// What is wrong with the request in the edit buffers: the fault of the
    /// URL, else that of the first faulty header, else that of a parameter
    /// with a blank key. `None` for a request that can be sent.
    pub open spec fn request_fault(self) -> Option<RequestFault> {
        match url_fault(self.url_input) {
            Some(fault) => Some(RequestFault::Url(fault)),
            None => match first_header_fault(self.headers_input) {
                Some((key, fault)) => Some(RequestFault::Header(fault)),
                None => match first_blank_key(self.params_input) {
                    Some(key) => Some(RequestFault::Parameter("Parameter key cannot be empty"@)),
                    None => None,
                },
            },
        }
    }

    /// The index that follows the selected one, going round.
    pub open spec fn next_index(self) -> usize
        recommends
            self.tabs.len() > 0,
    {
        ((self.selected_tab + 1) % (self.tabs.len() as int)) as usize
    }

    /// The index before the selected one, going round.
    pub open spec fn prev_index(self) -> usize
        recommends
            self.tabs.len() > 0,
    {
        if self.selected_tab == 0 {
            (self.tabs.len() - 1) as usize
        } else {
            (self.selected_tab - 1) as usize
        }
    }

    /// The state after the selected tab's request has been read into the
    /// edit buffers. Where that request holds a method that is none of the
    /// four verbs, only the URL has been read.
    pub open spec fn restored(self) -> AppView
        recommends
            self.selected_tab < self.tabs.len(),
    {
        let request = self.tabs[self.selected_tab as int].request;
        match HttpMethod::of_token(request.method) {
            Some(m) => self.restored_with(m),
            None => AppView { url_input: request.url, ..self },
        }
    }

    /// True when the selected tab's request holds one of the four verbs.
    pub open spec fn can_restore(self) -> bool
        recommends
            self.selected_tab < self.tabs.len(),
    {
        HttpMethod::of_token(self.tabs[self.selected_tab as int].request.method) is Some
    }

    /// The message of a failed restoring.
    pub open spec fn restore_fault(self) -> Seq<char>
        recommends
            self.selected_tab < self.tabs.len(),
    {
        "Invalid HTTP method in tab: "@ + ("Invalid HTTP method: "@
            + self.tabs[self.selected_tab as int].request.method)
    }

    /// The state after the attempt to open a new tab: nothing changes
    /// where the selected index names no tab.
    pub open spec fn after_new_tab(self) -> AppView {
        if self.selected_tab < self.tabs.len() {
            self.with_new_tab()
        } else {
            self
        }
    }

    /// The state after the attempt to close the selected tab: nothing
    /// changes where it is the only tab, or where the selected index names
    /// no tab.
    pub open spec fn after_close_tab(self) -> AppView {
        if self.tabs.len() > 1 && self.selected_tab < self.tabs.len() {
            self.without_selected_tab().restored()
        } else {
            self
        }
    }

    /// The state after the attempt to switch to the tab at `index`: nothing
    /// changes where the selected index names no tab.
    pub open spec fn after_switch_to(self, index: usize) -> AppView {
        if self.selected_tab < self.tabs.len() {
            self.switched_to(index)
        } else {
            self
        }
    }

    /// The text of the error of a failed saving, or `None` where saving
    /// succeeds.
    pub open spec fn save_fault(self) -> Option<Seq<char>> {
        if self.selected_tab < self.tabs.len() {
            None
        } else {
            Some(
                "Application state error: "@ + tab_index_message(
                    "Cannot save state: invalid tab index "@,
                    self.selected_tab,
                    self.tabs.len(),
                ),
            )
        }
    }

    /// The text of the error of a failed restoring, or `None` where
    /// restoring succeeds.
    pub open spec fn restore_error(self) -> Option<Seq<char>> {
        if self.selected_tab >= self.tabs.len() {
            Some(
                "Application state error: "@ + tab_index_message(
                    "Cannot restore state: invalid tab index "@,
                    self.selected_tab,
                    self.tabs.len(),
                ),
            )
        } else if self.can_restore() {
            None
        } else {
            Some("Application state error: "@ + self.restore_fault())
        }
    }

    /// The text of the error of a switch to the tab at `index`, or `None`
    /// where the switch succeeds.
    pub open spec fn switch_fault(self, index: usize) -> Option<Seq<char>> {
        match self.save_fault() {
            Some(fault) => Some(fault),
            None => self.saved().selecting(index).restore_error(),
        }
    }

    /// The text of the error of the attempt to open a new tab.
    pub open spec fn new_tab_fault(self) -> Option<Seq<char>> {
        match self.save_fault() {
            Some(fault) => Some("Tab error: "@ + ("Failed to save current tab state: "@ + fault)),
            None => None,
        }
    }

    /// The text of the error of the attempt to close the selected tab.
    pub open spec fn close_tab_fault(self) -> Option<Seq<char>> {
        if self.tabs.len() <= 1 {
            Some("Tab error: "@ + "Cannot close the last remaining tab"@)
        } else if self.selected_tab >= self.tabs.len() {
            Some(
                "Application state error: "@ + tab_index_message(
                    "Invalid tab index: "@,
                    self.selected_tab,
                    self.tabs.len(),
                ),
            )
        } else if self.without_selected_tab().can_restore() {
            None
        } else {
            Some(
                "Tab error: "@ + ("Failed to restore tab state after closing: "@ + (
                "Application state error: "@ + self.without_selected_tab().restore_fault())),
            )
        }
    }

    /// True when every tab's request holds one of the four verbs. The
    /// operations of this module write no other method into a tab.
    pub open spec fn verbs_known(self) -> bool {
        forall|i: int|
            0 <= i < self.tabs.len() ==> HttpMethod::of_token(
                #[trigger] self.tabs[i].request.method,
            ) is Some
    }

    /// The state after a switch to the tab at `index`: the buffers are
    /// saved, the index is selected, and the buffers are restored.
    pub open spec fn switched_to(self, index: usize) -> AppView
        recommends
            self.selected_tab < self.tabs.len(),
            index < self.tabs.len(),
    {
        self.saved().selecting(index).restored()
    }

    /// The state after a new tab has been opened behind the others and
    /// selected.
    pub open spec fn with_new_tab(self) -> AppView
        recommends
            self.selected_tab < self.tabs.len(),
    {
        let saved = self.saved();
        let name = "Tab "@ + decimal(self.tabs.len() + 1);
        AppView {
            tabs: saved.tabs.push(TabView::fresh(name, Seq::empty())),
            selected_tab: self.tabs.len() as usize,
            ..saved
        }.restored()
    }

    /// The state after the selected tab has been taken out, before the
    /// buffers are restored. The selected index stays, unless it named the
    /// last tab: then it names the new last one.
    pub open spec fn without_selected_tab(self) -> AppView
        recommends
            self.tabs.len() > 1,
            self.selected_tab < self.tabs.len(),
    {
        let tabs = self.tabs.remove(self.selected_tab as int);
        AppView {
            tabs,
            selected_tab: if self.selected_tab >= tabs.len() {
                (tabs.len() - 1) as usize
            } else {
                self.selected_tab
            },
            ..self
        }
    }
}

/// A verb that was read from a token has that token.
pub proof fn lemma_verb_of_token(token: Seq<char>)
    ensures
        HttpMethod::of_token(token) matches Some(m) ==> m.token() == token,
{
}

/// Saving the edit buffers and reading them back changes none of them.
pub proof fn lemma_save_then_restore(s: AppView)
    requires
        s.selected_tab < s.tabs.len(),
    ensures
        s.saved().can_restore(),
        s.saved().restored() == s.saved(),
        s.saved().tabs[s.selected_tab as int].request == s.buffered_request(),
{
    s.selected_method.lemma_token_round_trip();
    let r = s.saved().restored();
    assert(r.body_input =~= s.body_input);
}

/// Switching from a tab to another one and back brings every edit buffer
/// back as it was: URL, verb, body, headers and parameters. The tab then
/// holds the request that the buffers describe, and both switches succeed.
pub proof fn lemma_switch_round_trip(s: AppView, other: usize)
    requires
        s.wf(),
        s.verbs_known(),
        other < s.tabs.len(),
    ensures
        ({
            let away = s.switched_to(other);
            let back = away.switched_to(s.selected_tab);
            &&& s.saved().selecting(other).can_restore()
            &&& away.saved().selecting(s.selected_tab).can_restore()
            &&& away.selected_tab == other
            &&& back.selected_tab == s.selected_tab
            &&& back.url_input == s.url_input
            &&& back.selected_method == s.selected_method
            &&& back.body_input == s.body_input
            &&& back.headers_input == s.headers_input
            &&& back.params_input == s.params_input
            &&& back.tabs[s.selected_tab as int].request == s.buffered_request()
            &&& back.tabs.len() == s.tabs.len()
        }),
{
    let i = s.selected_tab;
    let saved = s.saved();
    s.selected_method.lemma_token_round_trip();
    if other != i {
        assert(saved.tabs[other as int] == s.tabs[other as int]);
        assert(HttpMethod::of_token(s.tabs[other as int].request.method) is Some);
    }
    let away = s.switched_to(other);
    let method = HttpMethod::of_token(saved.tabs[other as int].request.method)->0;
    assert(away == saved.selecting(other).restored_with(method));
    lemma_verb_of_token(saved.tabs[other as int].request.method);
    away.selected_method.lemma_token_round_trip();
    let resaved = away.saved();
    assert(resaved.tabs[i as int].request == s.buffered_request());
    let back = away.switched_to(i);
    assert(back.body_input =~= s.body_input);
}

/// The only tab cannot be closed: the attempt changes nothing and is
/// reported.
pub proof fn lemma_last_tab_stays(s: AppView)
    requires
        s.tabs.len() <= 1,
    ensures
        s.after_close_tab() == s,
        s.close_tab_fault() == Some("Tab error: "@ + "Cannot close the last remaining tab"@),
{
}

/// A pending header key text that holds a line feed or a carriage return
/// is never committed, wherever the line break stands and whatever the
/// pending value text is: the commit is refused and says why.
pub proof fn lemma_line_break_in_key_is_refused(s: AppView)
    requires
        has_line_break(s.current_header_key),
    ensures
        s.header_commit() is Err,
        s.header_commit()->Err_0 == "Header key cannot be empty"@ || s.header_commit()->Err_0
            == "Header key cannot contain newlines"@,
        !is_blank(s.current_header_key) ==> s.header_commit()->Err_0
            == "Header key cannot contain newlines"@,
{
    if s.current_header_key.contains('\n') {
        let i = choose|i: int| 0 <= i < s.current_header_key.len() && s.current_header_key[i]
            == '\n';
        assert(s.current_header_key.len() > 0);
    } else {
        let i = choose|i: int| 0 <= i < s.current_header_key.len() && s.current_header_key[i]
            == '\r';
        assert(s.current_header_key.len() > 0);
    }
}

/// A header that has been committed has no fault: its key is not blank,
/// and neither key nor value holds a line break. Key and value are
/// trimmed. The headers that were committed before stay as they are, in
/// their order.
pub proof fn lemma_committed_header_is_sound(s: AppView)
    requires
        s.current_header_key.len() > 0,
        s.header_commit() is Ok,
    ensures
        ({
            let next = s.header_commit()->Ok_0;
            &&& next.headers_input.len() == s.headers_input.len() + 1
            &&& next.headers_input.drop_last() == s.headers_input
            &&& header_fault(next.headers_input.last().0, next.headers_input.last().1) is None
            &&& trim(next.headers_input.last().0) == next.headers_input.last().0
            &&& trim(next.headers_input.last().1) == next.headers_input.last().1
            &&& next.headers_input.last().0.len() > 0
            &&& next.current_header_key.len() == 0
            &&& next.current_header_value.len() == 0
        }),
{
    let next = s.header_commit()->Ok_0;
    assert(next.headers_input.drop_last() =~= s.headers_input);
    let pair = pending_pair(s.current_header_key, s.current_header_value, ':');
    assert(next.headers_input.last() == pair);
    if s.current_header_key.contains(':') {
        lemma_trim_is_clean(before_first(s.current_header_key, ':'));
        lemma_trim_is_clean(
            after_first(s.current_header_key, ':') + s.current_header_value,
        );
    } else {
        lemma_trim_is_clean(s.current_header_key);
        lemma_trim_is_clean(s.current_header_value);
    }
}

/// The operations on the tab store write no method into a tab but one of
/// the four verbs: where every tab holds one, every tab holds one after
/// saving, restoring, a switch, a new tab, and the closing of a tab.
pub proof fn lemma_tab_operations_keep_verbs(s: AppView)
    requires
        s.wf(),
        s.verbs_known(),
    ensures
        s.saved().verbs_known(),
        s.restored().verbs_known(),
        forall|index: usize| index < s.tabs.len() ==> (#[trigger] s.switched_to(index)).verbs_known(),
        s.with_new_tab().verbs_known(),
        s.after_close_tab().verbs_known(),
{
    s.selected_method.lemma_token_round_trip();
    HttpMethod::GET.lemma_token_round_trip();
    let saved = s.saved();
    assert forall|i: int| 0 <= i < saved.tabs.len() implies HttpMethod::of_token(
        #[trigger] saved.tabs[i].request.method,
    ) is Some by {
        if i != s.selected_tab {
            assert(saved.tabs[i] == s.tabs[i]);
        }
    }
    assert(s.restored().tabs == s.tabs);
    assert forall|index: usize| index < s.tabs.len() implies (#[trigger] s.switched_to(
        index,
    )).verbs_known() by {
        assert(s.switched_to(index).tabs == saved.tabs);
    }
    let grown = s.with_new_tab();
    assert forall|i: int| 0 <= i < grown.tabs.len() implies HttpMethod::of_token(
        #[trigger] grown.tabs[i].request.method,
    ) is Some by {
        if i < saved.tabs.len() {
            assert(grown.tabs[i] == saved.tabs[i]);
        }
    }
    let closed = s.after_close_tab();
    assert forall|i: int| 0 <= i < closed.tabs.len() implies HttpMethod::of_token(
        #[trigger] closed.tabs[i].request.method,
    ) is Some by {
        if s.tabs.len() > 1 {
            if i < s.selected_tab {
                assert(closed.tabs[i] == s.tabs[i]);
            } else {
                assert(closed.tabs[i] == s.tabs[i + 1]);
            }
        }
    }
}

/// Whatever the state, the operations on the tab store keep it in order:
/// a state with a tab and a selected index that names one stays so after a
/// switch, after a new tab, and after a tab has been closed.
pub proof fn lemma_tab_store_stays_in_order(s: AppView, index: usize)
    requires
        s.wf(),
        index < s.tabs.len(),
    ensures
        s.saved().wf(),
        s.restored().wf(),
        s.switched_to(index).wf(),
        s.switched_to(s.next_index()).wf(),
        s.switched_to(s.prev_index()).wf(),
        s.tabs.len() < usize::MAX ==> s.with_new_tab().wf(),
        s.tabs.len() > 1 ==> s.without_selected_tab().restored().wf(),
{
}

} // verus!
