//! The key handlers of the screens.
//!
//! The header and parameter editors share one rule. A typed character goes
//! into the pending key text until that text holds the delimiter (`:` for
//! headers, `=` for parameters); the first delimiter is kept in the key
//! text, and from then on every character, a further delimiter too, goes
//! into the pending value text.

use vstd::prelude::*;
use crate::app::app::{App, AppView, CurrentScreen, HELP_ENTRY_COUNT, RequestFault, ValuesScreen};
use crate::app::model::pending_pair;
use crate::error::RestlessError;
use crate::handlers::{done, KeyAction, KeyActionView, KeyCode, KeyEvent};
use crate::handlers::navigation::{
    help_scrolled, navigate_section_down, navigate_section_up, scroll_step, scrolled, section_after,
    section_before, values_left_of, values_right_of, ScrollDirection,
};
use crate::handlers::tab::{
    handle_close_tab, handle_new_tab, handle_next_tab, handle_prev_tab, message_view, tab_message,
};
use crate::logic::request::HttpMethod;
use crate::text::{concat_str, contains_char, lemma_first_index_of, to_chars, trim};

verus! {

/// A text without its last character; the empty text stays.
pub open spec fn without_last(s: Seq<char>) -> Seq<char> {
    if s.len() > 0 {
        s.drop_last()
    } else {
        s
    }
}

/// The pending texts of an editor after a character has been typed.
pub open spec fn typed_into(key: Seq<char>, value: Seq<char>, c: char, delimiter: char) -> (
    Seq<char>,
    Seq<char>,
) {
    if !key.contains(delimiter) {
        (key.push(c), value)
    } else {
        (key, value.push(c))
    }
}

/// The pending texts of the header editor after a character has been
/// typed. A space is dropped where nothing has been typed yet, and where
/// it follows the colon that ends the key.
pub open spec fn header_typed(key: Seq<char>, value: Seq<char>, c: char) -> (Seq<char>, Seq<char>) {
    if c == ' ' && value.len() == 0 && (key.len() == 0 || key.last() == ':') {
        (key, value)
    } else {
        typed_into(key, value, c, ':')
    }
}

/// The pending texts of an editor after Backspace: the value text loses
/// its last character, or the key text where the value text is empty.
pub open spec fn erased(key: Seq<char>, value: Seq<char>) -> (Seq<char>, Seq<char>) {
    if value.len() > 0 {
        (key, value.drop_last())
    } else {
        (without_last(key), value)
    }
}

/// The place in the method list above `index`, going round.
pub open spec fn dropdown_above(index: usize) -> usize {
    if index == 0 {
        3
    } else {
        (index - 1) as usize
    }
}

/// The place in the method list below `index`, going round.
pub open spec fn dropdown_below(index: usize) -> usize {
    if index >= 3 {
        0
    } else {
        (index + 1) as usize
    }
}

/// The state after a key while the method list is open.
pub open spec fn after_dropdown_key(s: AppView, key: KeyEvent) -> AppView {
    match key.code {
        KeyCode::Up => AppView {
            method_dropdown_selected: dropdown_above(s.method_dropdown_selected),
            ..s
        },
        KeyCode::Down => AppView {
            method_dropdown_selected: dropdown_below(s.method_dropdown_selected),
            ..s
        },
        KeyCode::Enter => AppView {
            selected_method: HttpMethod::at_index(s.method_dropdown_selected),
            method_dropdown_open: false,
            ..s
        },
        KeyCode::Esc => AppView { method_dropdown_open: false, ..s },
        _ => s,
    }
}

/// The state with the method list opened on the selected verb.
pub open spec fn dropdown_opened(s: AppView) -> AppView {
    AppView {
        method_dropdown_open: true,
        method_dropdown_selected: s.selected_method.index(),
        ..s
    }
}

/// The state after a key of the values section.
pub open spec fn after_values_key(s: AppView, key: KeyEvent) -> AppView {
    match key.code {
        KeyCode::Char(c) => if c == 'h' {
            AppView { values_screen: values_left_of(s.values_screen), ..s }
        } else if c == 'l' {
            AppView { values_screen: values_right_of(s.values_screen), ..s }
        } else if c == 'i' {
            AppView {
                current_screen: match s.values_screen {
                    ValuesScreen::Body => CurrentScreen::EditingBody,
                    ValuesScreen::Headers => CurrentScreen::EditingHeaders,
                    ValuesScreen::Params => CurrentScreen::EditingParams,
                },
                ..s
            }
        } else {
            s
        },
        KeyCode::Left => AppView { values_screen: values_left_of(s.values_screen), ..s },
        KeyCode::Right => AppView { values_screen: values_right_of(s.values_screen), ..s },
        _ => s,
    }
}

/// The state after a key of the response section.
pub open spec fn after_response_key(s: AppView, key: KeyEvent) -> AppView {
    match key.code {
        KeyCode::Char(c) => if c == 'h' {
            AppView { response_tab_selected: 0, ..s }
        } else if c == 'b' {
            AppView { response_tab_selected: 1, ..s }
        } else if c == 'j' && s.response_tab_selected == 1 {
            AppView { response_scroll: scrolled(s.response_scroll, ScrollDirection::Down), ..s }
        } else if c == 'k' && s.response_tab_selected == 1 {
            AppView { response_scroll: scrolled(s.response_scroll, ScrollDirection::Up), ..s }
        } else {
            s
        },
        KeyCode::Left => AppView { response_tab_selected: 0, ..s },
        KeyCode::Right => AppView { response_tab_selected: 1, ..s },
        _ => s,
    }
}

/// The state after a key that belongs to the section in focus.
pub open spec fn after_section_key(s: AppView, key: KeyEvent) -> AppView {
    match s.current_screen {
        CurrentScreen::Values => after_values_key(s, key),
        CurrentScreen::Response => after_response_key(s, key),
        _ => s,
    }
}

/// The state after a key on one of the three sections. While the method
/// list is open it takes every key. Otherwise Control with `j` or `k`
/// moves the focus, `u` on the URL section starts the editing of the URL,
/// `m` opens the method list, `t`, `x`, Tab and BackTab act on the tabs,
/// Enter changes nothing here, and any other key goes to the section in
/// focus.
pub open spec fn after_main_screen_key(s: AppView, key: KeyEvent) -> AppView {
    if s.method_dropdown_open {
        after_dropdown_key(s, key)
    } else {
        match key.code {
            KeyCode::Char(c) => if c == 'j' && key.control {
                AppView { current_screen: section_after(s.current_screen), ..s }
            } else if c == 'k' && key.control {
                AppView { current_screen: section_before(s.current_screen), ..s }
            } else if c == 'u' && s.current_screen == CurrentScreen::Url {
                AppView { current_screen: CurrentScreen::EditingUrl, ..s }
            } else if c == 'm' {
                dropdown_opened(s)
            } else if c == 't' {
                s.after_new_tab()
            } else if c == 'x' {
                s.after_close_tab()
            } else {
                after_section_key(s, key)
            },
            KeyCode::Enter => s,
            KeyCode::Tab => s.after_switch_to(s.next_index()),
            KeyCode::BackTab => s.after_switch_to(s.prev_index()),
            _ => after_section_key(s, key),
        }
    }
}

/// What is shown for a request that cannot be sent.
pub open spec fn validation_message(s: AppView) -> Option<Seq<char>> {
    match s.request_fault() {
        None => None,
        Some(RequestFault::Url(fault)) => Some("Validation error: "@ + ("Invalid URL: "@ + fault)),
        Some(RequestFault::Header(fault)) => Some(
            "Validation error: "@ + ("Invalid header format: "@ + fault),
        ),
        Some(RequestFault::Parameter(fault)) => Some(
            "Validation error: "@ + ("Invalid parameter format: "@ + fault),
        ),
    }
}

/// What is left to do after a key on one of the three sections. Enter asks
/// for the request to be sent where the edit buffers pass validation.
pub open spec fn main_screen_action(s: AppView, key: KeyEvent) -> KeyActionView {
    if s.method_dropdown_open {
        KeyActionView::Done(None)
    } else {
        match key.code {
            KeyCode::Char(c) => if c == 'j' && key.control {
                KeyActionView::Done(None)
            } else if c == 'k' && key.control {
                KeyActionView::Done(None)
            } else if c == 't' {
                KeyActionView::Done(tab_message(s.new_tab_fault()))
            } else if c == 'x' {
                KeyActionView::Done(tab_message(s.close_tab_fault()))
            } else {
                KeyActionView::Done(None)
            },
            KeyCode::Enter => match validation_message(s) {
                Some(text) => KeyActionView::Done(Some(text)),
                None => KeyActionView::Send,
            },
            KeyCode::Tab => KeyActionView::Done(tab_message(s.switch_fault(s.next_index()))),
            KeyCode::BackTab => KeyActionView::Done(tab_message(s.switch_fault(s.prev_index()))),
            _ => KeyActionView::Done(None),
        }
    }
}

/// The state after a key on the URL editing screen. Enter writes the edit
/// buffers into the selected tab and leaves the screen.
pub open spec fn after_url_editing_key(s: AppView, key: KeyEvent) -> AppView {
    match key.code {
        KeyCode::Enter => if s.selected_tab < s.tabs.len() {
            AppView { current_screen: CurrentScreen::Url, ..s.saved() }
        } else {
            s
        },
        KeyCode::Backspace => AppView { url_input: without_last(s.url_input), ..s },
        KeyCode::Esc => AppView { current_screen: CurrentScreen::Url, ..s },
        KeyCode::Char(c) => AppView { url_input: s.url_input.push(c), ..s },
        _ => s,
    }
}

/// What is shown after a key on the URL editing screen.
pub open spec fn url_editing_message(s: AppView, key: KeyEvent) -> Option<Seq<char>> {
    match key.code {
        KeyCode::Enter => match s.save_fault() {
            Some(fault) => Some("Failed to save tab state: "@ + fault),
            None => None,
        },
        _ => None,
    }
}

/// The state after a key on the body editing screen. Enter starts a new
/// line.
pub open spec fn after_body_editing_key(s: AppView, key: KeyEvent) -> AppView {
    match key.code {
        KeyCode::Enter => AppView { body_input: s.body_input.push('\n'), ..s },
        KeyCode::Backspace => AppView { body_input: without_last(s.body_input), ..s },
        KeyCode::Esc => AppView { current_screen: CurrentScreen::Values, ..s },
        KeyCode::Char(c) => AppView { body_input: s.body_input.push(c), ..s },
        _ => s,
    }
}

/// The state after a key on the header editing screen. Enter commits the
/// pending header, or leaves the screen where no key text is pending.
/// Escape drops the pending texts and leaves the screen.
pub open spec fn after_headers_editing_key(s: AppView, key: KeyEvent) -> AppView {
    match key.code {
        KeyCode::Enter => if s.current_header_key.len() > 0 {
            match s.header_commit() {
                Ok(next) => next,
                Err(_) => s,
            }
        } else {
            AppView { current_screen: CurrentScreen::Values, ..s }
        },
        KeyCode::Backspace => {
            let texts = erased(s.current_header_key, s.current_header_value);
            AppView { current_header_key: texts.0, current_header_value: texts.1, ..s }
        },
        KeyCode::Esc => AppView {
            current_header_key: Seq::empty(),
            current_header_value: Seq::empty(),
            current_screen: CurrentScreen::Values,
            ..s
        },
        KeyCode::Char(c) => {
            let texts = header_typed(s.current_header_key, s.current_header_value, c);
            AppView { current_header_key: texts.0, current_header_value: texts.1, ..s }
        },
        _ => s,
    }
}

/// What is shown after a key on the header editing screen.
pub open spec fn headers_editing_message(s: AppView, key: KeyEvent) -> Option<Seq<char>> {
    match key.code {
        KeyCode::Enter => match s.header_commit() {
            Err(fault) => Some("Header error: "@ + ("Invalid header format: "@ + fault)),
            Ok(_) => None,
        },
        _ => None,
    }
}

/// The state after a key on the parameter editing screen.
pub open spec fn after_params_editing_key(s: AppView, key: KeyEvent) -> AppView {
    match key.code {
        KeyCode::Enter => if s.current_param_key.len() > 0 {
            match s.param_commit() {
                Ok(next) => next,
                Err(_) => s,
            }
        } else {
            AppView { current_screen: CurrentScreen::Values, ..s }
        },
        KeyCode::Backspace => {
            let texts = erased(s.current_param_key, s.current_param_value);
            AppView { current_param_key: texts.0, current_param_value: texts.1, ..s }
        },
        KeyCode::Esc => AppView {
            current_param_key: Seq::empty(),
            current_param_value: Seq::empty(),
            current_screen: CurrentScreen::Values,
            ..s
        },
        KeyCode::Char(c) => {
            let texts = typed_into(s.current_param_key, s.current_param_value, c, '=');
            AppView { current_param_key: texts.0, current_param_value: texts.1, ..s }
        },
        _ => s,
    }
}

/// What is shown after a key on the parameter editing screen.
pub open spec fn params_editing_message(s: AppView, key: KeyEvent) -> Option<Seq<char>> {
    match key.code {
        KeyCode::Enter => match s.param_commit() {
            Err(fault) => Some("Parameter error: "@ + ("Invalid parameter format: "@ + fault)),
            Ok(_) => None,
        },
        _ => None,
    }
}

/// The state after a key on the help screen.
pub open spec fn after_help_key(s: AppView, key: KeyEvent) -> AppView {
    match key.code {
        KeyCode::Esc => s.help_hidden(),
        KeyCode::Char(c) => if c == 'j' {
            AppView { help_scroll: help_scrolled(s.help_scroll, ScrollDirection::Down), ..s }
        } else if c == 'k' {
            AppView { help_scroll: help_scrolled(s.help_scroll, ScrollDirection::Up), ..s }
        } else {
            s
        },
        _ => s,
    }
}

/// The pending texts of the parameter editor after a text has been typed
/// into it, character by character.
pub open spec fn typed_text(key: Seq<char>, value: Seq<char>, text: Seq<char>, delimiter: char) -> (
    Seq<char>,
    Seq<char>,
)
    decreases text.len(),
{
    if text.len() == 0 {
        (key, value)
    } else {
        let before = typed_text(key, value, text.drop_last(), delimiter);
        typed_into(before.0, before.1, text.last(), delimiter)
    }
}

/// The pending texts of the header editor after a text has been typed
/// into it, character by character.
pub open spec fn header_typed_text(key: Seq<char>, value: Seq<char>, text: Seq<char>) -> (
    Seq<char>,
    Seq<char>,
)
    decreases text.len(),
{
    if text.len() == 0 {
        (key, value)
    } else {
        let before = header_typed_text(key, value, text.drop_last());
        header_typed(before.0, before.1, text.last())
    }
}

/// A text without the delimiter goes into the key text as a whole.
proof fn lemma_typed_key(k: Seq<char>, delimiter: char)
    requires
        !k.contains(delimiter),
    ensures
        typed_text(Seq::empty(), Seq::empty(), k, delimiter) == (k, Seq::<char>::empty()),
    decreases k.len(),
{
    if k.len() > 0 {
        let rest = k.drop_last();
        assert forall|j: int| 0 <= j < rest.len() implies rest[j] != delimiter by {
            assert(rest[j] == k[j]);
        }
        lemma_typed_key(rest, delimiter);
        assert(rest.push(k.last()) =~= k);
    } else {
        assert(k =~= Seq::<char>::empty());
    }
}

/// Typing a key, the delimiter and a value into the empty editor leaves
/// the key and the delimiter in the key text and the value in the value
/// text, whatever the value holds. The commit then gives the pair of key
/// and value, both trimmed.
pub proof fn lemma_typed_pair(k: Seq<char>, v: Seq<char>, delimiter: char)
    requires
        !k.contains(delimiter),
    ensures
        typed_text(Seq::empty(), Seq::empty(), k.push(delimiter) + v, delimiter) == (
            k.push(delimiter),
            v,
        ),
        pending_pair(k.push(delimiter), v, delimiter) == (
            trim(k),
            trim(v),
        ),
    decreases v.len(),
{
    let full_key = k.push(delimiter);
    assert(full_key[k.len() as int] == delimiter);
    if v.len() == 0 {
        lemma_typed_key(k, delimiter);
        assert((full_key + v).drop_last() =~= k);
        assert(full_key + v =~= full_key);
    } else {
        lemma_typed_pair(k, v.drop_last(), delimiter);
        assert((full_key + v).drop_last() =~= full_key + v.drop_last());
        assert((full_key + v).last() == v.last());
        assert(v.drop_last().push(v.last()) =~= v);
    }
    assert forall|j: int| 0 <= j < k.len() implies #[trigger] full_key[j] != delimiter by {
        assert(full_key[j] == k[j]);
    }
    lemma_first_index_of(full_key, delimiter, k.len() as int);
    assert(full_key.take(k.len() as int) =~= k);
    assert(full_key.skip(k.len() as int + 1) + v =~= v);
}

/// A key without a colon that does not begin with a space goes into the
/// key text of the header editor as a whole.
proof fn lemma_typed_header_key(k: Seq<char>)
    requires
        !k.contains(':'),
        k.len() > 0 ==> k[0] != ' ',
    ensures
        header_typed_text(Seq::empty(), Seq::empty(), k) == (k, Seq::<char>::empty()),
    decreases k.len(),
{
    if k.len() > 0 {
        let rest = k.drop_last();
        assert forall|j: int| 0 <= j < rest.len() implies rest[j] != ':' by {
            assert(rest[j] == k[j]);
        }
        if rest.len() > 0 {
            assert(rest[0] == k[0]);
            assert(rest.last() == k[rest.len() - 1]);
        }
        lemma_typed_header_key(rest);
        assert(rest.push(k.last()) =~= k);
    } else {
        assert(k =~= Seq::<char>::empty());
    }
}

/// Typing a key, a colon and a value into the empty header editor, where
/// neither key nor value begins with a space, leaves the key and the colon
/// in the key text and the value in the value text. The commit then gives
/// the pair of key and value, both trimmed.
pub proof fn lemma_typed_header(k: Seq<char>, v: Seq<char>)
    requires
        !k.contains(':'),
        k.len() > 0 ==> k[0] != ' ',
        v.len() > 0 ==> v[0] != ' ',
    ensures
        header_typed_text(Seq::empty(), Seq::empty(), k.push(':') + v) == (k.push(':'), v),
        pending_pair(k.push(':'), v, ':') == (
            trim(k),
            trim(v),
        ),
    decreases v.len(),
{
    let full_key = k.push(':');
    assert(full_key[k.len() as int] == ':');
    if v.len() == 0 {
        lemma_typed_header_key(k);
        assert((full_key + v).drop_last() =~= k);
        assert(full_key + v =~= full_key);
    } else {
        let rest = v.drop_last();
        if rest.len() > 0 {
            assert(rest[0] == v[0]);
        }
        lemma_typed_header(k, rest);
        assert((full_key + v).drop_last() =~= full_key + rest);
        assert((full_key + v).last() == v.last());
        assert(rest.push(v.last()) =~= v);
        if rest.len() == 0 {
            assert(v.last() == v[0]);
        }
    }
    lemma_typed_pair(k, v, ':');
}

/// Handles a key while the method list is open.
pub fn handle_method_dropdown_keys(app: &mut App, key: KeyEvent) -> (r: Result<
    Option<String>,
    RestlessError,
>)
    ensures
        r matches Ok(None),
        final(app)@ == after_dropdown_key(old(app)@, key),
        old(app)@.wf() ==> final(app)@.wf(),
{
    match key.code {
        KeyCode::Up => {
            if app.method_dropdown_selected == 0 {
                app.method_dropdown_selected = 3;
            } else {
                app.method_dropdown_selected = app.method_dropdown_selected - 1;
            }
        },
        KeyCode::Down => {
            if app.method_dropdown_selected >= 3 {
                app.method_dropdown_selected = 0;
            } else {
                app.method_dropdown_selected = app.method_dropdown_selected + 1;
            }
        },
        KeyCode::Enter => {
            app.selected_method = HttpMethod::from_index(app.method_dropdown_selected);
            app.method_dropdown_open = false;
        },
        KeyCode::Esc => {
            app.method_dropdown_open = false;
        },
        _ => {},
    }
    Ok(None)
}

/// Opens the method list on the selected verb.
pub fn open_method_dropdown(app: &mut App)
    ensures
        final(app)@ == dropdown_opened(old(app)@),
        old(app)@.wf() ==> final(app)@.wf(),
{
    app.method_dropdown_open = true;
    app.method_dropdown_selected = app.selected_method.to_index();
}

/// Handles a key of the values section.
pub fn handle_values_screen_keys(app: &mut App, key: KeyEvent) -> (r: Result<
    Option<String>,
    RestlessError,
>)
    ensures
        r matches Ok(None),
        final(app)@ == after_values_key(old(app)@, key),
        old(app)@.wf() ==> final(app)@.wf(),
{
    let left = match key.code {
        KeyCode::Char(c) => c == 'h',
        KeyCode::Left => true,
        _ => false,
    };
    let right = match key.code {
        KeyCode::Char(c) => c == 'l',
        KeyCode::Right => true,
        _ => false,
    };
    let edit = match key.code {
        KeyCode::Char(c) => c == 'i',
        _ => false,
    };
    if left {
        app.values_screen = match app.values_screen {
            ValuesScreen::Headers => ValuesScreen::Body,
            ValuesScreen::Params => ValuesScreen::Headers,
            ValuesScreen::Body => ValuesScreen::Body,
        };
    } else if right {
        app.values_screen = match app.values_screen {
            ValuesScreen::Body => ValuesScreen::Headers,
            ValuesScreen::Headers => ValuesScreen::Params,
            ValuesScreen::Params => ValuesScreen::Params,
        };
    } else if edit {
        app.current_screen = match app.values_screen {
            ValuesScreen::Body => CurrentScreen::EditingBody,
            ValuesScreen::Headers => CurrentScreen::EditingHeaders,
            ValuesScreen::Params => CurrentScreen::EditingParams,
        };
    }
    Ok(None)
}

/// Handles a key of the response section.
pub fn handle_response_screen_keys(app: &mut App, key: KeyEvent) -> (r: Result<
    Option<String>,
    RestlessError,
>)
    ensures
        r matches Ok(None),
        final(app)@ == after_response_key(old(app)@, key),
        old(app)@.wf() ==> final(app)@.wf(),
{
    match key.code {
        KeyCode::Left => {
            app.response_tab_selected = 0;
        },
        KeyCode::Right => {
            app.response_tab_selected = 1;
        },
        KeyCode::Char(c) => {
            if c == 'h' {
                app.response_tab_selected = 0;
            } else if c == 'b' {
                app.response_tab_selected = 1;
            } else if c == 'j' {
                if app.response_tab_selected == 1 {
                    app.response_scroll = scroll_step(app.response_scroll, ScrollDirection::Down);
                }
            } else if c == 'k' {
                if app.response_tab_selected == 1 {
                    app.response_scroll = scroll_step(app.response_scroll, ScrollDirection::Up);
                }
            }
        },
        _ => {},
    }
    Ok(None)
}

/// Handles a key of the URL section, which has none of its own.
pub fn handle_url_screen_keys(app: &mut App, key: KeyEvent) -> (r: Result<
    Option<String>,
    RestlessError,
>)
    ensures
        r matches Ok(None),
        final(app)@ == old(app)@,
{
    Ok(None)
}

/// Checks the edit buffers and says whether the request is to be sent.
pub fn handle_send_request(app: &App) -> (r: Result<KeyAction, RestlessError>)
    ensures
        r matches Ok(action) && action@ == match validation_message(app@) {
            Some(text) => KeyActionView::Done(Some(text)),
            None => KeyActionView::Send,
        },
{
    match app.validate_current_request() {
        Err(e) => {
            let text = e.to_string();
            Ok(KeyAction::Done(Some(concat_str("Validation error: ", text.as_str()))))
        },
        Ok(()) => Ok(KeyAction::Send),
    }
}

/// Handles a key on one of the three sections.
pub fn handle_main_screen_keys(app: &mut App, key: KeyEvent) -> (r: Result<
    KeyAction,
    RestlessError,
>)
    requires
        old(app).tabs.len() < usize::MAX,
    ensures
        final(app)@ == after_main_screen_key(old(app)@, key),
        r matches Ok(action) && action@ == main_screen_action(old(app)@, key),
        old(app)@.wf() ==> final(app)@.wf(),
        old(app)@.verbs_known() ==> final(app)@.verbs_known(),
{
    if app.method_dropdown_open {
        return done(handle_method_dropdown_keys(app, key));
    }
    match key.code {
        KeyCode::Char(c) => {
            if c == 'j' && key.control {
                done(navigate_section_down(app))
            } else if c == 'k' && key.control {
                done(navigate_section_up(app))
            } else if c == 'u' && app.current_screen == CurrentScreen::Url {
                app.current_screen = CurrentScreen::EditingUrl;
                Ok(KeyAction::Done(None))
            } else if c == 'm' {
                open_method_dropdown(app);
                Ok(KeyAction::Done(None))
            } else if c == 't' {
                done(handle_new_tab(app))
            } else if c == 'x' {
                done(handle_close_tab(app))
            } else {
                done(handle_section_keys(app, key))
            }
        },
        KeyCode::Enter => handle_send_request(app),
        KeyCode::Tab => done(handle_next_tab(app)),
        KeyCode::BackTab => done(handle_prev_tab(app)),
        _ => done(handle_section_keys(app, key)),
    }
}

/// Hands a key to the handler of the section in focus.
pub fn handle_section_keys(app: &mut App, key: KeyEvent) -> (r: Result<
    Option<String>,
    RestlessError,
>)
    ensures
        r matches Ok(None),
        final(app)@ == after_section_key(old(app)@, key),
        old(app)@.wf() ==> final(app)@.wf(),
{
    match app.current_screen {
        CurrentScreen::Values => handle_values_screen_keys(app, key),
        CurrentScreen::Response => handle_response_screen_keys(app, key),
        CurrentScreen::Url => handle_url_screen_keys(app, key),
        _ => Ok(None),
    }
}

/// Handles a key on the URL editing screen.
pub fn handle_url_editing_keys(app: &mut App, key: KeyEvent) -> (r: Result<
    Option<String>,
    RestlessError,
>)
    ensures
        final(app)@ == after_url_editing_key(old(app)@, key),
        r matches Ok(m) && message_view(m) == url_editing_message(old(app)@, key),
        old(app)@.wf() ==> final(app)@.wf(),
        old(app)@.verbs_known() ==> final(app)@.verbs_known(),
{
    match key.code {
        KeyCode::Enter => {
            match app.save_current_tab_state() {
                Err(e) => {
                    let text = e.to_string();
                    return Ok(Some(concat_str("Failed to save tab state: ", text.as_str())));
                },
                Ok(()) => {},
            }
            app.current_screen = CurrentScreen::Url;
        },
        KeyCode::Backspace => {
            app.url_input.pop();
        },
        KeyCode::Esc => {
            app.current_screen = CurrentScreen::Url;
        },
        KeyCode::Char(c) => {
            app.url_input.push(c);
        },
        _ => {},
    }
    Ok(None)
}

/// Handles a key on the body editing screen.
pub fn handle_body_editing_keys(app: &mut App, key: KeyEvent) -> (r: Result<
    Option<String>,
    RestlessError,
>)
    ensures
        r matches Ok(None),
        final(app)@ == after_body_editing_key(old(app)@, key),
        old(app)@.wf() ==> final(app)@.wf(),
        old(app)@.verbs_known() ==> final(app)@.verbs_known(),
{
    match key.code {
        KeyCode::Enter => {
            app.body_input.push('\n');
        },
        KeyCode::Backspace => {
            app.body_input.pop();
        },
        KeyCode::Esc => {
            app.current_screen = CurrentScreen::Values;
        },
        KeyCode::Char(c) => {
            app.body_input.push(c);
        },
        _ => {},
    }
    Ok(None)
}

/// Decides whether a text ends with `c`.
pub fn ends_with_char(s: &str, c: char) -> (r: bool)
    ensures
        r == (s@.len() > 0 && s@.last() == c),
{
    let v = to_chars(s);
    v.len() > 0 && v[v.len() - 1] == c
}

/// Handles a key on the header editing screen.
pub fn handle_headers_editing_keys(app: &mut App, key: KeyEvent) -> (r: Result<
    Option<String>,
    RestlessError,
>)
    ensures
        final(app)@ == after_headers_editing_key(old(app)@, key),
        r matches Ok(m) && message_view(m) == headers_editing_message(old(app)@, key),
        old(app)@.wf() ==> final(app)@.wf(),
        old(app)@.verbs_known() ==> final(app)@.verbs_known(),
{
    match key.code {
        KeyCode::Enter => {
            if !app.current_header_key.as_str().is_empty() {
                match app.add_header() {
                    Err(e) => {
                        let text = e.to_string();
                        return Ok(Some(concat_str("Header error: ", text.as_str())));
                    },
                    Ok(()) => {},
                }
            } else {
                app.current_screen = CurrentScreen::Values;
            }
        },
        KeyCode::Backspace => {
            if !app.current_header_value.as_str().is_empty() {
                app.current_header_value.pop();
            } else {
                app.current_header_key.pop();
            }
        },
        KeyCode::Esc => {
            app.current_header_key = String::new();
            app.current_header_value = String::new();
            app.current_screen = CurrentScreen::Values;
        },
        KeyCode::Char(c) => {
            let no_value = app.current_header_value.as_str().is_empty();
            let no_key = app.current_header_key.as_str().is_empty();
            if c == ' ' && no_value && (no_key || ends_with_char(
                app.current_header_key.as_str(),
                ':',
            )) {
            } else if !contains_char(app.current_header_key.as_str(), ':') {
                app.current_header_key.push(c);
            } else {
                app.current_header_value.push(c);
            }
        },
        _ => {},
    }
    Ok(None)
}

/// Handles a key on the parameter editing screen.
pub fn handle_params_editing_keys(app: &mut App, key: KeyEvent) -> (r: Result<
    Option<String>,
    RestlessError,
>)
    ensures
        final(app)@ == after_params_editing_key(old(app)@, key),
        r matches Ok(m) && message_view(m) == params_editing_message(old(app)@, key),
        old(app)@.wf() ==> final(app)@.wf(),
        old(app)@.verbs_known() ==> final(app)@.verbs_known(),
{
    match key.code {
        KeyCode::Enter => {
            if !app.current_param_key.as_str().is_empty() {
                match app.add_param() {
                    Err(e) => {
                        let text = e.to_string();
                        return Ok(Some(concat_str("Parameter error: ", text.as_str())));
                    },
                    Ok(()) => {},
                }
            } else {
                app.current_screen = CurrentScreen::Values;
            }
        },
        KeyCode::Backspace => {
            if !app.current_param_value.as_str().is_empty() {
                app.current_param_value.pop();
            } else {
                app.current_param_key.pop();
            }
        },
        KeyCode::Esc => {
            app.current_param_key = String::new();
            app.current_param_value = String::new();
            app.current_screen = CurrentScreen::Values;
        },
        KeyCode::Char(c) => {
            if !contains_char(app.current_param_key.as_str(), '=') {
                app.current_param_key.push(c);
            } else {
                app.current_param_value.push(c);
            }
        },
        _ => {},
    }
    Ok(None)
}

/// Handles a key on the help screen.
pub fn handle_help_keys(app: &mut App, key: KeyEvent) -> (r: Result<Option<String>, RestlessError>)
    ensures
        r matches Ok(None),
        final(app)@ == after_help_key(old(app)@, key),
        old(app)@.wf() ==> final(app)@.wf(),
        old(app)@.verbs_known() ==> final(app)@.verbs_known(),
{
    match key.code {
        KeyCode::Esc => {
            app.hide_help();
        },
        KeyCode::Char(c) => {
            if c == 'j' {
                if app.help_scroll < HELP_ENTRY_COUNT - 1 {
                    app.help_scroll = app.help_scroll + 1;
                }
            } else if c == 'k' {
                app.help_scroll = scroll_step(app.help_scroll, ScrollDirection::Up);
            }
        },
        _ => {},
    }
    Ok(None)
}

} // verus!
