//! The key router: it maps a key, on the current screen, to a change of
//! state and to what the event loop has to do next.

pub mod keyboard;
pub mod navigation;
pub mod request;
pub mod tab;

pub use keyboard::{
    handle_body_editing_keys, handle_headers_editing_keys, handle_help_keys,
    handle_main_screen_keys, handle_params_editing_keys, handle_url_editing_keys,
};

use vstd::prelude::*;
use crate::app::app::{App, AppView, CurrentScreen};
use crate::app::model::lemma_tab_operations_keep_verbs;
use crate::error::RestlessError;
use crate::handlers::keyboard::{
    after_body_editing_key, after_headers_editing_key, after_help_key, after_main_screen_key,
    after_params_editing_key, after_url_editing_key, headers_editing_message, main_screen_action,
    params_editing_message, url_editing_message,
};
use crate::handlers::tab::message_view;

verus! {

/// A key, as the terminal reports it.
#[derive(Debug, Clone, Copy, PartialEq, Eq, Structural)]
pub enum KeyCode {
    Char(char),
    Enter,
    Esc,
    Backspace,
    Tab,
    BackTab,
    Up,
    Down,
    Left,
    Right,
    /// Any key that the router has no use for.
    Other,
}

/// A key event: the key, whether Control was held, and whether the event
/// reports the release of the key.
#[derive(Debug, Clone, Copy, PartialEq, Eq, Structural)]
pub struct KeyEvent {
    pub code: KeyCode,
    pub control: bool,
    pub released: bool,
}

/// What is left to do once a key has been handled.
#[derive(Debug)]
pub enum KeyAction {
    /// Nothing, but to show the message if there is one.
    Done(Option<String>),
    /// The request of the selected tab is to be sent.
    Send,
}

/// The model of a `KeyAction`.
pub enum KeyActionView {
    Done(Option<Seq<char>>),
    Send,
}

impl View for KeyAction {
    type V = KeyActionView;

    open spec fn view(&self) -> KeyActionView {
        match self {
            KeyAction::Done(m) => KeyActionView::Done(message_view(*m)),
            KeyAction::Send => KeyActionView::Send,
        }
    }
}

/// The result of handling an event.
#[derive(Debug, Clone)]
pub enum EventResult {
    /// Continue processing normally
    Continue,
    /// Exit the application
    Exit,
    /// Show an error message
    Error(String),
    /// Show an info message
    Info(String),
}

impl EventResult {
    /// The result that shows an error message.
    pub fn error(message: &str) -> (r: Self)
        ensures
            r matches EventResult::Error(m) && m@ == message@,
    {
        EventResult::Error(String::from_str(message))
    }

    /// The result that shows a piece of information.
    pub fn info(message: &str) -> (r: Self)
        ensures
            r matches EventResult::Info(m) && m@ == message@,
    {
        EventResult::Info(String::from_str(message))
    }
}

impl KeyEvent {
    /// The press of a key without Control.
    pub fn new(code: KeyCode) -> (r: KeyEvent)
        ensures
            r == (KeyEvent { code, control: false, released: false }),
    {
        KeyEvent { code, control: false, released: false }
    }

    /// The press of a key with Control held.
    pub fn with_control(code: KeyCode) -> (r: KeyEvent)
        ensures
            r == (KeyEvent { code, control: true, released: false }),
    {
        KeyEvent { code, control: true, released: false }
    }
}

/// True on the four editing screens.
pub open spec fn editing(screen: CurrentScreen) -> bool {
    screen == CurrentScreen::EditingUrl || screen == CurrentScreen::EditingBody || screen
        == CurrentScreen::EditingHeaders || screen == CurrentScreen::EditingParams
}

/// True on the screens where `q` and `?` act: the three sections and the
/// help overlay. On the editing screens they are text, and on the exit
/// screen no key acts.
pub open spec fn takes_global_keys(screen: CurrentScreen) -> bool {
    !editing(screen) && screen != CurrentScreen::Exiting
}

/// True for `q` and `?` on a screen where they act.
pub open spec fn is_global_key(s: AppView, key: KeyEvent) -> bool {
    takes_global_keys(s.current_screen) && (key.code == KeyCode::Char('q') || key.code
        == KeyCode::Char('?'))
}

/// The state after a global key: `q` leads to the exit, `?` shows the help
/// overlay or closes it.
pub open spec fn after_global_key(s: AppView, key: KeyEvent) -> AppView {
    if !is_global_key(s, key) {
        s
    } else if key.code == KeyCode::Char('q') {
        AppView { current_screen: CurrentScreen::Exiting, ..s }
    } else if s.help_visible {
        s.help_hidden()
    } else {
        s.help_shown()
    }
}

/// The state after a key.
pub open spec fn after_key(s: AppView, key: KeyEvent) -> AppView {
    if is_global_key(s, key) {
        after_global_key(s, key)
    } else {
        match s.current_screen {
            CurrentScreen::Url => after_main_screen_key(s, key),
            CurrentScreen::Values => after_main_screen_key(s, key),
            CurrentScreen::Response => after_main_screen_key(s, key),
            CurrentScreen::EditingUrl => after_url_editing_key(s, key),
            CurrentScreen::EditingBody => after_body_editing_key(s, key),
            CurrentScreen::EditingHeaders => after_headers_editing_key(s, key),
            CurrentScreen::EditingParams => after_params_editing_key(s, key),
            CurrentScreen::Help => after_help_key(s, key),
            CurrentScreen::Exiting => s,
        }
    }
}

/// What is left to do after a key.
pub open spec fn action_of_key(s: AppView, key: KeyEvent) -> KeyActionView {
    if is_global_key(s, key) {
        KeyActionView::Done(None)
    } else {
        match s.current_screen {
            CurrentScreen::Url => main_screen_action(s, key),
            CurrentScreen::Values => main_screen_action(s, key),
            CurrentScreen::Response => main_screen_action(s, key),
            CurrentScreen::EditingUrl => KeyActionView::Done(url_editing_message(s, key)),
            CurrentScreen::EditingBody => KeyActionView::Done(None),
            CurrentScreen::EditingHeaders => KeyActionView::Done(headers_editing_message(s, key)),
            CurrentScreen::EditingParams => KeyActionView::Done(params_editing_message(s, key)),
            CurrentScreen::Help => KeyActionView::Done(None),
            CurrentScreen::Exiting => KeyActionView::Done(Some("Application exiting"@)),
        }
    }
}

/// The exit screen is final: no key changes anything there, `q` and `?`
/// included, and every key is answered with the same message.
pub proof fn lemma_exit_takes_no_key(s: AppView, key: KeyEvent)
    requires
        s.current_screen == CurrentScreen::Exiting,
    ensures
        after_key(s, key) == s,
        after_global_key(s, key) == s,
        !is_global_key(s, key),
        action_of_key(s, key) == KeyActionView::Done(Some("Application exiting"@)),
{
}

/// No key leads from an editing screen to the help overlay or out of the
/// application: `q` and `?` are text there.
pub proof fn lemma_editing_keeps_global_keys_out(s: AppView, key: KeyEvent)
    requires
        editing(s.current_screen),
    ensures
        after_key(s, key).current_screen != CurrentScreen::Help,
        after_key(s, key).current_screen != CurrentScreen::Exiting,
        after_key(s, key).help_visible == s.help_visible,
{
}

/// The help overlay gives the covered screen back as it was, whatever was
/// scrolled in between.
pub proof fn lemma_help_gives_the_screen_back(s: AppView, scroll: usize)
    requires
        !s.help_visible,
    ensures
        s.help_shown().current_screen == CurrentScreen::Help,
        (AppView { help_scroll: scroll, ..s.help_shown() }).help_hidden().current_screen
            == s.current_screen,
        !(AppView { help_scroll: scroll, ..s.help_shown() }).help_hidden().help_visible,
{
}

/// Whatever key comes, the tab store stays in order, every tab keeps one
/// of the four verbs, and one tab at most is added.
pub proof fn lemma_key_keeps_the_store_in_order(s: AppView, key: KeyEvent)
    requires
        s.wf(),
        s.verbs_known(),
        s.tabs.len() < usize::MAX,
    ensures
        after_key(s, key).wf(),
        after_key(s, key).verbs_known(),
        after_key(s, key).tabs.len() <= s.tabs.len() + 1,
{
    lemma_tab_operations_keep_verbs(s);
}

/// Decides whether an editing screen has the focus.
pub fn is_editing_mode(app: &App) -> (r: bool)
    ensures
        r == editing(app@.current_screen),
{
    match app.current_screen {
        CurrentScreen::EditingUrl => true,
        CurrentScreen::EditingBody => true,
        CurrentScreen::EditingHeaders => true,
        CurrentScreen::EditingParams => true,
        _ => false,
    }
}

/// Decides whether `q` and `?` act on the screen in focus.
pub fn accepts_global_keys(app: &App) -> (r: bool)
    ensures
        r == takes_global_keys(app@.current_screen),
{
    match app.current_screen {
        CurrentScreen::Exiting => false,
        _ => !is_editing_mode(app),
    }
}

/// Handles `q` and `?` on the screens where they act: the three sections
/// and the help overlay. The result is `Some` where the key was one of
/// them and acted. On the editing screens and on the exit screen nothing
/// changes and the result is `None`.
pub fn handle_global_keys(app: &mut App, key: KeyEvent) -> (r: Result<
    Option<Option<String>>,
    RestlessError,
>)
    ensures
        final(app)@ == after_global_key(old(app)@, key),
        is_global_key(old(app)@, key) ==> r matches Ok(Some(None)),
        !is_global_key(old(app)@, key) ==> r matches Ok(None),
        old(app)@.wf() ==> final(app)@.wf(),
        old(app)@.verbs_known() ==> final(app)@.verbs_known(),
{
    match key.code {
        KeyCode::Char(c) => {
            if c == 'q' && accepts_global_keys(app) {
                app.current_screen = CurrentScreen::Exiting;
                Ok(Some(None))
            } else if c == '?' && accepts_global_keys(app) {
                if app.help_visible {
                    app.hide_help();
                } else {
                    app.show_help();
                }
                Ok(Some(None))
            } else {
                Ok(None)
            }
        },
        _ => Ok(None),
    }
}

/// Routes a key: first to `q` and `?` where they act, then to the handler
/// of the screen that has the focus. On the exit screen no key changes
/// anything, and every key is answered with a message that says so.
pub fn handle_key_event(app: &mut App, key: KeyEvent) -> (r: Result<KeyAction, RestlessError>)
    requires
        old(app).tabs.len() < usize::MAX,
    ensures
        final(app)@ == after_key(old(app)@, key),
        r matches Ok(action) && action@ == action_of_key(old(app)@, key),
        old(app)@.wf() ==> final(app)@.wf(),
        old(app)@.verbs_known() ==> final(app)@.verbs_known(),
{
    match handle_global_keys(app, key) {
        Ok(Some(result)) => {
            return Ok(KeyAction::Done(result));
        },
        Ok(None) => {},
        Err(e) => {
            return Err(e);
        },
    }
    match app.current_screen {
        CurrentScreen::Url | CurrentScreen::Values | CurrentScreen::Response => {
            handle_main_screen_keys(app, key)
        },
        CurrentScreen::EditingUrl => done(handle_url_editing_keys(app, key)),
        CurrentScreen::EditingBody => done(handle_body_editing_keys(app, key)),
        CurrentScreen::EditingHeaders => done(handle_headers_editing_keys(app, key)),
        CurrentScreen::EditingParams => done(handle_params_editing_keys(app, key)),
        CurrentScreen::Help => done(handle_help_keys(app, key)),
        CurrentScreen::Exiting => Ok(KeyAction::Done(Some(String::from_str("Application exiting")))),
    }
}

/// Wraps the outcome of a handler that never asks for a request to be sent.
pub fn done(outcome: Result<Option<String>, RestlessError>) -> (r: Result<KeyAction, RestlessError>)
    ensures
        match outcome {
            Ok(m) => r == Ok::<KeyAction, RestlessError>(KeyAction::Done(m)),
            Err(e) => r == Err::<KeyAction, RestlessError>(e),
        },
{
    match outcome {
        Ok(m) => Ok(KeyAction::Done(m)),
        Err(e) => Err(e),
    }
}

} // verus!
