//! The decisions of the event loop. The loop itself waits for keys and
//! talks to the server; after each of these it asks here what the state
//! becomes and what it has to do next.

use vstd::prelude::*;
use crate::app::app::{App, AppView, CurrentScreen};
use crate::app::tab::{tabs_view, TabView};
use crate::error::RequestError;
use crate::handlers::{
    action_of_key, after_key, handle_key_event, lemma_key_keeps_the_store_in_order, KeyAction,
    KeyActionView, KeyEvent,
};
use crate::handlers::request::{read_response, response_fault, with_response};
use crate::handlers::tab::message_view;
use crate::logic::request::HttpMethod;
use crate::logic::response::lenient_response;
use crate::text::concat_str;

verus! {

/// What the event loop has to do next.
#[derive(Debug, Clone, Copy, PartialEq, Eq, Structural)]
pub enum LoopAction {
    /// Draw, and wait for the next key.
    Wait,
    /// Send the request of the selected tab, and report how it went.
    Send,
    /// Stop.
    Quit,
}

/// True for a key event that goes to the key router: the press of a key,
/// while no message is shown and the application has not been left.
pub open spec fn is_routed(s: AppView, banner: Option<Seq<char>>, key: KeyEvent) -> bool {
    s.current_screen != CurrentScreen::Exiting && !key.released && banner is None
}

/// The state after a key event.
pub open spec fn state_after_event(s: AppView, banner: Option<Seq<char>>, key: KeyEvent) -> AppView {
    if is_routed(s, banner, key) {
        after_key(s, key)
    } else {
        s
    }
}

/// The message that is shown after a key event. A message that is shown
/// takes the next key press for itself and goes away.
pub open spec fn banner_after_event(s: AppView, banner: Option<Seq<char>>, key: KeyEvent) -> Option<
    Seq<char>,
> {
    if is_routed(s, banner, key) {
        match action_of_key(s, key) {
            KeyActionView::Done(message) => message,
            KeyActionView::Send => None,
        }
    } else if s.current_screen != CurrentScreen::Exiting && !key.released {
        None
    } else {
        banner
    }
}

/// What the loop does after a key event.
pub open spec fn action_after_event(s: AppView, banner: Option<Seq<char>>, key: KeyEvent) -> LoopAction {
    if s.current_screen == CurrentScreen::Exiting {
        LoopAction::Quit
    } else if !is_routed(s, banner, key) {
        LoopAction::Wait
    } else if action_of_key(s, key) == KeyActionView::Send {
        LoopAction::Send
    } else if after_key(s, key).current_screen == CurrentScreen::Exiting {
        LoopAction::Quit
    } else {
        LoopAction::Wait
    }
}

/// The message after an exchange with the server.
pub open spec fn banner_after_exchange(outcome: Result<(u16, String, String), RequestError>) -> Option<
    Seq<char>,
> {
    match outcome {
        Ok((status, headers, body)) => match response_fault(headers@, body@) {
            Some(fault) => Some("Response parsing error: "@ + fault),
            None => None,
        },
        Err(e) => Some("Request failed: "@ + e.text()),
    }
}

/// What can come to the event loop: a key, an answer of the server with
/// its status code, header blob and body, or the failure of an exchange.
pub enum LoopEvent {
    Key(KeyEvent),
    Answer(u16, Seq<char>, Seq<char>),
    Failure,
}

/// The state after an event of the loop.
pub open spec fn state_after(s: AppView, banner: Option<Seq<char>>, event: LoopEvent) -> AppView {
    match event {
        LoopEvent::Key(key) => state_after_event(s, banner, key),
        LoopEvent::Answer(status, headers, body) => with_response(
            s,
            s.selected_tab as int,
            Some(lenient_response(status, headers, body)),
        ),
        LoopEvent::Failure => s,
    }
}

/// Whether a message is shown after an event of the loop.
pub open spec fn shown_after(s: AppView, banner: Option<Seq<char>>, event: LoopEvent) -> bool {
    match event {
        LoopEvent::Key(key) => banner_after_event(s, banner, key) is Some,
        LoopEvent::Answer(status, headers, body) => response_fault(headers, body) is Some,
        LoopEvent::Failure => true,
    }
}

/// The state after a run of events from the start of the application, and
/// whether a message is shown then.
pub open spec fn state_after_run(events: Seq<LoopEvent>) -> (AppView, bool)
    decreases events.len(),
{
    if events.len() == 0 {
        (AppView::initial(), false)
    } else {
        let before = state_after_run(events.drop_last());
        let banner = if before.1 {
            Some(Seq::<char>::empty())
        } else {
            None
        };
        (
            state_after(before.0, banner, events.last()),
            shown_after(before.0, banner, events.last()),
        )
    }
}

/// What one event of the loop keeps: the order of the tab store and the
/// verbs of the tabs. It adds one tab at most.
pub proof fn lemma_event_keeps_the_store_in_order(
    s: AppView,
    banner: Option<Seq<char>>,
    event: LoopEvent,
)
    requires
        s.wf(),
        s.verbs_known(),
        s.tabs.len() < usize::MAX,
    ensures
        state_after(s, banner, event).wf(),
        state_after(s, banner, event).verbs_known(),
        state_after(s, banner, event).tabs.len() <= s.tabs.len() + 1,
{
    match event {
        LoopEvent::Key(key) => {
            lemma_key_keeps_the_store_in_order(s, key);
        },
        LoopEvent::Answer(status, headers, body) => {
            let next = state_after(s, banner, event);
            assert forall|i: int| 0 <= i < next.tabs.len() implies HttpMethod::of_token(
                #[trigger] next.tabs[i].request.method,
            ) is Some by {
                assert(next.tabs[i].request == s.tabs[i].request);
            }
        },
        LoopEvent::Failure => {},
    }
}

/// In every state that the application can reach there is a tab, and the
/// selected index names one. Every tab holds one of the four verbs.
pub proof fn lemma_reachable_states_are_in_order(events: Seq<LoopEvent>)
    requires
        events.len() + 1 < usize::MAX,
    ensures
        state_after_run(events).0.wf(),
        state_after_run(events).0.verbs_known(),
        state_after_run(events).0.tabs.len() <= events.len() + 1,
    decreases events.len(),
{
    if events.len() == 0 {
        HttpMethod::GET.lemma_token_round_trip();
    } else {
        lemma_reachable_states_are_in_order(events.drop_last());
        let before = state_after_run(events.drop_last());
        let banner = if before.1 {
            Some(Seq::<char>::empty())
        } else {
            None
        };
        lemma_event_keeps_the_store_in_order(before.0, banner, events.last());
    }
}

/// Once the application has been left, no key changes anything and the
/// loop is told to stop.
pub proof fn lemma_exit_is_final(s: AppView, banner: Option<Seq<char>>, key: KeyEvent)
    requires
        s.current_screen == CurrentScreen::Exiting,
    ensures
        state_after_event(s, banner, key) == s,
        banner_after_event(s, banner, key) == banner,
        action_after_event(s, banner, key) == LoopAction::Quit,
{
}

/// A message that is shown takes the next key press for itself: the state
/// stays as it is and the message goes away.
pub proof fn lemma_banner_takes_key(s: AppView, banner: Option<Seq<char>>, key: KeyEvent)
    requires
        banner is Some,
        s.current_screen != CurrentScreen::Exiting,
        !key.released,
    ensures
        state_after_event(s, banner, key) == s,
        banner_after_event(s, banner, key) is None,
        action_after_event(s, banner, key) == LoopAction::Wait,
{
}

/// Takes a key event and says what the loop has to do next.
pub fn on_key(app: &mut App, banner: &mut Option<String>, key: KeyEvent) -> (action: LoopAction)
    requires
        old(app).tabs.len() < usize::MAX,
    ensures
        final(app)@ == state_after_event(old(app)@, message_view(*old(banner)), key),
        message_view(*final(banner)) == banner_after_event(
            old(app)@,
            message_view(*old(banner)),
            key,
        ),
        action == action_after_event(old(app)@, message_view(*old(banner)), key),
        old(app)@.wf() ==> final(app)@.wf(),
        old(app)@.verbs_known() ==> final(app)@.verbs_known(),
{
    if app.current_screen == CurrentScreen::Exiting {
        return LoopAction::Quit;
    }
    if key.released {
        return LoopAction::Wait;
    }
    if banner.is_some() {
        *banner = None;
        return LoopAction::Wait;
    }
    match handle_key_event(app, key) {
        Ok(KeyAction::Send) => LoopAction::Send,
        Ok(KeyAction::Done(message)) => {
            *banner = message;
            if app.current_screen == CurrentScreen::Exiting {
                LoopAction::Quit
            } else {
                LoopAction::Wait
            }
        },
        Err(_) => LoopAction::Wait,
    }
}

/// Takes the outcome of an exchange with the server. An answer is kept in
/// the selected tab, as far as it can be read. A failure is shown as a
/// message.
pub fn on_exchange(
    app: &mut App,
    banner: &mut Option<String>,
    outcome: Result<(u16, String, String), RequestError>,
)
    requires
        old(app).selected_tab < old(app).tabs.len(),
    ensures
        final(app)@ == match outcome {
            Ok((status, headers, body)) => with_response(
                old(app)@,
                old(app)@.selected_tab as int,
                Some(lenient_response(status, headers@, body@)),
            ),
            Err(_) => old(app)@,
        },
        message_view(*final(banner)) == banner_after_exchange(outcome),
        old(app)@.wf() ==> final(app)@.wf(),
        old(app)@.verbs_known() ==> final(app)@.verbs_known(),
{
    match outcome {
        Ok((status, headers, body)) => {
            let (response, fault) = read_response(status, headers, body);
            let i = app.selected_tab;
            let ghost before = tabs_view(app.tabs@);
            app.tabs[i].response = Some(response);
            proof {
                assert(tabs_view(app.tabs@) =~= before.update(
                    i as int,
                    TabView { response: Some(response@), ..before[i as int] },
                ));
                if old(app)@.verbs_known() {
                    assert forall|j: int| 0 <= j < app@.tabs.len() implies HttpMethod::of_token(
                        #[trigger] app@.tabs[j].request.method,
                    ) is Some by {
                        assert(app@.tabs[j].request == old(app)@.tabs[j].request);
                    }
                }
            }
            match fault {
                None => {
                    *banner = None;
                },
                Some(e) => {
                    let text = e.to_string();
                    *banner = Some(concat_str("Response parsing error: ", text.as_str()));
                },
            }
        },
        Err(e) => {
            let text = e.to_string();
            *banner = Some(concat_str("Request failed: ", text.as_str()));
        },
    }
}

} // verus!
