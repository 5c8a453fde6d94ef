//! The tab actions as the key router calls them: each turns a failure of
//! the tab store into a message for the user.

use vstd::prelude::*;
use crate::app::app::{App, AppView};
use crate::error::RestlessError;
use crate::text::{concat_str, decimal, format_decimal};

verus! {

/// What a message is in the model.
pub open spec fn message_view(message: Option<String>) -> Option<Seq<char>> {
    match message {
        Some(text) => Some(text@),
        None => None,
    }
}

/// The message for the outcome of a tab action, given the text of its
/// error.
pub open spec fn tab_message(fault: Option<Seq<char>>) -> Option<Seq<char>> {
    match fault {
        Some(text) => Some("Tab error: "@ + text),
        None => None,
    }
}

/// What `handle_switch_to_tab` shows, if anything.
pub open spec fn switch_to_tab_message(s: AppView, index: usize) -> Option<Seq<char>> {
    if index >= s.tabs.len() {
        Some("Invalid tab index: "@ + decimal(index as nat))
    } else {
        match s.save_fault() {
            Some(fault) => Some("Failed to save current tab: "@ + fault),
            None => if s.saved().selecting(index).can_restore() {
                None
            } else {
                Some(
                    "Failed to restore tab: "@ + ("Application state error: "@
                        + s.saved().selecting(index).restore_fault()),
                )
            },
        }
    }
}

/// Turns the outcome of a tab action into what is shown to the user.
pub fn tab_outcome(outcome: Result<(), RestlessError>) -> (r: Result<Option<String>, RestlessError>)
    ensures
        match outcome {
            Ok(_) => r matches Ok(None),
            Err(e) => r matches Ok(Some(msg)) && msg@ == "Tab error: "@ + e.text(),
        },
{
    match outcome {
        Ok(()) => Ok(None),
        Err(e) => {
            let text = e.to_string();
            Ok(Some(concat_str("Tab error: ", text.as_str())))
        },
    }
}

/// Opens a new tab and switches to it.
pub fn handle_new_tab(app: &mut App) -> (r: Result<Option<String>, RestlessError>)
    requires
        old(app).tabs.len() < usize::MAX,
    ensures
        final(app)@ == old(app)@.after_new_tab(),
        r matches Ok(m) && message_view(m) == tab_message(old(app)@.new_tab_fault()),
        old(app)@.wf() ==> final(app)@.wf(),
        old(app)@.verbs_known() ==> final(app)@.verbs_known(),
{
    let outcome = app.add_new_tab();
    tab_outcome(outcome)
}

/// Closes the selected tab, unless it is the only one.
pub fn handle_close_tab(app: &mut App) -> (r: Result<Option<String>, RestlessError>)
    ensures
        final(app)@ == old(app)@.after_close_tab(),
        r matches Ok(m) && message_view(m) == tab_message(old(app)@.close_tab_fault()),
        old(app)@.wf() ==> final(app)@.wf(),
        old(app)@.verbs_known() ==> final(app)@.verbs_known(),
{
    let outcome = app.close_current_tab();
    tab_outcome(outcome)
}

/// Switches to the next tab.
pub fn handle_next_tab(app: &mut App) -> (r: Result<Option<String>, RestlessError>)
    ensures
        final(app)@ == old(app)@.after_switch_to(old(app)@.next_index()),
        r matches Ok(m) && message_view(m) == tab_message(
            old(app)@.switch_fault(old(app)@.next_index()),
        ),
        old(app)@.wf() ==> final(app)@.wf(),
        old(app)@.verbs_known() ==> final(app)@.verbs_known(),
{
    let outcome = app.next_tab();
    tab_outcome(outcome)
}

/// Switches to the previous tab.
pub fn handle_prev_tab(app: &mut App) -> (r: Result<Option<String>, RestlessError>)
    ensures
        final(app)@ == old(app)@.after_switch_to(old(app)@.prev_index()),
        r matches Ok(m) && message_view(m) == tab_message(
            old(app)@.switch_fault(old(app)@.prev_index()),
        ),
        old(app)@.wf() ==> final(app)@.wf(),
        old(app)@.verbs_known() ==> final(app)@.verbs_known(),
{
    let outcome = app.prev_tab();
    tab_outcome(outcome)
}

/// Switches to the tab at `index`. An index that names no tab changes
/// nothing.
pub fn handle_switch_to_tab(app: &mut App, index: usize) -> (r: Result<
    Option<String>,
    RestlessError,
>)
    ensures
        final(app)@ == if index < old(app)@.tabs.len() {
            old(app)@.after_switch_to(index)
        } else {
            old(app)@
        },
        r matches Ok(m) && message_view(m) == switch_to_tab_message(old(app)@, index),
        old(app)@.wf() ==> final(app)@.wf(),
        old(app)@.verbs_known() ==> final(app)@.verbs_known(),
{
    if index >= app.tabs.len() {
        let number = format_decimal(index as u64);
        return Ok(Some(concat_str("Invalid tab index: ", number.as_str())));
    }
    match app.save_current_tab_state() {
        Err(e) => {
            let text = e.to_string();
            return Ok(Some(concat_str("Failed to save current tab: ", text.as_str())));
        },
        Ok(()) => {},
    }
    app.selected_tab = index;
    match app.restore_current_tab_state() {
        Err(e) => {
            let text = e.to_string();
            Ok(Some(concat_str("Failed to restore tab: ", text.as_str())))
        },
        Ok(()) => Ok(None),
    }
}

} // verus!
