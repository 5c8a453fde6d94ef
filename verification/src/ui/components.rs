//! The texts that the components of the interface show.

use vstd::prelude::*;
use crate::app::app::{App, AppView, CurrentScreen};
use crate::text::{concat_str, decimal, format_decimal};

verus! {

/// The words of the status bar about the screen in focus.
pub open spec fn screen_note(screen: CurrentScreen) -> Seq<char> {
    match screen {
        CurrentScreen::EditingUrl => " | Editing URL"@,
        CurrentScreen::EditingBody => " | Editing Body"@,
        CurrentScreen::EditingHeaders => " | Editing Headers"@,
        CurrentScreen::EditingParams => " | Editing Params"@,
        CurrentScreen::Help => " | Help"@,
        _ => Seq::empty(),
    }
}

/// The words of the status bar about the tabs: the place of the selected
/// tab, counted from one, where there is more than one tab.
pub open spec fn tab_note(s: AppView) -> Seq<char> {
    if s.tabs.len() > 1 {
        " | Tab "@ + decimal((s.selected_tab + 1) as nat) + "/"@ + decimal(s.tabs.len())
    } else {
        Seq::empty()
    }
}

/// The text of the status bar.
pub open spec fn status_line(s: AppView) -> Seq<char> {
    "Press ? for help | Enter: Send Request | q: Quit"@ + tab_note(s) + screen_note(
        s.current_screen,
    )
}

/// The text of the URL field: a hint while the URL is empty and not being
/// edited.
pub open spec fn url_field_line(s: AppView) -> Seq<char> {
    if s.url_input.len() == 0 && s.current_screen != CurrentScreen::EditingUrl {
        "Enter URL (press 'u' to edit)"@
    } else {
        "URL: "@ + s.url_input
    }
}

/// A pending key and value as the editor shows them.
pub open spec fn pending_line(key: Seq<char>, value: Seq<char>, short: Seq<char>, long: Seq<char>) -> Seq<
    char,
> {
    if value.len() == 0 {
        key + short
    } else {
        key + long + value
    }
}

/// The title of the response section.
pub open spec fn response_title_line(status_code: u16) -> Seq<char> {
    "Response - Status: "@ + decimal(status_code as nat)
}

/// The text of the status bar.
pub fn status_text(app: &App) -> (r: String)
    requires
        app.selected_tab < usize::MAX,
    ensures
        r@ == status_line(app@),
{
    let mut r = String::from_str("Press ? for help | Enter: Send Request | q: Quit");
    if app.tabs.len() > 1 {
        let place = format_decimal((app.selected_tab + 1) as u64);
        let count = format_decimal(app.tabs.len() as u64);
        let mut note = concat_str(" | Tab ", place.as_str());
        note.append("/");
        note.append(count.as_str());
        r.append(note.as_str());
    } else {
        assert(r@ + Seq::<char>::empty() =~= r@);
    }
    let note = match app.current_screen {
        CurrentScreen::EditingUrl => " | Editing URL",
        CurrentScreen::EditingBody => " | Editing Body",
        CurrentScreen::EditingHeaders => " | Editing Headers",
        CurrentScreen::EditingParams => " | Editing Params",
        CurrentScreen::Help => " | Help",
        _ => "",
    };
    proof {
        reveal_strlit("");
        assert(""@ =~= Seq::<char>::empty());
    }
    r.append(note);
    r
}

/// The text of the URL field.
pub fn url_field_text(app: &App) -> (r: String)
    ensures
        r@ == url_field_line(app@),
{
    let editing = match app.current_screen {
        CurrentScreen::EditingUrl => true,
        _ => false,
    };
    if app.url_input.as_str().is_empty() && !editing {
        String::from_str("Enter URL (press 'u' to edit)")
    } else {
        concat_str("URL: ", app.url_input.as_str())
    }
}

/// The pending header as the editor shows it.
pub fn pending_header_text(app: &App) -> (r: String)
    ensures
        r@ == pending_line(app@.current_header_key, app@.current_header_value, ":"@, ": "@),
{
    let mut r = String::from_str(app.current_header_key.as_str());
    if app.current_header_value.as_str().is_empty() {
        r.append(":");
    } else {
        r.append(": ");
        r.append(app.current_header_value.as_str());
    }
    r
}

/// The pending parameter as the editor shows it.
pub fn pending_param_text(app: &App) -> (r: String)
    ensures
        r@ == pending_line(app@.current_param_key, app@.current_param_value, "="@, "="@),
{
    let mut r = String::from_str(app.current_param_key.as_str());
    r.append("=");
    if !app.current_param_value.as_str().is_empty() {
        r.append(app.current_param_value.as_str());
    }
    r
}

/// The title of the response section.
pub fn response_title(status_code: u16) -> (r: String)
    ensures
        r@ == response_title_line(status_code),
{
    let code = format_decimal(status_code as u64);
    concat_str("Response - Status: ", code.as_str())
}

} // verus!
