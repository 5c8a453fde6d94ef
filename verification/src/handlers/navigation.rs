//! Moving between the sections, the tabs of a section, and in and out of
//! the editing screens.

use vstd::prelude::*;
use crate::app::app::{App, AppView, CurrentScreen, HELP_ENTRY_COUNT, ValuesScreen};
use crate::error::RestlessError;
use crate::text::concat_str;

verus! {

/// The direction of a scroll step.
#[derive(Debug, Clone, Copy, PartialEq, Eq, Structural)]
pub enum ScrollDirection {
    Up,
    Down,
}

/// The section after `screen` in the round Url, Values, Response. Any other
/// screen stays.
pub open spec fn section_after(screen: CurrentScreen) -> CurrentScreen {
    match screen {
        CurrentScreen::Url => CurrentScreen::Values,
        CurrentScreen::Values => CurrentScreen::Response,
        CurrentScreen::Response => CurrentScreen::Url,
        _ => screen,
    }
}

/// The section before `screen` in the round Url, Values, Response. Any
/// other screen stays.
pub open spec fn section_before(screen: CurrentScreen) -> CurrentScreen {
    match screen {
        CurrentScreen::Url => CurrentScreen::Response,
        CurrentScreen::Values => CurrentScreen::Url,
        CurrentScreen::Response => CurrentScreen::Values,
        _ => screen,
    }
}

/// The part of the values section to the left of `part`; the leftmost part
/// stays.
pub open spec fn values_left_of(part: ValuesScreen) -> ValuesScreen {
    match part {
        ValuesScreen::Headers => ValuesScreen::Body,
        ValuesScreen::Params => ValuesScreen::Headers,
        ValuesScreen::Body => ValuesScreen::Body,
    }
}

/// The part of the values section to the right of `part`; the rightmost
/// part stays.
pub open spec fn values_right_of(part: ValuesScreen) -> ValuesScreen {
    match part {
        ValuesScreen::Body => ValuesScreen::Headers,
        ValuesScreen::Headers => ValuesScreen::Params,
        ValuesScreen::Params => ValuesScreen::Params,
    }
}

/// The editing screen that the edit action leads to, if the state has one.
pub open spec fn editing_screen_of(s: AppView) -> Option<CurrentScreen> {
    match s.current_screen {
        CurrentScreen::Url => Some(CurrentScreen::EditingUrl),
        CurrentScreen::Values => Some(
            match s.values_screen {
                ValuesScreen::Body => CurrentScreen::EditingBody,
                ValuesScreen::Headers => CurrentScreen::EditingHeaders,
                ValuesScreen::Params => CurrentScreen::EditingParams,
            },
        ),
        _ => None,
    }
}

/// The screen that an editing screen goes back to.
pub open spec fn parent_screen_of(screen: CurrentScreen) -> Option<CurrentScreen> {
    match screen {
        CurrentScreen::EditingUrl => Some(CurrentScreen::Url),
        CurrentScreen::EditingBody => Some(CurrentScreen::Values),
        CurrentScreen::EditingHeaders => Some(CurrentScreen::Values),
        CurrentScreen::EditingParams => Some(CurrentScreen::Values),
        _ => None,
    }
}

/// A scroll position one step further in `direction`, without leaving the
/// range of `usize`.
pub open spec fn scrolled(position: usize, direction: ScrollDirection) -> usize {
    match direction {
        ScrollDirection::Up => if position == 0 {
            0usize
        } else {
            (position - 1) as usize
        },
        ScrollDirection::Down => if position == usize::MAX {
            position
        } else {
            (position + 1) as usize
        },
    }
}

/// The scroll position of the help screen one step further in `direction`.
/// It stops at the last entry.
pub open spec fn help_scrolled(position: usize, direction: ScrollDirection) -> usize {
    match direction {
        ScrollDirection::Up => scrolled(position, ScrollDirection::Up),
        ScrollDirection::Down => if position < HELP_ENTRY_COUNT - 1 {
            (position + 1) as usize
        } else {
            position
        },
    }
}

/// The words for where the focus is.
pub open spec fn navigation_context(s: AppView) -> Seq<char> {
    match s.current_screen {
        CurrentScreen::Url => "URL Input"@,
        CurrentScreen::Values => "Values - "@ + match s.values_screen {
            ValuesScreen::Body => "Body"@,
            ValuesScreen::Headers => "Headers"@,
            ValuesScreen::Params => "Params"@,
        },
        CurrentScreen::Response => "Response - "@ + if s.response_tab_selected == 0 {
            "Headers"@
        } else {
            "Body"@
        },
        CurrentScreen::EditingUrl => "Editing URL"@,
        CurrentScreen::EditingBody => "Editing Body"@,
        CurrentScreen::EditingHeaders => "Editing Headers"@,
        CurrentScreen::EditingParams => "Editing Params"@,
        CurrentScreen::Help => "Help"@,
        CurrentScreen::Exiting => "Exiting"@,
    }
}

/// Moves the focus to the next section.
pub fn navigate_section_down(app: &mut App) -> (r: Result<Option<String>, RestlessError>)
    ensures
        r matches Ok(None),
        final(app)@ == (AppView {
            current_screen: section_after(old(app)@.current_screen),
            ..old(app)@
        }),
        old(app)@.wf() ==> final(app)@.wf(),
{
    app.current_screen = match app.current_screen {
        CurrentScreen::Url => CurrentScreen::Values,
        CurrentScreen::Values => CurrentScreen::Response,
        CurrentScreen::Response => CurrentScreen::Url,
        other => other,
    };
    Ok(None)
}

/// Moves the focus to the previous section.
pub fn navigate_section_up(app: &mut App) -> (r: Result<Option<String>, RestlessError>)
    ensures
        r matches Ok(None),
        final(app)@ == (AppView {
            current_screen: section_before(old(app)@.current_screen),
            ..old(app)@
        }),
        old(app)@.wf() ==> final(app)@.wf(),
{
    app.current_screen = match app.current_screen {
        CurrentScreen::Url => CurrentScreen::Response,
        CurrentScreen::Values => CurrentScreen::Url,
        CurrentScreen::Response => CurrentScreen::Values,
        other => other,
    };
    Ok(None)
}

/// Shows the part of the values section to the left, while that section
/// has the focus.
pub fn navigate_values_left(app: &mut App) -> (r: Result<Option<String>, RestlessError>)
    ensures
        r matches Ok(None),
        final(app)@ == (AppView {
            values_screen: if old(app)@.current_screen == CurrentScreen::Values {
                values_left_of(old(app)@.values_screen)
            } else {
                old(app)@.values_screen
            },
            ..old(app)@
        }),
        old(app)@.wf() ==> final(app)@.wf(),
{
    if app.current_screen == CurrentScreen::Values {
        app.values_screen = match app.values_screen {
            ValuesScreen::Headers => ValuesScreen::Body,
            ValuesScreen::Params => ValuesScreen::Headers,
            ValuesScreen::Body => ValuesScreen::Body,
        };
    }
    Ok(None)
}

/// Shows the part of the values section to the right, while that section
/// has the focus.
pub fn navigate_values_right(app: &mut App) -> (r: Result<Option<String>, RestlessError>)
    ensures
        r matches Ok(None),
        final(app)@ == (AppView {
            values_screen: if old(app)@.current_screen == CurrentScreen::Values {
                values_right_of(old(app)@.values_screen)
            } else {
                old(app)@.values_screen
            },
            ..old(app)@
        }),
        old(app)@.wf() ==> final(app)@.wf(),
{
    if app.current_screen == CurrentScreen::Values {
        app.values_screen = match app.values_screen {
            ValuesScreen::Body => ValuesScreen::Headers,
            ValuesScreen::Headers => ValuesScreen::Params,
            ValuesScreen::Params => ValuesScreen::Params,
        };
    }
    Ok(None)
}

/// Shows the headers (0) or the body (1) of the response, while the
/// response section has the focus. Any other index changes nothing.
pub fn navigate_response_tabs(app: &mut App, tab_index: usize) -> (r: Result<
    Option<String>,
    RestlessError,
>)
    ensures
        r matches Ok(None),
        final(app)@ == (AppView {
            response_tab_selected: if old(app)@.current_screen == CurrentScreen::Response
                && tab_index < 2 {
                tab_index
            } else {
                old(app)@.response_tab_selected
            },
            ..old(app)@
        }),
        old(app)@.wf() ==> final(app)@.wf(),
{
    if app.current_screen == CurrentScreen::Response {
        if tab_index < 2 {
            app.response_tab_selected = tab_index;
        }
    }
    Ok(None)
}

/// Scrolls the body of the response by one line, while it is shown and
/// the response section has the focus.
pub fn scroll_response(app: &mut App, direction: ScrollDirection) -> (r: Result<
    Option<String>,
    RestlessError,
>)
    ensures
        r matches Ok(None),
        final(app)@ == (AppView {
            response_scroll: if old(app)@.current_screen == CurrentScreen::Response && old(app)@.response_tab_selected == 1 {
                scrolled(old(app)@.response_scroll, direction)
            } else {
                old(app)@.response_scroll
            },
            ..old(app)@
        }),
        old(app)@.wf() ==> final(app)@.wf(),
{
    if app.current_screen == CurrentScreen::Response && app.response_tab_selected == 1 {
        app.response_scroll = scroll_step(app.response_scroll, direction);
    }
    Ok(None)
}

/// A scroll position one step further in `direction`.
pub fn scroll_step(position: usize, direction: ScrollDirection) -> (r: usize)
    ensures
        r == scrolled(position, direction),
{
    match direction {
        ScrollDirection::Up => if position == 0 {
            0
        } else {
            position - 1
        },
        ScrollDirection::Down => if position == usize::MAX {
            position
        } else {
            position + 1
        },
    }
}

/// Scrolls the help screen by one entry, while it is shown.
pub fn scroll_help(app: &mut App, direction: ScrollDirection) -> (r: Result<
    Option<String>,
    RestlessError,
>)
    ensures
        r matches Ok(None),
        final(app)@ == (AppView {
            help_scroll: if old(app)@.help_visible {
                help_scrolled(old(app)@.help_scroll, direction)
            } else {
                old(app)@.help_scroll
            },
            ..old(app)@
        }),
        old(app)@.wf() ==> final(app)@.wf(),
{
    if app.help_visible {
        match direction {
            ScrollDirection::Up => {
                app.help_scroll = scroll_step(app.help_scroll, ScrollDirection::Up);
            },
            ScrollDirection::Down => {
                if app.help_scroll < HELP_ENTRY_COUNT - 1 {
                    app.help_scroll = app.help_scroll + 1;
                }
            },
        }
    }
    Ok(None)
}

/// Enters the editing screen of what has the focus: the URL, or the shown
/// part of the values section. From any other screen nothing changes and a
/// message says so.
pub fn enter_edit_mode(app: &mut App) -> (r: Result<Option<String>, RestlessError>)
    ensures
        match editing_screen_of(old(app)@) {
            Some(screen) => r matches Ok(None) && final(app)@ == (AppView {
                current_screen: screen,
                ..old(app)@
            }),
            None => final(app)@ == old(app)@ && (r matches Ok(Some(msg)) && msg@
                == "Cannot enter edit mode from current screen"@),
        },
        old(app)@.wf() ==> final(app)@.wf(),
{
    match app.current_screen {
        CurrentScreen::Url => {
            app.current_screen = CurrentScreen::EditingUrl;
        },
        CurrentScreen::Values => {
            app.current_screen = match app.values_screen {
                ValuesScreen::Body => CurrentScreen::EditingBody,
                ValuesScreen::Headers => CurrentScreen::EditingHeaders,
                ValuesScreen::Params => CurrentScreen::EditingParams,
            };
        },
        _ => {
            return Ok(Some(String::from_str("Cannot enter edit mode from current screen")));
        },
    }
    Ok(None)
}

/// Leaves an editing screen for the screen that it belongs to. On any
/// other screen nothing changes and a message says so.
pub fn exit_edit_mode(app: &mut App) -> (r: Result<Option<String>, RestlessError>)
    ensures
        match parent_screen_of(old(app)@.current_screen) {
            Some(screen) => r matches Ok(None) && final(app)@ == (AppView {
                current_screen: screen,
                ..old(app)@
            }),
            None => final(app)@ == old(app)@ && (r matches Ok(Some(msg)) && msg@
                == "Not in edit mode"@),
        },
        old(app)@.wf() ==> final(app)@.wf(),
{
    match app.current_screen {
        CurrentScreen::EditingUrl => {
            app.current_screen = CurrentScreen::Url;
        },
        CurrentScreen::EditingBody | CurrentScreen::EditingHeaders | CurrentScreen::EditingParams => {
            app.current_screen = CurrentScreen::Values;
        },
        _ => {
            return Ok(Some(String::from_str("Not in edit mode")));
        },
    }
    Ok(None)
}

/// Shows the help overlay, or closes it where it is shown.
pub fn toggle_help(app: &mut App) -> (r: Result<Option<String>, RestlessError>)
    ensures
        r matches Ok(None),
        final(app)@ == if old(app)@.help_visible {
            old(app)@.help_hidden()
        } else {
            old(app)@.help_shown()
        },
        old(app)@.wf() ==> final(app)@.wf(),
{
    if app.help_visible {
        app.hide_help();
    } else {
        app.show_help();
    }
    Ok(None)
}

/// The words for where the focus is.
pub fn get_navigation_context(app: &App) -> (r: String)
    ensures
        r@ == navigation_context(app@),
{
    match app.current_screen {
        CurrentScreen::Url => String::from_str("URL Input"),
        CurrentScreen::Values => {
            let tab = match app.values_screen {
                ValuesScreen::Body => "Body",
                ValuesScreen::Headers => "Headers",
                ValuesScreen::Params => "Params",
            };
            concat_str("Values - ", tab)
        },
        CurrentScreen::Response => {
            let tab = if app.response_tab_selected == 0 {
                "Headers"
            } else {
                "Body"
            };
            concat_str("Response - ", tab)
        },
        CurrentScreen::EditingUrl => String::from_str("Editing URL"),
        CurrentScreen::EditingBody => String::from_str("Editing Body"),
        CurrentScreen::EditingHeaders => String::from_str("Editing Headers"),
        CurrentScreen::EditingParams => String::from_str("Editing Params"),
        CurrentScreen::Help => String::from_str("Help"),
        CurrentScreen::Exiting => String::from_str("Exiting"),
    }
}

} // verus!
