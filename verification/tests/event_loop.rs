use restless::app::{App, CurrentScreen};
use restless::error::RequestError;
use restless::event_loop::{on_exchange, on_key, LoopAction};
use restless::handlers::{KeyCode, KeyEvent};

fn press(code: KeyCode) -> KeyEvent {
    KeyEvent::new(code)
}

#[test]
fn a_key_release_is_passed_over() {
    let mut app = App::new();
    let mut banner = None;
    let key = KeyEvent { code: KeyCode::Char('t'), control: false, released: true };
    assert_eq!(on_key(&mut app, &mut banner, key), LoopAction::Wait);
    assert_eq!(app.tabs.len(), 1);
    let mut shown = Some("kept".to_string());
    assert_eq!(on_key(&mut app, &mut shown, key), LoopAction::Wait);
    assert_eq!(shown, Some("kept".to_string()));
}

#[test]
fn a_message_takes_the_next_key() {
    let mut app = App::new();
    let mut banner = None;
    assert_eq!(on_key(&mut app, &mut banner, press(KeyCode::Char('x'))), LoopAction::Wait);
    assert_eq!(
        banner,
        Some("Tab error: Tab error: Cannot close the last remaining tab".to_string())
    );
    assert_eq!(on_key(&mut app, &mut banner, press(KeyCode::Char('q'))), LoopAction::Wait);
    assert_eq!(banner, None);
    assert_eq!(app.current_screen, CurrentScreen::Values);
    assert_eq!(on_key(&mut app, &mut banner, press(KeyCode::Char('q'))), LoopAction::Quit);
    assert_eq!(app.current_screen, CurrentScreen::Exiting);
}

#[test]
fn nothing_happens_after_the_exit() {
    let mut app = App::new();
    let mut banner = None;
    assert_eq!(on_key(&mut app, &mut banner, press(KeyCode::Char('q'))), LoopAction::Quit);
    assert_eq!(on_key(&mut app, &mut banner, press(KeyCode::Char('t'))), LoopAction::Quit);
    assert_eq!(on_key(&mut app, &mut banner, press(KeyCode::Char('?'))), LoopAction::Quit);
    assert_eq!(app.tabs.len(), 1);
    assert!(!app.help_visible);
    assert_eq!(banner, None);
}

#[test]
fn enter_leads_to_an_exchange() {
    let mut app = App::new();
    let mut banner = None;
    assert_eq!(on_key(&mut app, &mut banner, press(KeyCode::Enter)), LoopAction::Wait);
    assert_eq!(
        banner,
        Some("Validation error: Invalid URL: URL cannot be empty".to_string())
    );
    on_key(&mut app, &mut banner, press(KeyCode::Esc));
    app.url_input = "https://x".to_string();
    assert_eq!(on_key(&mut app, &mut banner, press(KeyCode::Enter)), LoopAction::Send);
    assert_eq!(banner, None);

    on_exchange(
        &mut app,
        &mut banner,
        Ok((200, "content-type: application/json".to_string(), "[1]".to_string())),
    );
    assert_eq!(banner, None);
    let kept = app.tabs[0].response.as_ref().unwrap();
    assert_eq!(kept.status_code, 200);
    assert_eq!(kept.headers, vec![("content-type".to_string(), "application/json".to_string())]);
    assert_eq!(kept.body, "[\n  1\n]");

    on_exchange(&mut app, &mut banner, Ok((404, ":x".to_string(), "gone".to_string())));
    assert_eq!(
        banner,
        Some(
            "Response parsing error: Invalid response headers: Empty header key on line 1: ':x'"
                .to_string()
        )
    );
    let kept = app.tabs[0].response.as_ref().unwrap();
    assert_eq!(kept.status_code, 404);
    assert!(kept.headers.is_empty());
    assert_eq!(kept.body, "gone");

    on_exchange(&mut app, &mut banner, Err(RequestError::timeout(30)));
    assert_eq!(
        banner,
        Some("Request failed: Request timeout after 30 seconds".to_string())
    );
    assert_eq!(app.tabs[0].response.as_ref().unwrap().status_code, 404);
}
