use saba::geometry::{classify, Region, TITLE_BAR_HEIGHT, TOOLBAR_HEIGHT, WINDOW_HEIGHT, WINDOW_WIDTH};
use saba::paint::{DrawCommand, Flush, StringSize};
use saba::session::{InputMode, KeyAction, MouseAction, PointerEvent, Session};

const ORIGIN: (i64, i64) = (100, 50);

fn press(x: i64, y: i64) -> Option<PointerEvent> {
    Some(PointerEvent { left: true, middle: false, right: false, x, y })
}

fn editing_session() -> Session {
    let mut s = Session::new(ORIGIN, "http://old".to_string());
    let a = s.handle_mouse(press(ORIGIN.0 + 100, ORIGIN.1 + TITLE_BAR_HEIGHT + 1));
    assert_eq!(a, MouseAction::EditAddress);
    s
}

#[test]
fn classify_regions_at_their_borders() {
    assert_eq!(classify(ORIGIN, ORIGIN.0 - 1, ORIGIN.1 + 100), Region::OutsideWindow);
    assert_eq!(classify(ORIGIN, ORIGIN.0 + WINDOW_WIDTH, ORIGIN.1 + 100), Region::OutsideWindow);
    assert_eq!(classify(ORIGIN, ORIGIN.0 + 10, ORIGIN.1 + WINDOW_HEIGHT), Region::OutsideWindow);
    assert_eq!(classify(ORIGIN, ORIGIN.0 + 10, ORIGIN.1 - 1), Region::OutsideWindow);
    assert_eq!(classify(ORIGIN, ORIGIN.0, ORIGIN.1 + TITLE_BAR_HEIGHT), Region::Toolbar);
    assert_eq!(
        classify(ORIGIN, ORIGIN.0 + 5, ORIGIN.1 + TITLE_BAR_HEIGHT + TOOLBAR_HEIGHT - 1),
        Region::Toolbar
    );
    assert_eq!(
        classify(ORIGIN, ORIGIN.0 + 10, ORIGIN.1 + TITLE_BAR_HEIGHT + TOOLBAR_HEIGHT + 10),
        Region::ContentArea(10, 10)
    );
    assert_eq!(classify(ORIGIN, ORIGIN.0 + 3, ORIGIN.1 + 4), Region::ContentArea(3, 4 - 50));
    assert_eq!(classify((i64::MIN, i64::MIN), i64::MAX, 0), Region::OutsideWindow);
}

#[test]
fn press_outside_window_changes_nothing() {
    let mut s = editing_session();
    s.handle_key(Some('a'));
    for (x, y) in [(ORIGIN.0 - 1, ORIGIN.1), (ORIGIN.0 + WINDOW_WIDTH, ORIGIN.1 + 60), (0, 0)] {
        assert_eq!(s.handle_mouse(press(x, y)), MouseAction::Ignore);
        assert_eq!(s.input_mode(), InputMode::Editing);
        assert_eq!(s.input_url(), "a");
    }
}

#[test]
fn toolbar_press_starts_editing_with_empty_buffer() {
    let mut s = Session::new(ORIGIN, "http://example.com".to_string());
    assert_eq!(s.input_mode(), InputMode::Normal);
    let a = s.handle_mouse(Some(PointerEvent { left: false, middle: false, right: true, x: ORIGIN.0 + 300, y: ORIGIN.1 + 30 }));
    assert_eq!(a, MouseAction::EditAddress);
    assert_eq!(s.input_mode(), InputMode::Editing);
    assert_eq!(s.input_url(), "");
}

#[test]
fn motion_without_buttons_is_ignored() {
    let mut s = Session::new(ORIGIN, String::new());
    let a = s.handle_mouse(Some(PointerEvent { left: false, middle: false, right: false, x: ORIGIN.0 + 300, y: ORIGIN.1 + 30 }));
    assert_eq!(a, MouseAction::Ignore);
    assert_eq!(s.input_mode(), InputMode::Normal);
    assert_eq!(s.handle_mouse(None), MouseAction::Ignore);
}

#[test]
fn typed_keys_then_commit_navigate_once() {
    let mut s = editing_session();
    for c in "http://a.b/c".chars() {
        assert_eq!(s.handle_key(Some(c)), KeyAction::RedrawAddressBar);
    }
    assert_eq!(s.input_url(), "http://a.b/c");
    assert_eq!(s.handle_key(Some('\n')), KeyAction::Commit("http://a.b/c".to_string()));
    assert_eq!(s.input_mode(), InputMode::Normal);
    assert_eq!(s.input_url(), "");
    assert_eq!(s.handle_key(Some('x')), KeyAction::Ignore);
    assert_eq!(s.input_url(), "");
}

#[test]
fn backspace_on_empty_buffer_is_harmless() {
    let mut s = editing_session();
    assert_eq!(s.handle_key(Some('\x7f')), KeyAction::RedrawAddressBar);
    assert_eq!(s.input_url(), "");
    assert_eq!(s.handle_key(Some('\x08')), KeyAction::RedrawAddressBar);
    assert_eq!(s.input_url(), "");
    assert_eq!(s.input_mode(), InputMode::Editing);
}

#[test]
fn backspace_removes_last_character() {
    let mut s = editing_session();
    s.handle_key(Some('a'));
    s.handle_key(Some('é'));
    s.handle_key(Some('\x08'));
    assert_eq!(s.input_url(), "a");
}

#[test]
fn keys_in_normal_mode_are_dropped() {
    let mut s = Session::new(ORIGIN, "http://x".to_string());
    assert_eq!(s.handle_key(Some('a')), KeyAction::Ignore);
    assert_eq!(s.handle_key(Some('\n')), KeyAction::Ignore);
    assert_eq!(s.handle_key(None), KeyAction::Ignore);
    assert_eq!(s.input_url(), "http://x");
}

#[test]
fn content_click_on_link_updates_address_and_navigates() {
    let mut s = editing_session();
    let a = s.handle_mouse(press(ORIGIN.0 + 10, ORIGIN.1 + TITLE_BAR_HEIGHT + TOOLBAR_HEIGHT + 10));
    assert_eq!(a, MouseAction::FollowPoint(10, 10));
    assert_eq!(s.input_mode(), InputMode::Normal);
    let dest = s.follow_link(Some("http://example.com/b".to_string()));
    assert_eq!(dest, Some("http://example.com/b".to_string()));
    assert_eq!(s.input_url(), "http://example.com/b");
    let plan = s.address_bar_plan();
    assert_eq!(plan.steps.len(), 2);
    match &plan.steps[1].command {
        DrawCommand::DrawString { text, size, .. } => {
            assert_eq!(text, "http://example.com/b");
            assert_eq!(*size, StringSize::Medium);
        }
        other => panic!("unexpected {:?}", other),
    }
}

#[test]
fn content_click_off_link_changes_nothing_more() {
    let mut s = Session::new(ORIGIN, "http://x".to_string());
    assert_eq!(s.follow_link(None), None);
    assert_eq!(s.input_url(), "http://x");
}

#[test]
fn startup_destination_only_when_given() {
    assert_eq!(Session::new(ORIGIN, String::new()).startup_destination(), None);
    assert_eq!(
        Session::new(ORIGIN, "http://x".to_string()).startup_destination(),
        Some("http://x".to_string())
    );
}

#[test]
fn address_bar_plans_flush_their_area() {
    let s = Session::new(ORIGIN, "abc".to_string());
    let p = s.clear_address_bar_plan();
    assert_eq!(p.steps.len(), 1);
    assert_eq!(p.flush, Flush::Area { x: 100, y: 74, width: 600, height: 24 });
    assert_eq!(
        p.steps[0].command,
        DrawCommand::FillRect { color: 0xffffff, x: 72, y: 4, width: 524, height: 18 }
    );
    let p = s.address_bar_plan();
    assert_eq!(p.flush, Flush::Area { x: 100, y: 74, width: 600, height: 24 });
    let host = "busy".to_string();
    assert_eq!(
        p.steps[0].failure(&host),
        saba::error::Error::InvalidUI("failed to clear an address bar".to_string())
    );
    assert_eq!(
        p.steps[1].failure(&host),
        saba::error::Error::InvalidUI("failed to update an address bar".to_string())
    );
}
