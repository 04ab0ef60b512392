use saba::error::Error;
use saba::navigation::{NavAction, NavStage, Navigation};

#[test]
fn fetch_failure_is_returned_unchanged() {
    let mut nav = Navigation::new("http://example.com/a".to_string());
    assert_eq!(nav.action(), NavAction::ClearContent);
    assert_eq!(nav.record(Ok(())), None);
    assert_eq!(nav.action(), NavAction::Fetch("http://example.com/a".to_string()));
    let result = nav.record(Err(Error::Network("timeout".to_string())));
    assert_eq!(result, Some(Err(Error::Network("timeout".to_string()))));
    assert_eq!(nav.stage(), NavStage::Finished);
}

#[test]
fn successful_navigation_renders_then_ends() {
    let mut nav = Navigation::new("http://example.com/".to_string());
    assert_eq!(nav.record(Ok(())), None);
    assert_eq!(nav.record(Ok(())), None);
    assert_eq!(nav.action(), NavAction::Render);
    assert_eq!(nav.record(Ok(())), Some(Ok(())));
    assert_eq!(nav.stage(), NavStage::Finished);
}

#[test]
fn clear_failure_stops_before_fetch() {
    let mut nav = Navigation::new("http://example.com/".to_string());
    let e = Error::InvalidUI("failed to clear a content area".to_string());
    assert_eq!(nav.record(Err(e.clone())), Some(Err(e)));
    assert_eq!(nav.stage(), NavStage::Finished);
}

#[test]
fn render_failure_ends_navigation() {
    let mut nav = Navigation::new("http://example.com/".to_string());
    nav.record(Ok(()));
    nav.record(Ok(()));
    let e = Error::InvalidUI("failed to draw a string".to_string());
    assert_eq!(nav.record(Err(e.clone())), Some(Err(e)));
}
