use browser_automation::errors::Error;
use browser_automation::errors::InteractionFault;

use browser_automation::session::BrowserSession;

#[test]
fn test_navigation() {
    let website_url = "https://indeed.com/?r=us";
    let mut session = BrowserSession::new(website_url, true, true).unwrap();

    assert_eq!(session.current_url_now(), website_url);
    assert_eq!(session.generation_now(), 0);

    let navigate_result = session.navigate("https://www.linkedin.com/jobs/", true);
    assert!(navigate_result.is_ok(), "Failed to navigate to Rust website");
    assert_eq!(session.current_url_now(), "https://www.linkedin.com/jobs/");
    assert_eq!(session.generation_now(), 1);

    let close_result = session.close(true);
    assert!(close_result.is_ok(), "Failed to close the browser session");
}

#[test]
fn login_flow_scenario() {
    let mut session = BrowserSession::new("https://example.test/login", true, true).unwrap();

    let username_field = session.find_element("input#username", true).unwrap();
    assert!(username_field.type_text(&session, "user@example.test", true).is_ok());

    let missing = session.find_element("input#missing", false);
    assert_eq!(missing.unwrap_err(), Error::NotFound);

    assert!(session.close(true).is_ok());
}

#[test]
fn unreachable_endpoint_yields_connection_error() {
    let result = BrowserSession::new("https://example.test/login", false, false);
    assert_eq!(result.unwrap_err(), Error::Connection);
}

#[test]
fn failed_initial_navigation_yields_navigation_error() {
    let result = BrowserSession::new("https://example.test/login", true, false);
    assert_eq!(result.unwrap_err(), Error::Navigation);
}

#[test]
fn navigate_failure_leaves_session_unchanged() {
    let mut session = BrowserSession::new("https://example.test/a", true, true).unwrap();
    let before_generation = session.generation_now();

    let result = session.navigate("https://example.test/b", false);
    assert_eq!(result.unwrap_err(), Error::Navigation);
    assert!(session.currently_open());
    assert_eq!(session.generation_now(), before_generation);
    assert_eq!(session.current_url_now(), "https://example.test/a");
}

#[test]
fn operations_after_close_fail_deterministically() {
    let mut session = BrowserSession::new("https://example.test/", true, true).unwrap();
    assert!(session.close(true).is_ok());
    assert!(!session.currently_open());

    let nav = session.navigate("https://example.test/next", true);
    assert_eq!(nav.unwrap_err(), Error::Connection);

    let found = session.find_element("input#username", true);
    assert_eq!(found.unwrap_err(), Error::Connection);

    let resized = session.set_window_size(800, 600, true);
    assert_eq!(resized.unwrap_err(), Error::Connection);
}

#[test]
fn close_reporting_a_remote_fault_still_closes() {
    let mut session = BrowserSession::new("https://example.test/", true, true).unwrap();
    let result = session.close(false);
    assert_eq!(result.unwrap_err(), Error::Connection);
    assert!(!session.currently_open());
}

#[test]
fn set_window_size_is_advisory() {
    let session = BrowserSession::new("https://example.test/", true, true).unwrap();
    assert!(session.set_window_size(1280, 720, true).is_ok());
    assert_eq!(session.set_window_size(1280, 720, false).unwrap_err(), Error::Connection);
    assert!(session.currently_open());
}

#[test]
fn handles_before_navigation_go_stale() {
    let mut session = BrowserSession::new("https://example.test/login", true, true).unwrap();
    let old_handle = session.find_element("input#username", true).unwrap();

    assert!(session.navigate("https://example.test/home", true).is_ok());

    let stale = Error::Interaction(InteractionFault::StaleReference);
    assert_eq!(old_handle.click(&session, true).unwrap_err(), stale);
    assert_eq!(old_handle.type_text(&session, "late", true).unwrap_err(), stale);
    assert_eq!(old_handle.get_text(&session, Some(String::from("x"))).unwrap_err(), stale);
    assert_eq!(old_handle.clear(&session, true).unwrap_err(), stale);
    assert_eq!(old_handle.send_keys(&session, "late", true).unwrap_err(), stale);
    assert_eq!(old_handle.scroll_into_view(&session, true).unwrap_err(), stale);
    assert!(!old_handle.is_visible(&session, Some(true)));

    let fresh = session.find_element("input#username", true).unwrap();
    assert!(fresh.click(&session, true).is_ok());
}

#[test]
fn handles_after_session_close_go_stale() {
    let mut session = BrowserSession::new("https://example.test/login", true, true).unwrap();
    let handle = session.find_element("input#username", true).unwrap();
    assert!(session.close(true).is_ok());

    let stale = Error::Interaction(InteractionFault::StaleReference);
    assert_eq!(handle.click(&session, true).unwrap_err(), stale);
    assert_eq!(handle.wait_for(&session, 2, &vec![true, true]).unwrap_err(), stale);
}
