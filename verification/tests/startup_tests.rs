use web_serial_logger::startup::{missing_element_message, startup_alerts, startup_locks_all};
use web_serial_logger::view::AlertType;

#[test]
fn missing_element_text() {
    assert_eq!(missing_element_message("#button-start"), "could not locate '#button-start'");
    assert_eq!(missing_element_message(""), "could not locate ''");
}

#[test]
fn supported_browser_has_no_alerts() {
    assert!(startup_alerts(true, true).is_empty());
}

#[test]
fn each_missing_api_gets_an_error() {
    let a = startup_alerts(false, true);
    assert_eq!(a.len(), 1);
    assert_eq!(a[0].kind, AlertType::Error);
    assert_eq!(a[0].message, "The browser does not support the Web Serial API!");
    let a = startup_alerts(true, false);
    assert_eq!(a.len(), 1);
    assert_eq!(a[0].message, "The browser does not support the File System Access API!");
    let a = startup_alerts(false, false);
    let texts: Vec<&str> = a.iter().map(|x| x.message.as_str()).collect();
    assert_eq!(
        texts,
        vec![
            "The browser does not support the Web Serial API!",
            "The browser does not support the File System Access API!"
        ]
    );
    assert!(a.iter().all(|x| x.kind == AlertType::Error));
}

#[test]
fn page_locked_exactly_when_an_api_is_missing() {
    assert!(!startup_locks_all(true, true));
    assert!(startup_locks_all(false, true));
    assert!(startup_locks_all(true, false));
    assert!(startup_locks_all(false, false));
    for (s, f) in [(true, true), (true, false), (false, true), (false, false)] {
        assert_eq!(startup_locks_all(s, f), !startup_alerts(s, f).is_empty());
    }
}
