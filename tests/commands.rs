use fca_manager::{get_app_version, greet, log_security_event, security_event_line};

#[test]
fn greet_ada() {
    assert_eq!(greet("Ada"), "Hello, Ada! You've been greeted from Rust!");
}

#[test]
fn greet_empty_name() {
    assert_eq!(greet(""), "Hello, ! You've been greeted from Rust!");
}

#[test]
fn greet_keeps_name_verbatim() {
    let names = ["  spaced  ", "Zoë Ünal", "{}", "a|b", "line\nbreak"];
    for n in names {
        let g = greet(n);
        assert_eq!(g.len(), n.len() + 39);
        assert!(g.starts_with("Hello, "));
        assert!(g.ends_with("! You've been greeted from Rust!"));
        assert_eq!(&g[7..7 + n.len()], n);
    }
}

#[test]
fn app_version_is_declared_version() {
    assert_eq!(get_app_version(), "0.1.0");
}

#[test]
fn app_version_is_stable_and_non_empty() {
    let a = get_app_version();
    let b = get_app_version();
    assert!(!a.is_empty());
    assert_eq!(a, b);
}

#[test]
fn log_security_event_acknowledges_success() {
    let r = log_security_event("login".to_string(), "alice".to_string(), true);
    assert_eq!(r, Ok("Event logged successfully".to_string()));
}

#[test]
fn log_security_event_acknowledges_failure_and_empty_fields() {
    let r = log_security_event("login".to_string(), "mallory".to_string(), false);
    assert_eq!(r, Ok("Event logged successfully".to_string()));
    let r = log_security_event(String::new(), String::new(), false);
    assert_eq!(r, Ok("Event logged successfully".to_string()));
}

#[test]
fn security_event_line_success() {
    assert_eq!(
        security_event_line("login", "alice", true),
        "Security Event: login | User: alice | Success: true"
    );
}

#[test]
fn security_event_line_failure() {
    assert_eq!(
        security_event_line("password_reset", "bob", false),
        "Security Event: password_reset | User: bob | Success: false"
    );
}

#[test]
fn security_event_line_empty_fields() {
    assert_eq!(
        security_event_line("", "", false),
        "Security Event:  | User:  | Success: false"
    );
}
