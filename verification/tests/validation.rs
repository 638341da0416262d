use arc::command::{LoginArgs, PersistentData};
use arc::port::PortPoe;
use arc::transport::{Error, Method, Reply, RequestError};
use arc::validation::{probe, Probe, Step, Validation, ValidationError};
use serde_json::Value;

fn record(base_url: &str, cookie: &str) -> PersistentData {
    PersistentData {
        login_args: LoginArgs {
            base_url: base_url.to_string(),
            user_name: "admin".to_string(),
            password: "x".to_string(),
        },
        cookie: cookie.to_string(),
    }
}

fn port_reply() -> Reply {
    let port = PortPoe { port_id: "1".to_string(), ..PortPoe::default() };
    Reply::Response { status: 200, body: port.to_json().to_string() }
}

fn status(status: u16) -> Reply {
    Reply::Response { status, body: "".to_string() }
}

fn probing(cookie: &str) -> Validation {
    match Validation::begin(record("https://sw.local", cookie)) {
        Step::Send { next, .. } => next,
        other => panic!("{other:?}"),
    }
}

fn renewing() -> Validation {
    match probing("stale").advance(&status(400)) {
        Step::Send { next, .. } => next,
        other => panic!("{other:?}"),
    }
}

#[test]
fn probe_tells_valid_expired_and_other() {
    assert_eq!(probe(&Ok(PortPoe::default())), Probe::Valid);
    assert_eq!(probe(&Err(Error::Request(RequestError::Status(400)))), Probe::Expired);
    assert_eq!(probe(&Err(Error::Request(RequestError::Status(401)))), Probe::OtherError);
    assert_eq!(probe(&Err(Error::Request(RequestError::Status(404)))), Probe::OtherError);
    assert_eq!(probe(&Err(Error::Request(RequestError::Status(500)))), Probe::OtherError);
    assert_eq!(probe(&Err(Error::Request(RequestError::Decode))), Probe::OtherError);
    assert_eq!(
        probe(&Err(Error::Request(RequestError::Transport("down".to_string())))),
        Probe::OtherError
    );
    assert_eq!(probe(&Err(Error::Parse(url::ParseError::EmptyHost))), Probe::OtherError);
}

#[test]
fn validation_begins_with_the_probe() {
    match Validation::begin(record("https://sw.local", "abc123")) {
        Step::Send { request, next } => {
            assert_eq!(request.method, Method::Get);
            assert_eq!(request.url.as_str(), "https://sw.local/rest/v1/ports/1/poe");
            assert!(request.body.is_none());
            match next {
                Validation::Probing { record, session } => {
                    assert_eq!(record.cookie, "abc123");
                    assert_eq!(session.cookie(), "abc123");
                    assert_eq!(session.url().as_str(), "https://sw.local/rest/v1/");
                }
                other => panic!("{other:?}"),
            }
        }
        other => panic!("{other:?}"),
    }
}

#[test]
fn validation_fails_on_a_malformed_base_url() {
    match Validation::begin(record("sw.local", "abc123")) {
        Step::Failed(ValidationError::Config(Error::Parse(_))) => {}
        other => panic!("{other:?}"),
    }
}

#[test]
fn valid_session_is_ready_after_the_probe_alone() {
    match probing("abc123").advance(&port_reply()) {
        Step::Ready { session, renewed } => {
            assert_eq!(session.cookie(), "abc123");
            assert_eq!(session.url().as_str(), "https://sw.local/rest/v1/");
            assert!(renewed.is_none());
        }
        other => panic!("{other:?}"),
    }
}

#[test]
fn expired_session_has_the_login_sent() {
    match probing("stale").advance(&status(400)) {
        Step::Send { request, next } => {
            assert_eq!(request.method, Method::Post);
            assert_eq!(request.url.as_str(), "https://sw.local/rest/v1/login-sessions");
            let expected: Value =
                serde_json::from_str(r#"{"userName": "admin", "password": "x"}"#).unwrap();
            assert_eq!(request.body, Some(expected));
            assert!(matches!(next, Validation::Renewing { .. }));
        }
        other => panic!("{other:?}"),
    }
}

#[test]
fn renewed_session_is_ready_with_the_record_to_keep() {
    let reply = Reply::Response { status: 200, body: r#"{"cookie": "fresh"}"#.to_string() };
    match renewing().advance(&reply) {
        Step::Ready { session, renewed } => {
            assert_eq!(session.cookie(), "fresh");
            let renewed = renewed.unwrap();
            assert_eq!(renewed.cookie, "fresh");
            assert_eq!(renewed.login_args.base_url, "https://sw.local");
            assert_eq!(renewed.login_args.user_name, "admin");
            assert_eq!(renewed.login_args.password, "x");
        }
        other => panic!("{other:?}"),
    }
}

#[test]
fn login_is_tried_once_only() {
    for reply in [
        status(400),
        status(401),
        status(500),
        Reply::Failed("down".to_string()),
        Reply::Response { status: 200, body: "{}".to_string() },
        Reply::Unread { status: 200, reason: "reset".to_string() },
    ] {
        match renewing().advance(&reply) {
            Step::Failed(ValidationError::Auth(Error::Request(_))) => {}
            other => panic!("{reply:?} gave {other:?}"),
        }
    }
    let reply = Reply::Response { status: 200, body: r#"{"cookie": "fresh"}"#.to_string() };
    assert!(matches!(renewing().advance(&reply), Step::Ready { .. }));
}

#[test]
fn failed_login_keeps_the_status_of_the_switch() {
    match renewing().advance(&status(401)) {
        Step::Failed(ValidationError::Auth(Error::Request(error))) => {
            assert_eq!(error.status(), Some(401))
        }
        other => panic!("{other:?}"),
    }
}

#[test]
fn other_probe_failures_are_unexpected() {
    for reply in [
        status(401),
        status(404),
        status(500),
        status(302),
        Reply::Failed("down".to_string()),
        Reply::Response { status: 200, body: "{}".to_string() },
        Reply::Response { status: 200, body: "<html>".to_string() },
        Reply::Unread { status: 200, reason: "reset".to_string() },
    ] {
        match probing("abc123").advance(&reply) {
            Step::Failed(ValidationError::Unexpected) => {}
            other => panic!("{reply:?} gave {other:?}"),
        }
    }
}

#[test]
fn expiry_counts_before_an_unread_body() {
    let reply = Reply::Unread { status: 400, reason: "reset".to_string() };
    assert!(matches!(probing("stale").advance(&reply), Step::Send { .. }));
}
