use arc::endpoint::directory;
use arc::port::PortPoe;
use arc::session::{LoginRequest, Session};
use arc::transport::{Error, Method, Reply, RequestError};
use serde_json::Value;

fn json(text: &str) -> Value {
    serde_json::from_str(text).unwrap()
}

fn admin() -> LoginRequest {
    LoginRequest { user_name: "admin".to_string(), password: "x".to_string() }
}

fn ok(body: &str) -> Reply {
    Reply::Response { status: 200, body: body.to_string() }
}

fn port_text(port_id: &str, enabled: bool) -> String {
    let port = PortPoe {
        uri: format!("/ports/{port_id}/poe"),
        port_id: port_id.to_string(),
        is_poe_enabled: enabled,
        poe_priority: "PPP_LOW".to_string(),
        poe_allocation_method: "PPAM_USAGE".to_string(),
        allocated_power_in_watts: 0,
        port_configured_type: "".to_string(),
        pre_standard_detect_enabled: false,
    };
    serde_json::to_string(&port.to_json()).unwrap()
}

fn session() -> Session {
    Session::from_cookie("https://sw.local", "sessionId=abc123").unwrap()
}

#[test]
fn login_request_posts_credentials_to_the_login_resource() {
    let request = Session::login_request("https://sw.local", &admin()).unwrap();
    assert_eq!(request.method, Method::Post);
    assert_eq!(request.url.as_str(), "https://sw.local/rest/v1/login-sessions");
    assert_eq!(request.body, Some(json(r#"{"userName": "admin", "password": "x"}"#)));
}

#[test]
fn login_request_keeps_the_whole_path_of_the_base() {
    let request = Session::login_request("http://10.0.0.2:8080/switch/", &admin()).unwrap();
    assert_eq!(request.url.as_str(), "http://10.0.0.2:8080/switch/rest/v1/login-sessions");
    let request = Session::login_request("http://10.0.0.2:8080/switch", &admin()).unwrap();
    assert_eq!(request.url.as_str(), "http://10.0.0.2:8080/switch/rest/v1/login-sessions");
    let request = Session::login_request("https://sw.local/a/b", &admin()).unwrap();
    assert_eq!(request.url.as_str(), "https://sw.local/a/b/rest/v1/login-sessions");
}

#[test]
fn resources_lie_below_the_whole_path_of_the_base() {
    for base in ["https://sw.local/api", "https://sw.local/api/"] {
        let session = Session::from_cookie(base, "abc123").unwrap();
        assert_eq!(session.origin().as_str(), "https://sw.local/api/");
        assert_eq!(session.url().as_str(), "https://sw.local/api/rest/v1/");
        let request = session.get_ports_request().unwrap();
        assert_eq!(request.method, Method::Get);
        assert_eq!(request.url.as_str(), "https://sw.local/api/rest/v1/poe/ports");
        let request = session.get_port_request("1").unwrap();
        assert_eq!(request.url.as_str(), "https://sw.local/api/rest/v1/ports/1/poe");
        let port = PortPoe { port_id: "2".to_string(), ..PortPoe::default() };
        let request = session.set_port_request(&port, json("{}")).unwrap();
        assert_eq!(request.url.as_str(), "https://sw.local/api/rest/v1/ports/2/poe");
    }
}

#[test]
fn base_without_path_has_its_resources_at_the_top() {
    for base in ["https://sw.local", "https://sw.local/"] {
        let session = Session::from_cookie(base, "abc123").unwrap();
        assert_eq!(session.origin().as_str(), "https://sw.local/");
        assert_eq!(session.url().as_str(), "https://sw.local/rest/v1/");
    }
}

#[test]
fn directory_ends_in_one_slash_more_at_most() {
    assert_eq!(directory("https://sw.local/api"), "https://sw.local/api/");
    assert_eq!(directory("https://sw.local/api/"), "https://sw.local/api/");
    assert_eq!(directory("https://sw.local"), "https://sw.local/");
    assert_eq!(directory(""), "/");
    assert_eq!(directory("/"), "/");
    assert_eq!(directory("h\u{e9}"), "h\u{e9}/");
}

#[test]
fn login_request_fails_on_a_malformed_base_url() {
    let error = Session::login_request("sw.local", &admin()).unwrap_err();
    assert!(matches!(error, Error::Parse(url::ParseError::RelativeUrlWithoutBase)));
    let error = Session::login_request("https://", &admin()).unwrap_err();
    assert!(matches!(error, Error::Parse(url::ParseError::EmptyHost)));
}

#[test]
fn login_request_fails_on_a_base_that_cannot_be_a_base() {
    let error = Session::login_request("mailto:admin@sw.local", &admin()).unwrap_err();
    assert!(matches!(
        error,
        Error::Parse(url::ParseError::RelativeUrlWithCannotBeABaseBase)
    ));
}

#[test]
fn new_yields_session_and_token() {
    let reply = ok(r#"{"cookie": "sessionId=abc123"}"#);
    let (session, cookie) = Session::new("https://sw.local", &reply).unwrap();
    assert_eq!(cookie, "sessionId=abc123");
    assert_eq!(session.cookie(), "sessionId=abc123");
    assert_eq!(session.origin().as_str(), "https://sw.local/");
    assert_eq!(session.url().as_str(), "https://sw.local/rest/v1/");
}

#[test]
fn new_accepts_every_success_status() {
    for status in [200u16, 201, 204, 299] {
        let reply = Reply::Response { status, body: r#"{"cookie": "c"}"#.to_string() };
        assert!(Session::new("https://sw.local", &reply).is_ok(), "status {status}");
    }
}

#[test]
fn new_fails_on_every_other_status() {
    for status in [0u16, 100, 199, 300, 301, 400, 401, 404, 500, 65535] {
        let reply = Reply::Response { status, body: r#"{"cookie": "c"}"#.to_string() };
        let error = Session::new("https://sw.local", &reply).unwrap_err();
        match error {
            Error::Request(RequestError::Status(code)) => assert_eq!(code, status),
            other => panic!("status {status} gave {other:?}"),
        }
    }
}

#[test]
fn new_fails_without_a_response() {
    let reply = Reply::Failed("connection refused".to_string());
    match Session::new("https://sw.local", &reply).unwrap_err() {
        Error::Request(RequestError::Transport(reason)) => assert_eq!(reason, "connection refused"),
        other => panic!("{other:?}"),
    }
}

#[test]
fn new_fails_on_a_body_without_token() {
    for body in ["", "not json", "{}", r#"{"cookie": 7}"#, r#"["cookie"]"#, r#"{"Cookie": "c"}"#] {
        let error = Session::new("https://sw.local", &ok(body)).unwrap_err();
        assert!(matches!(error, Error::Request(RequestError::Decode)), "body {body:?}");
    }
}

#[test]
fn new_reports_a_malformed_base_url_before_the_reply() {
    let reply = Reply::Failed("unreachable".to_string());
    let error = Session::new("not a url", &reply).unwrap_err();
    assert!(matches!(error, Error::Parse(_)));
}

#[test]
fn unread_body_counts_after_the_status() {
    let reply = Reply::Unread { status: 400, reason: "reset".to_string() };
    let error = session().get_port(&reply).unwrap_err();
    assert!(matches!(error, Error::Request(RequestError::Status(400))));
    let reply = Reply::Unread { status: 200, reason: "reset".to_string() };
    match session().get_port(&reply).unwrap_err() {
        Error::Request(RequestError::Transport(reason)) => assert_eq!(reason, "reset"),
        other => panic!("{other:?}"),
    }
}

#[test]
fn from_cookie_restores_without_checking_the_token() {
    let session = Session::from_cookie("https://sw.local", "").unwrap();
    assert_eq!(session.cookie(), "");
    assert_eq!(session.url().as_str(), "https://sw.local/rest/v1/");
}

#[test]
fn from_cookie_fails_only_on_a_malformed_base_url() {
    let error = Session::from_cookie("://sw.local", "abc123").unwrap_err();
    assert!(matches!(error, Error::Parse(_)));
    let error = Session::from_cookie("data:text/plain,hello", "abc123").unwrap_err();
    assert!(matches!(error, Error::Parse(_)));
}

#[test]
fn restore_after_login_gives_the_same_session() {
    let reply = ok(r#"{"cookie": "abc123"}"#);
    let (made, cookie) = Session::new("https://sw.local/", &reply).unwrap();
    let restored = Session::from_cookie("https://sw.local/", &cookie).unwrap();
    assert_eq!(restored.origin(), made.origin());
    assert_eq!(restored.url(), made.url());
    assert_eq!(restored.cookie(), made.cookie());
    let one = made.get_port_request("7").unwrap();
    let other = restored.get_port_request("7").unwrap();
    assert_eq!(one.method, other.method);
    assert_eq!(one.url, other.url);
    assert_eq!(one.body, other.body);
    let one = made.get_ports_request().unwrap();
    let other = restored.get_ports_request().unwrap();
    assert_eq!(one.url, other.url);
}

#[test]
fn cloned_session_is_the_same() {
    let session = session();
    let copy = session.clone();
    assert_eq!(copy.origin(), session.origin());
    assert_eq!(copy.url(), session.url());
    assert_eq!(copy.cookie(), session.cookie());
}

#[test]
fn get_ports_request_reads_the_collection() {
    let request = session().get_ports_request().unwrap();
    assert_eq!(request.method, Method::Get);
    assert_eq!(request.url.as_str(), "https://sw.local/rest/v1/poe/ports");
    assert!(request.body.is_none());
}

#[test]
fn get_port_request_reads_the_port() {
    let request = session().get_port_request("1").unwrap();
    assert_eq!(request.method, Method::Get);
    assert_eq!(request.url.as_str(), "https://sw.local/rest/v1/ports/1/poe");
    assert!(request.body.is_none());
    let request = session().get_port_request("Trk 1").unwrap();
    assert_eq!(request.url.as_str(), "https://sw.local/rest/v1/ports/Trk%201/poe");
}

#[test]
fn set_port_request_puts_the_payload_to_the_port() {
    let port = PortPoe { port_id: "12".to_string(), ..PortPoe::default() };
    let data = json(r#"{"isPoeEnabled": false}"#);
    let request = session().set_port_request(&port, data.clone()).unwrap();
    assert_eq!(request.method, Method::Put);
    assert_eq!(request.url.as_str(), "https://sw.local/rest/v1/ports/12/poe");
    assert_eq!(request.body, Some(data));
}

#[test]
fn get_ports_decodes_the_listing() {
    let body = format!(
        r#"{{"collectionResult": {{"total_elements_count": 2}}, "portPoe": [{}, {}]}}"#,
        port_text("1", true),
        port_text("2", false)
    );
    let ports = session().get_ports(&ok(&body)).unwrap();
    assert_eq!(ports.len(), 2);
    assert_eq!(ports[0].port_id, "1");
    assert_eq!(ports[1].port_id, "2");
}

#[test]
fn get_ports_fails_as_the_reply_does() {
    let reply = Reply::Response { status: 503, body: "".to_string() };
    let error = session().get_ports(&reply).unwrap_err();
    assert!(matches!(error, Error::Request(RequestError::Status(503))));
    let error = session().get_ports(&ok(r#"{"portPoe": []}"#)).unwrap_err();
    assert!(matches!(error, Error::Request(RequestError::Decode)));
    let error = session().get_ports(&Reply::Failed("tls".to_string())).unwrap_err();
    assert!(matches!(error, Error::Request(RequestError::Transport(_))));
}

#[test]
fn get_port_decodes_the_port() {
    let port = session().get_port(&ok(&port_text("5", true))).unwrap();
    assert_eq!(port.port_id, "5");
    assert!(port.is_poe_enabled);
}

#[test]
fn get_port_surfaces_not_found() {
    let reply = Reply::Response { status: 404, body: "no such port".to_string() };
    match session().get_port(&reply).unwrap_err() {
        Error::Request(error) => assert_eq!(error.status(), Some(404)),
        other => panic!("{other:?}"),
    }
}

#[test]
fn set_port_decodes_what_the_switch_applied() {
    let port = session().set_port(&ok(&port_text("5", false))).unwrap();
    assert_eq!(port.port_id, "5");
    assert!(!port.is_poe_enabled);
    let error = session().set_port(&ok("{}")).unwrap_err();
    assert!(matches!(error, Error::Request(RequestError::Decode)));
}

#[test]
fn status_is_known_only_of_a_status_error() {
    assert_eq!(RequestError::Status(400).status(), Some(400));
    assert_eq!(RequestError::Decode.status(), None);
    assert_eq!(RequestError::Transport("x".to_string()).status(), None);
}

#[test]
fn errors_convert_into_the_error_of_the_interface() {
    assert!(matches!(Error::from(url::ParseError::EmptyHost), Error::Parse(url::ParseError::EmptyHost)));
    assert!(matches!(Error::from(RequestError::Decode), Error::Request(RequestError::Decode)));
}
