//! Sessions with a switch: logging in, restoring a session from its token, and
//! reading and writing ports through it.

use crate::endpoint::{
    base_address, login_target, port_target, ports_target, resolve_login, resolve_port,
    resolve_ports, resolve_root, rest_path, rest_root, url_join, url_text,
};
use crate::json::{empty_object, json_of, read_text, set_member, text_value, Json};
use crate::port::{port_views, PortPoe, PortPoeView};
use crate::transport::{
    Error, ErrorView, Method, Reply, ReplyView, Request, RequestError, RequestErrorView,
    RequestView,
};
use serde_json::Value;
use url::ParseError;
use url::Url;
use vstd::prelude::*;

verus! {

/// Credentials for logging in to a switch.
#[derive(Debug)]
pub struct LoginRequest {
    pub user_name: String,
    pub password: String,
}

/// A [`LoginRequest`] with its strings as sequences of characters.
pub struct LoginRequestView {
    pub user_name: Seq<char>,
    pub password: Seq<char>,
}

impl View for LoginRequest {
    type V = LoginRequestView;

    open spec fn view(&self) -> LoginRequestView {
        LoginRequestView { user_name: self.user_name@, password: self.password@ }
    }
}

impl LoginRequestView {
    /// The JSON object that carries the credentials on the wire: the user
    /// name under `userName`, the password under `password`.
    pub open spec fn to_json(self) -> Json {
        Json::empty_object().with("userName"@, Json::Text(self.user_name)).with(
            "password"@,
            Json::Text(self.password),
        )
    }
}

impl LoginRequest {
    /// Encodes the credentials for the wire.
    pub fn to_json(&self) -> (value: Value)
        ensures
            json_of(value) == self@.to_json(),
    {
        let mut value = empty_object();
        set_member(&mut value, "userName", text_value(self.user_name.as_str()));
        set_member(&mut value, "password", text_value(self.password.as_str()));
        value
    }
}

/// An authenticated session: where the switch's REST interface is, and the
/// token that proves the login.
#[derive(Debug)]
pub struct Session {
    origin: Url,
    url: Url,
    cookie: String,
}

/// What a [`Session`] holds: the base address it was made for (the base URL
/// with a slash at its end), the REST root resolved against it, and the
/// session token, each as text.
pub struct SessionView {
    pub origin: Seq<char>,
    pub url: Seq<char>,
    pub cookie: Seq<char>,
}

impl View for Session {
    type V = SessionView;

    closed spec fn view(&self) -> SessionView {
        SessionView { origin: url_text(self.origin), url: url_text(self.url), cookie: self.cookie@ }
    }
}

impl Clone for Session {
    fn clone(&self) -> (copy: Session)
        ensures
            copy@ == self@,
    {
        proof {
            use_type_invariant(self);
        }
        Session { origin: self.origin.clone(), url: self.url.clone(), cookie: self.cookie.clone() }
    }
}

impl SessionView {
    /// A session's REST root is `rest/v1/` resolved against its base URL.
    pub open spec fn well_formed(self) -> bool {
        url_join(self.origin, rest_path()) == Ok::<Seq<char>, ParseError>(self.url)
    }

    /// The session for a base URL, given as text, and a token: the base
    /// address, with the REST root resolved against it, so that every
    /// resource lies below the whole path of the base. Where one of the two
    /// fails, its error.
    pub open spec fn restore(url: Seq<char>, cookie: Seq<char>) -> Result<SessionView, ErrorView> {
        match (base_address(url), rest_root(url)) {
            (Ok(origin), Ok(root)) => Ok(SessionView { origin, url: root, cookie }),
            (_, Err(error)) => Err(ErrorView::Parse(error)),
            (Err(error), _) => Err(ErrorView::Parse(error)),
        }
    }

    /// The request that logs in with `credentials` at the switch with the
    /// base URL `url`: the credentials as JSON, posted to the login resource.
    pub open spec fn login_request(url: Seq<char>, credentials: LoginRequestView) -> Result<
        RequestView,
        ErrorView,
    > {
        match login_target(url) {
            Ok(target) => Ok(
                RequestView {
                    method: Method::Post,
                    url: target,
                    body: Some(credentials.to_json()),
                },
            ),
            Err(error) => Err(ErrorView::Parse(error)),
        }
    }

    /// The request that lists all ports.
    pub open spec fn get_ports_request(self) -> Result<RequestView, ErrorView> {
        match ports_target(self.url) {
            Ok(target) => Ok(RequestView { method: Method::Get, url: target, body: None }),
            Err(error) => Err(ErrorView::Parse(error)),
        }
    }

    /// The request that reads the port with the identifier `port_id`.
    pub open spec fn get_port_request(self, port_id: Seq<char>) -> Result<RequestView, ErrorView> {
        match port_target(self.url, port_id) {
            Ok(target) => Ok(RequestView { method: Method::Get, url: target, body: None }),
            Err(error) => Err(ErrorView::Parse(error)),
        }
    }

    /// The request that writes `data` to the port with the identifier
    /// `port_id`.
    pub open spec fn set_port_request(self, port_id: Seq<char>, data: Json) -> Result<
        RequestView,
        ErrorView,
    > {
        match port_target(self.url, port_id) {
            Ok(target) => Ok(RequestView { method: Method::Put, url: target, body: Some(data) }),
            Err(error) => Err(ErrorView::Parse(error)),
        }
    }

    /// The session and token that a reply to the login request yields. The
    /// token is the string under `cookie` in the reply's document.
    pub open spec fn authenticate(url: Seq<char>, reply: ReplyView) -> Result<
        (SessionView, Seq<char>),
        ErrorView,
    > {
        match login_target(url) {
            Err(error) => Err(ErrorView::Parse(error)),
            Ok(_) => match reply.document() {
                Err(error) => Err(ErrorView::Request(error)),
                Ok(document) => match document.text_at("cookie"@) {
                    None => Err(ErrorView::Request(RequestErrorView::Decode)),
                    Some(cookie) => match Self::restore(url, cookie) {
                        Ok(session) => Ok((session, cookie)),
                        Err(error) => Err(error),
                    },
                },
            },
        }
    }
}

impl ReplyView {
    /// The ports that a reply to a listing request yields.
    pub open spec fn ports(self) -> Result<Seq<PortPoeView>, ErrorView> {
        match self.document() {
            Err(error) => Err(ErrorView::Request(error)),
            Ok(document) => match PortPoeView::list_from_json(document) {
                Some(ports) => Ok(ports),
                None => Err(ErrorView::Request(RequestErrorView::Decode)),
            },
        }
    }

    /// The port that a reply to a request for one port yields.
    pub open spec fn port(self) -> Result<PortPoeView, ErrorView> {
        match self.document() {
            Err(error) => Err(ErrorView::Request(error)),
            Ok(document) => match PortPoeView::from_json(document) {
                Some(port) => Ok(port),
                None => Err(ErrorView::Request(RequestErrorView::Decode)),
            },
        }
    }
}

impl Session {
    #[verifier::type_invariant]
    spec fn resolved(self) -> bool {
        url_join(url_text(self.origin), rest_path()) == Ok::<Seq<char>, ParseError>(
            url_text(self.url),
        )
    }

    /// The request that logs in: the credentials, posted to the login
    /// resource. Fails where the base URL does not parse or an address does
    /// not resolve.
    pub fn login_request(url: &str, credentials: &LoginRequest) -> (request: Result<Request, Error>)
        ensures
            match request {
                Ok(request) => SessionView::login_request(url@, credentials@) == Ok::<
                    RequestView,
                    ErrorView,
                >(request@),
                Err(error) => SessionView::login_request(url@, credentials@) == Err::<
                    RequestView,
                    ErrorView,
                >(error@),
            },
    {
        let (_, root) = match resolve_root(url) {
            Ok(resolved) => resolved,
            Err(error) => {
                return Err(Error::Parse(error));
            },
        };
        match resolve_login(&root) {
            Ok(target) => Ok(
                Request { method: Method::Post, url: target, body: Some(credentials.to_json()) },
            ),
            Err(error) => Err(Error::Parse(error)),
        }
    }

    /// Completes a login from the reply to [`Session::login_request`]: the
    /// session, and the token to keep for [`Session::from_cookie`].
    pub fn new(url: &str, reply: &Reply) -> (made: Result<(Session, String), Error>)
        ensures
            match made {
                Ok((session, cookie)) => SessionView::authenticate(url@, reply@) == Ok::<
                    (SessionView, Seq<char>),
                    ErrorView,
                >((session@, cookie@)) && session@.well_formed(),
                Err(error) => SessionView::authenticate(url@, reply@) == Err::<
                    (SessionView, Seq<char>),
                    ErrorView,
                >(error@),
            },
    {
        let (_, root) = match resolve_root(url) {
            Ok(resolved) => resolved,
            Err(error) => {
                return Err(Error::Parse(error));
            },
        };
        if let Err(error) = resolve_login(&root) {
            return Err(Error::Parse(error));
        }
        let document = match reply.document() {
            Ok(document) => document,
            Err(error) => {
                return Err(Error::Request(error));
            },
        };
        let cookie = match read_text(&document, "cookie") {
            Some(cookie) => cookie,
            None => {
                return Err(Error::Request(RequestError::Decode));
            },
        };
        match Session::from_cookie(url, cookie.as_str()) {
            Ok(session) => Ok((session, cookie)),
            Err(error) => Err(error),
        }
    }

    /// Restores a session from a token obtained earlier. Nothing is sent, and
    /// the token is not checked. Fails only where the base URL does not parse
    /// or the REST root does not resolve against it.
    pub fn from_cookie(url: &str, session_cookie: &str) -> (restored: Result<Session, Error>)
        ensures
            match restored {
                Ok(session) => SessionView::restore(url@, session_cookie@) == Ok::<
                    SessionView,
                    ErrorView,
                >(session@) && session@.well_formed(),
                Err(error) => SessionView::restore(url@, session_cookie@) == Err::<
                    SessionView,
                    ErrorView,
                >(error@),
            },
    {
        match resolve_root(url) {
            Ok((origin, root)) => Ok(
                Session { origin, url: root, cookie: session_cookie.to_owned() },
            ),
            Err(error) => Err(Error::Parse(error)),
        }
    }

    /// The base address that the session was made for: the base URL, with a
    /// slash at its end.
    pub fn origin(&self) -> (origin: &Url)
        ensures
            url_text(*origin) == self@.origin,
    {
        &self.origin
    }

    /// The REST root, against which the session resolves its resources.
    pub fn url(&self) -> (url: &Url)
        ensures
            url_text(*url) == self@.url,
            self@.well_formed(),
    {
        proof {
            use_type_invariant(self);
        }
        &self.url
    }

    /// The session token.
    pub fn cookie(&self) -> (cookie: &str)
        ensures
            cookie@ == self@.cookie,
    {
        self.cookie.as_str()
    }

    /// The request that lists all ports.
    pub fn get_ports_request(&self) -> (request: Result<Request, Error>)
        ensures
            match request {
                Ok(request) => self@.get_ports_request() == Ok::<RequestView, ErrorView>(request@),
                Err(error) => self@.get_ports_request() == Err::<RequestView, ErrorView>(error@),
            },
    {
        match resolve_ports(&self.url) {
            Ok(target) => Ok(Request { method: Method::Get, url: target, body: None }),
            Err(error) => Err(Error::Parse(error)),
        }
    }

    /// The ports in the reply to [`Session::get_ports_request`], in the
    /// reply's order.
    pub fn get_ports(&self, reply: &Reply) -> (ports: Result<Vec<PortPoe>, Error>)
        ensures
            match ports {
                Ok(ports) => reply@.ports() == Ok::<Seq<PortPoeView>, ErrorView>(
                    port_views(ports@),
                ),
                Err(error) => reply@.ports() == Err::<Seq<PortPoeView>, ErrorView>(error@),
            },
    {
        let document = match reply.document() {
            Ok(document) => document,
            Err(error) => {
                return Err(Error::Request(error));
            },
        };
        match PortPoe::list_from_json(&document) {
            Some(ports) => Ok(ports),
            None => Err(Error::Request(RequestError::Decode)),
        }
    }

    /// The request that reads the port with the given identifier.
    pub fn get_port_request(&self, port_id: &str) -> (request: Result<Request, Error>)
        ensures
            match request {
                Ok(request) => self@.get_port_request(port_id@) == Ok::<RequestView, ErrorView>(
                    request@,
                ),
                Err(error) => self@.get_port_request(port_id@) == Err::<RequestView, ErrorView>(
                    error@,
                ),
            },
    {
        match resolve_port(&self.url, port_id) {
            Ok(target) => Ok(Request { method: Method::Get, url: target, body: None }),
            Err(error) => Err(Error::Parse(error)),
        }
    }

    /// The port in the reply to [`Session::get_port_request`].
    pub fn get_port(&self, reply: &Reply) -> (port: Result<PortPoe, Error>)
        ensures
            match port {
                Ok(port) => reply@.port() == Ok::<PortPoeView, ErrorView>(port@),
                Err(error) => reply@.port() == Err::<PortPoeView, ErrorView>(error@),
            },
    {
        let document = match reply.document() {
            Ok(document) => document,
            Err(error) => {
                return Err(Error::Request(error));
            },
        };
        match PortPoe::from_json(&document) {
            Some(port) => Ok(port),
            None => Err(Error::Request(RequestError::Decode)),
        }
    }

    /// The request that updates `port`: `data`, put to the resource of the
    /// port's identifier.
    pub fn set_port_request(&self, port: &PortPoe, data: Value) -> (request: Result<Request, Error>)
        ensures
            match request {
                Ok(request) => self@.set_port_request(port@.port_id, json_of(data)) == Ok::<
                    RequestView,
                    ErrorView,
                >(request@),
                Err(error) => self@.set_port_request(port@.port_id, json_of(data)) == Err::<
                    RequestView,
                    ErrorView,
                >(error@),
            },
    {
        match resolve_port(&self.url, port.port_id.as_str()) {
            Ok(target) => Ok(Request { method: Method::Put, url: target, body: Some(data) }),
            Err(error) => Err(Error::Parse(error)),
        }
    }

    /// The port, as the switch has it after the update, in the reply to
    /// [`Session::set_port_request`].
    pub fn set_port(&self, reply: &Reply) -> (port: Result<PortPoe, Error>)
        ensures
            match port {
                Ok(port) => reply@.port() == Ok::<PortPoeView, ErrorView>(port@),
                Err(error) => reply@.port() == Err::<PortPoeView, ErrorView>(error@),
            },
    {
        self.get_port(reply)
    }
}

/// A login followed by a restore from the token it returned gives the same
/// session, well formed, which therefore builds the same requests.
pub proof fn lemma_restore_after_login(url: Seq<char>, reply: ReplyView)
    ensures
        SessionView::authenticate(url, reply) matches Ok((session, cookie)) ==> {
            &&& SessionView::restore(url, cookie) == Ok::<SessionView, ErrorView>(session)
            &&& session.well_formed()
        },
{
}

} // verus!
