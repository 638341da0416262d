//! The commands of the client: logging in, reading ports and updating ports.
//! Each command names the request to send first, and handles the reply.

use crate::bulk::{job_views, plan, planned, Job, JobView};
use crate::port::{port_views, PortPoe, PortPoeView};
use crate::selection::{is_all, means_all, select, selected, texts};
use crate::session::{LoginRequest, LoginRequestView, Session, SessionView};
use crate::transport::{Error, ErrorView, Reply, ReplyView, Request, RequestView};
use vstd::prelude::*;
use vstd::std_specs::convert::FromSpecImpl;

verus! {

/// What a login is called with: the switch's base URL and the credentials.
#[derive(Debug)]
pub struct LoginArgs {
    pub base_url: String,
    pub user_name: String,
    pub password: String,
}

/// [`LoginArgs`] with its strings as sequences of characters.
pub struct LoginArgsView {
    pub base_url: Seq<char>,
    pub user_name: Seq<char>,
    pub password: Seq<char>,
}

impl View for LoginArgs {
    type V = LoginArgsView;

    open spec fn view(&self) -> LoginArgsView {
        LoginArgsView {
            base_url: self.base_url@,
            user_name: self.user_name@,
            password: self.password@,
        }
    }
}

impl LoginArgsView {
    /// The credentials among the arguments.
    pub open spec fn credentials(self) -> LoginRequestView {
        LoginRequestView { user_name: self.user_name, password: self.password }
    }
}

impl Clone for LoginArgs {
    fn clone(&self) -> (copy: LoginArgs)
        ensures
            copy@ == self@,
    {
        LoginArgs {
            base_url: self.base_url.clone(),
            user_name: self.user_name.clone(),
            password: self.password.clone(),
        }
    }
}

impl From<LoginArgs> for LoginRequest {
    fn from(value: LoginArgs) -> (credentials: LoginRequest) {
        LoginRequest { user_name: value.user_name, password: value.password }
    }
}

impl FromSpecImpl<LoginArgs> for LoginRequest {
    open spec fn obeys_from_spec() -> bool {
        true
    }

    open spec fn from_spec(value: LoginArgs) -> LoginRequest {
        LoginRequest { user_name: value.user_name, password: value.password }
    }
}

impl From<&LoginArgs> for LoginRequest {
    fn from(value: &LoginArgs) -> (credentials: LoginRequest) {
        LoginRequest { user_name: value.user_name.clone(), password: value.password.clone() }
    }
}

impl FromSpecImpl<&LoginArgs> for LoginRequest {
    open spec fn obeys_from_spec() -> bool {
        true
    }

    open spec fn from_spec(value: &LoginArgs) -> LoginRequest {
        LoginRequest { user_name: value.user_name, password: value.password }
    }
}

/// The record that is kept between runs: what the last login was called
/// with, and the session token that is current.
#[derive(Debug)]
pub struct PersistentData {
    pub login_args: LoginArgs,
    pub cookie: String,
}

/// [`PersistentData`] with its parts as their views.
pub struct PersistentDataView {
    pub login_args: LoginArgsView,
    pub cookie: Seq<char>,
}

impl View for PersistentData {
    type V = PersistentDataView;

    open spec fn view(&self) -> PersistentDataView {
        PersistentDataView { login_args: self.login_args@, cookie: self.cookie@ }
    }
}

impl LoginArgs {
    /// The request that logs in.
    pub fn request(&self) -> (request: Result<Request, Error>)
        ensures
            match request {
                Ok(request) => SessionView::login_request(self@.base_url, self@.credentials())
                    == Ok::<RequestView, ErrorView>(request@),
                Err(error) => SessionView::login_request(self@.base_url, self@.credentials())
                    == Err::<RequestView, ErrorView>(error@),
            },
    {
        let credentials = LoginRequest::from(self);
        Session::login_request(self.base_url.as_str(), &credentials)
    }

    /// Completes the login from the reply to [`LoginArgs::request`]: the
    /// session, and the record to keep, which holds these arguments and the
    /// new token.
    pub fn handle(&self, reply: &Reply) -> (done: Result<(Session, PersistentData), Error>)
        ensures
            match done {
                Ok((session, record)) => SessionView::authenticate(self@.base_url, reply@) == Ok::<
                    (SessionView, Seq<char>),
                    ErrorView,
                >((session@, record@.cookie)) && record@.login_args == self@
                    && session@.well_formed(),
                Err(error) => SessionView::authenticate(self@.base_url, reply@) == Err::<
                    (SessionView, Seq<char>),
                    ErrorView,
                >(error@),
            },
    {
        match Session::new(self.base_url.as_str(), reply) {
            Ok((session, cookie)) => Ok(
                (session, PersistentData { login_args: self.clone(), cookie }),
            ),
            Err(error) => Err(error),
        }
    }
}

/// What reading ports is called with: the identifiers of the ports, or `all`
/// alone for every port.
#[derive(Debug)]
pub struct GetArgs {
    pub port_ids: Vec<String>,
}

/// The request of a read with these identifiers: a single identifier other
/// than `all` is looked up by itself, anything else has all ports listed.
pub open spec fn read_request(session: SessionView, port_ids: Seq<Seq<char>>) -> Result<
    RequestView,
    ErrorView,
> {
    if !means_all(port_ids) && port_ids.len() == 1 {
        session.get_port_request(port_ids[0])
    } else {
        session.get_ports_request()
    }
}

/// The ports that a read with these identifiers yields from the reply: all
/// that the switch lists for `all`; for a single identifier that one port, or
/// the error of that lookup; of several identifiers, the listed ports that
/// have one of them.
pub open spec fn read_ports(port_ids: Seq<Seq<char>>, reply: ReplyView) -> Result<
    Seq<PortPoeView>,
    ErrorView,
> {
    if !means_all(port_ids) && port_ids.len() == 1 {
        match reply.port() {
            Ok(port) => Ok(seq![port]),
            Err(error) => Err(error),
        }
    } else {
        match reply.ports() {
            Ok(ports) => Ok(selected(ports, port_ids)),
            Err(error) => Err(error),
        }
    }
}

impl GetArgs {
    /// The request that reads the ports.
    pub fn request(&self, session: &Session) -> (request: Result<Request, Error>)
        ensures
            match request {
                Ok(request) => read_request(session@, texts(self.port_ids@)) == Ok::<
                    RequestView,
                    ErrorView,
                >(request@),
                Err(error) => read_request(session@, texts(self.port_ids@)) == Err::<
                    RequestView,
                    ErrorView,
                >(error@),
            },
    {
        if !is_all(&self.port_ids) && self.port_ids.len() == 1 {
            session.get_port_request(self.port_ids[0].as_str())
        } else {
            session.get_ports_request()
        }
    }

    /// The ports to show, from the reply to [`GetArgs::request`].
    pub fn handle(&self, session: &Session, reply: &Reply) -> (ports: Result<Vec<PortPoe>, Error>)
        ensures
            match ports {
                Ok(ports) => read_ports(texts(self.port_ids@), reply@) == Ok::<
                    Seq<PortPoeView>,
                    ErrorView,
                >(port_views(ports@)),
                Err(error) => read_ports(texts(self.port_ids@), reply@) == Err::<
                    Seq<PortPoeView>,
                    ErrorView,
                >(error@),
            },
    {
        if !is_all(&self.port_ids) && self.port_ids.len() == 1 {
            match session.get_port(reply) {
                Ok(port) => {
                    let mut ports: Vec<PortPoe> = Vec::new();
                    ports.push(port);
                    assert(port_views(ports@) =~= seq![port@]);
                    Ok(ports)
                },
                Err(error) => Err(error),
            }
        } else {
            match session.get_ports(reply) {
                Ok(ports) => Ok(select(ports, &self.port_ids)),
                Err(error) => Err(error),
            }
        }
    }
}

/// What updating ports is called with: the identifiers of the ports, or `all`
/// alone for every port, and the payload to write to each, as JSON text.
#[derive(Debug)]
pub struct SetArgs {
    pub port_ids: Vec<String>,
    pub data: String,
}

/// Why an update could not be started.
#[derive(Debug)]
pub enum SetError {
    /// Listing the ports failed.
    Api(Error),
    /// The payload is no JSON.
    Payload,
}

/// A [`SetError`] with its error as its view.
pub enum SetErrorView {
    Api(ErrorView),
    Payload,
}

impl View for SetError {
    type V = SetErrorView;

    open spec fn view(&self) -> SetErrorView {
        match self {
            SetError::Api(error) => SetErrorView::Api(error@),
            SetError::Payload => SetErrorView::Payload,
        }
    }
}

/// The units of work of an update with these identifiers and this payload,
/// given the reply to the listing: one for each selected port.
pub open spec fn update_jobs(port_ids: Seq<Seq<char>>, data: Seq<char>, reply: ReplyView) -> Result<
    Seq<JobView>,
    SetErrorView,
> {
    match reply.ports() {
        Err(error) => Err(SetErrorView::Api(error)),
        Ok(ports) => match planned(selected(ports, port_ids), data) {
            Some(jobs) => Ok(jobs),
            None => Err(SetErrorView::Payload),
        },
    }
}

impl SetArgs {
    /// The request that lists the ports of the switch, among which the
    /// targets of the update are selected.
    pub fn request(&self, session: &Session) -> (request: Result<Request, Error>)
        ensures
            match request {
                Ok(request) => session@.get_ports_request() == Ok::<RequestView, ErrorView>(
                    request@,
                ),
                Err(error) => session@.get_ports_request() == Err::<RequestView, ErrorView>(
                    error@,
                ),
            },
    {
        session.get_ports_request()
    }

    /// The units of work of the update, from the reply to
    /// [`SetArgs::request`]. Each is to be run by itself, and the outcomes
    /// handed to [`crate::bulk::collect`].
    pub fn handle(&self, session: &Session, reply: &Reply) -> (jobs: Result<Vec<Job>, SetError>)
        ensures
            match jobs {
                Ok(jobs) => update_jobs(texts(self.port_ids@), self.data@, reply@) == Ok::<
                    Seq<JobView>,
                    SetErrorView,
                >(job_views(jobs@)),
                Err(error) => update_jobs(texts(self.port_ids@), self.data@, reply@) == Err::<
                    Seq<JobView>,
                    SetErrorView,
                >(error@),
            },
    {
        let ports = match session.get_ports(reply) {
            Ok(ports) => ports,
            Err(error) => {
                return Err(SetError::Api(error));
            },
        };
        let targets = select(ports, &self.port_ids);
        match plan(&targets, self.data.as_str()) {
            Some(jobs) => Ok(jobs),
            None => Err(SetError::Payload),
        }
    }
}

} // verus!
