//! Making sure that a restored session is still accepted, and logging in
//! again, once, where it is not.
//!
//! The switch has no resource that tells whether a session is valid, so the
//! first read of a run serves as the probe: status 400 on it means that the
//! session has expired. The steps are taken by the caller, who sends each
//! request and hands back the reply:
//! [`Validation::begin`], then [`Validation::advance`] until the step is no
//! longer [`Step::Send`].

use crate::command::{PersistentData, PersistentDataView};
use crate::port::{PortPoe, PortPoeView};
use crate::session::{LoginRequest, Session, SessionView};
use crate::transport::{
    Error, ErrorView, Method, Reply, ReplyView, Request, RequestError, RequestErrorView,
    RequestView,
};
use vstd::prelude::*;

verus! {

/// What the probe says of the session.
#[derive(Clone, Copy, Debug, PartialEq, Eq, Structural)]
pub enum Probe {
    /// The probe succeeded: the session is accepted.
    Valid,
    /// The switch answered the probe with status 400: the session has
    /// expired or is invalid.
    Expired,
    /// The probe failed in any other way.
    OtherError,
}

/// What the result of the probe says of the session.
pub open spec fn classify(outcome: Result<PortPoeView, ErrorView>) -> Probe {
    match outcome {
        Ok(_) => Probe::Valid,
        Err(ErrorView::Request(RequestErrorView::Status(400))) => Probe::Expired,
        Err(_) => Probe::OtherError,
    }
}

/// Classifies the result of the probe.
pub fn probe(outcome: &Result<PortPoe, Error>) -> (verdict: Probe)
    ensures
        verdict == classify(
            match outcome {
                Ok(port) => Ok(port@),
                Err(error) => Err(error@),
            },
        ),
{
    match outcome {
        Ok(_) => Probe::Valid,
        Err(Error::Request(RequestError::Status(status))) => if *status == 400 {
            Probe::Expired
        } else {
            Probe::OtherError
        },
        Err(_) => Probe::OtherError,
    }
}

/// Where a validation stands while a request is out.
#[derive(Debug)]
pub enum Validation {
    /// The probe is out, sent with the restored session.
    Probing { record: PersistentData, session: Session },
    /// The login is out, after the probe found the session expired.
    Renewing { record: PersistentData },
}

/// A [`Validation`] with its parts as their views.
pub enum ValidationView {
    Probing { record: PersistentDataView, session: SessionView },
    Renewing { record: PersistentDataView },
}

impl View for Validation {
    type V = ValidationView;

    open spec fn view(&self) -> ValidationView {
        match self {
            Validation::Probing { record, session } => ValidationView::Probing {
                record: record@,
                session: session@,
            },
            Validation::Renewing { record } => ValidationView::Renewing { record: record@ },
        }
    }
}

/// Why no valid session could be had.
#[derive(Debug)]
pub enum ValidationError {
    /// The kept base URL does not parse, so no session could be restored.
    Config(Error),
    /// The probe failed, and not because the session has expired.
    Unexpected,
    /// The session has expired and the login that should replace it failed.
    Auth(Error),
}

/// A [`ValidationError`] with its errors as their views.
pub enum ValidationErrorView {
    Config(ErrorView),
    Unexpected,
    Auth(ErrorView),
}

impl View for ValidationError {
    type V = ValidationErrorView;

    open spec fn view(&self) -> ValidationErrorView {
        match self {
            ValidationError::Config(error) => ValidationErrorView::Config(error@),
            ValidationError::Unexpected => ValidationErrorView::Unexpected,
            ValidationError::Auth(error) => ValidationErrorView::Auth(error@),
        }
    }
}

/// What the caller does next.
#[derive(Debug)]
pub enum Step {
    /// Send `request`, and hand the reply to `next`.
    Send { request: Request, next: Validation },
    /// Use `session`. Where the session was renewed, `renewed` is the record
    /// to keep in place of the old one.
    Ready { session: Session, renewed: Option<PersistentData> },
    /// Give up.
    Failed(ValidationError),
}

/// A [`Step`] with its parts as their views.
pub enum StepView {
    Send { request: RequestView, next: ValidationView },
    Ready { session: SessionView, renewed: Option<PersistentDataView> },
    Failed(ValidationErrorView),
}

impl View for Step {
    type V = StepView;

    open spec fn view(&self) -> StepView {
        match self {
            Step::Send { request, next } => StepView::Send { request: request@, next: next@ },
            Step::Ready { session, renewed } => StepView::Ready {
                session: session@,
                renewed: match renewed {
                    Some(record) => Some(record@),
                    None => None,
                },
            },
            Step::Failed(error) => StepView::Failed(error@),
        }
    }
}

/// Identifier of the port that is read as the probe.
pub open spec fn probe_port() -> Seq<char> {
    "1"@
}

impl ValidationView {
    /// The first step for a kept record: restore the session from the
    /// record's base URL and token, and send the probe.
    pub open spec fn begin(record: PersistentDataView) -> StepView {
        match SessionView::restore(record.login_args.base_url, record.cookie) {
            Err(error) => StepView::Failed(ValidationErrorView::Config(error)),
            Ok(session) => match session.get_port_request(probe_port()) {
                Err(_) => StepView::Failed(ValidationErrorView::Unexpected),
                Ok(request) => StepView::Send {
                    request,
                    next: ValidationView::Probing { record, session },
                },
            },
        }
    }

    /// The step that follows the reply to the request that is out.
    ///
    /// After the probe: a valid session is ready as it is; an expired one
    /// has the login sent, with the record's base URL and credentials; any
    /// other failure ends the validation. After the login: the new session is
    /// ready, with the record that holds its token, or the validation fails.
    pub open spec fn advance(self, reply: ReplyView) -> StepView {
        match self {
            ValidationView::Probing { record, session } => match classify(reply.port()) {
                Probe::Valid => StepView::Ready { session, renewed: None },
                Probe::OtherError => StepView::Failed(ValidationErrorView::Unexpected),
                Probe::Expired => match SessionView::login_request(
                    record.login_args.base_url,
                    record.login_args.credentials(),
                ) {
                    Err(error) => StepView::Failed(ValidationErrorView::Auth(error)),
                    Ok(request) => StepView::Send {
                        request,
                        next: ValidationView::Renewing { record },
                    },
                },
            },
            ValidationView::Renewing { record } => match SessionView::authenticate(
                record.login_args.base_url,
                reply,
            ) {
                Err(error) => StepView::Failed(ValidationErrorView::Auth(error)),
                Ok((session, cookie)) => StepView::Ready {
                    session,
                    renewed: Some(PersistentDataView { login_args: record.login_args, cookie }),
                },
            },
        }
    }
}

impl Validation {
    /// Begins the validation of the session that `record` holds.
    pub fn begin(record: PersistentData) -> (step: Step)
        ensures
            step@ == ValidationView::begin(record@),
    {
        let session = match Session::from_cookie(
            record.login_args.base_url.as_str(),
            record.cookie.as_str(),
        ) {
            Ok(session) => session,
            Err(error) => {
                return Step::Failed(ValidationError::Config(error));
            },
        };
        match session.get_port_request("1") {
            Ok(request) => Step::Send { request, next: Validation::Probing { record, session } },
            Err(_) => Step::Failed(ValidationError::Unexpected),
        }
    }

    /// Takes the step that follows the reply to the request that is out.
    pub fn advance(self, reply: &Reply) -> (step: Step)
        ensures
            step@ == self@.advance(reply@),
    {
        match self {
            Validation::Probing { record, session } => {
                let outcome = session.get_port(reply);
                match probe(&outcome) {
                    Probe::Valid => Step::Ready { session, renewed: None },
                    Probe::OtherError => Step::Failed(ValidationError::Unexpected),
                    Probe::Expired => {
                        let credentials = LoginRequest::from(&record.login_args);
                        match Session::login_request(
                            record.login_args.base_url.as_str(),
                            &credentials,
                        ) {
                            Ok(request) => Step::Send {
                                request,
                                next: Validation::Renewing { record },
                            },
                            Err(error) => Step::Failed(ValidationError::Auth(error)),
                        }
                    },
                }
            },
            Validation::Renewing { record } => {
                match Session::new(record.login_args.base_url.as_str(), reply) {
                    Ok((session, cookie)) => Step::Ready {
                        session,
                        renewed: Some(PersistentData { login_args: record.login_args, cookie }),
                    },
                    Err(error) => Step::Failed(ValidationError::Auth(error)),
                }
            },
        }
    }
}

/// A validation sends the probe and at most one login: the only request that
/// a reply can lead to is the login after an expired probe, and no reply to
/// that login leads to another request.
pub proof fn lemma_single_renewal(state: ValidationView, reply: ReplyView, later: ReplyView)
    ensures
        state.advance(reply) matches StepView::Send { request, next } ==> {
            &&& state is Probing
            &&& classify(reply.port()) == Probe::Expired
            &&& request.method == Method::Post
            &&& next is Renewing
            &&& !(next.advance(later) is Send)
        },
{
}

/// A session that the probe finds valid is ready as it was restored: nothing
/// more is sent and nothing is to be kept.
pub proof fn lemma_valid_session_is_kept(
    record: PersistentDataView,
    session: SessionView,
    reply: ReplyView,
)
    requires
        classify(reply.port()) == Probe::Valid,
    ensures
        (ValidationView::Probing { record, session }).advance(reply) == (StepView::Ready {
            session,
            renewed: None,
        }),
{
}

} // verus!
