//! Applying one update to many ports: the units of work to run side by side,
//! and what their outcomes add up to.

use crate::json::{json_of, json_parse, parse, Json};
use crate::port::{port_views, PortPoe, PortPoeView};
use crate::transport::{Error, ErrorView};
use serde_json::Value;
use vstd::prelude::*;

verus! {

/// One unit of work of a bulk update: the payload to write to one port.
#[derive(Debug)]
pub struct Job {
    pub port: PortPoe,
    pub data: Value,
}

/// A [`Job`] with its port as its view and its payload as a document.
pub struct JobView {
    pub port: PortPoeView,
    pub data: Json,
}

impl View for Job {
    type V = JobView;

    open spec fn view(&self) -> JobView {
        JobView { port: self.port@, data: json_of(self.data) }
    }
}

/// The jobs of a vector, each by its view.
pub open spec fn job_views(jobs: Seq<Job>) -> Seq<JobView> {
    jobs.map_values(|job: Job| job@)
}

/// The units of work for writing the payload `data`, given as JSON text, to
/// each of `targets`: one for each target, in order, each with the payload
/// parsed. There are none where there are targets and the text is no JSON.
pub open spec fn planned(targets: Seq<PortPoeView>, data: Seq<char>) -> Option<Seq<JobView>> {
    if targets.len() == 0 {
        Some(Seq::empty())
    } else {
        match json_parse(data) {
            Some(payload) => Some(
                targets.map_values(|port: PortPoeView| JobView { port, data: payload }),
            ),
            None => None,
        }
    }
}

/// Plans a bulk update: one unit of work for each target, each with its own
/// copy of the payload. `None` where there are targets and `data` is no JSON.
pub fn plan(targets: &Vec<PortPoe>, data: &str) -> (jobs: Option<Vec<Job>>)
    ensures
        match jobs {
            Some(jobs) => planned(port_views(targets@), data@) == Some(job_views(jobs@)),
            None => planned(port_views(targets@), data@) is None,
        },
{
    let mut jobs: Vec<Job> = Vec::new();
    let mut at: usize = 0;
    while at < targets.len()
        invariant
            at <= targets.len(),
            jobs.len() == at,
            at > 0 ==> json_parse(data@) is Some,
            forall|i: int|
                0 <= i < at ==> (#[trigger] jobs[i])@ == (JobView {
                    port: targets[i]@,
                    data: json_parse(data@)->Some_0,
                }),
        decreases targets.len() - at,
    {
        match parse(data) {
            Some(payload) => jobs.push(Job { port: targets[at].clone(), data: payload }),
            None => {
                return None;
            },
        }
        at += 1;
    }
    proof {
        if targets.len() > 0 {
            let payload = json_parse(data@)->Some_0;
            assert(job_views(jobs@) =~= port_views(targets@).map_values(
                |port: PortPoeView| JobView { port, data: payload },
            ));
        } else {
            assert(job_views(jobs@) =~= Seq::<JobView>::empty());
        }
    }
    Some(jobs)
}

/// How one unit of work ended.
#[derive(Debug)]
pub enum Outcome {
    /// The unit ran to its end, with the result of the write.
    Finished(Result<PortPoe, Error>),
    /// The unit ended abnormally, without a result; the text says how.
    Aborted(String),
}

/// An [`Outcome`] with its parts as their views.
pub enum OutcomeView {
    Finished(Result<PortPoeView, ErrorView>),
    Aborted(Seq<char>),
}

impl View for Outcome {
    type V = OutcomeView;

    open spec fn view(&self) -> OutcomeView {
        match self {
            Outcome::Finished(Ok(port)) => OutcomeView::Finished(Ok(port@)),
            Outcome::Finished(Err(error)) => OutcomeView::Finished(Err(error@)),
            Outcome::Aborted(reason) => OutcomeView::Aborted(reason@),
        }
    }
}

/// Why a bulk update as a whole failed.
#[derive(Debug)]
pub enum BulkError {
    /// A write failed.
    Api(Error),
    /// A unit of work ended abnormally.
    Coordination(String),
}

/// A [`BulkError`] with its parts as their views.
pub enum BulkErrorView {
    Api(ErrorView),
    Coordination(Seq<char>),
}

impl View for BulkError {
    type V = BulkErrorView;

    open spec fn view(&self) -> BulkErrorView {
        match self {
            BulkError::Api(error) => BulkErrorView::Api(error@),
            BulkError::Coordination(reason) => BulkErrorView::Coordination(reason@),
        }
    }
}

/// The outcomes of a vector, each by its view.
pub open spec fn outcome_views(outcomes: Seq<Outcome>) -> Seq<OutcomeView> {
    outcomes.map_values(|outcome: Outcome| outcome@)
}

impl OutcomeView {
    /// The failure that this outcome stands for, if it is one.
    pub open spec fn failure(self) -> Option<BulkErrorView> {
        match self {
            OutcomeView::Finished(Ok(_)) => None,
            OutcomeView::Finished(Err(error)) => Some(BulkErrorView::Api(error)),
            OutcomeView::Aborted(reason) => Some(BulkErrorView::Coordination(reason)),
        }
    }
}

/// Whether `ports` are the results of `outcomes`, one for one and in order,
/// every outcome being a successful write.
pub open spec fn all_succeeded(outcomes: Seq<OutcomeView>, ports: Seq<PortPoeView>) -> bool {
    &&& ports.len() == outcomes.len()
    &&& forall|i: int|
        0 <= i < outcomes.len() ==> #[trigger] outcomes[i] == OutcomeView::Finished(
            Ok::<PortPoeView, ErrorView>(ports[i]),
        )
}

/// Whether `error` is the failure of the first outcome that is one.
pub open spec fn first_failure(outcomes: Seq<OutcomeView>, error: BulkErrorView) -> bool {
    exists|at: int|
        0 <= at < outcomes.len() && (#[trigger] outcomes[at]).failure() == Some(error) && forall|
            i: int,
        |
            0 <= i < at ==> (#[trigger] outcomes[i]).failure() is None
}

/// Adds up the outcomes of a bulk update, given in the order in which the
/// units of work were joined. The update succeeds only if every unit did, and
/// then yields every result in that order. Otherwise it yields no result, and
/// fails as the first unit that failed.
pub fn collect(outcomes: Vec<Outcome>) -> (collected: Result<Vec<PortPoe>, BulkError>)
    ensures
        match collected {
            Ok(ports) => all_succeeded(outcome_views(outcomes@), port_views(ports@)),
            Err(error) => first_failure(outcome_views(outcomes@), error@),
        },
        collected is Ok <==> forall|i: int|
            0 <= i < outcomes.len() ==> (#[trigger] outcome_views(outcomes@)[i]).failure() is None,
{
    let ghost all = outcome_views(outcomes@);
    let mut rest = outcomes;
    let mut ports: Vec<PortPoe> = Vec::new();
    let mut failed: Option<BulkError> = None;
    while rest.len() > 0
        invariant
            rest.len() <= all.len(),
            outcome_views(rest@) == all.take(rest.len() as int),
            match failed {
                Some(error) => exists|at: int|
                    rest.len() <= at < all.len() && (#[trigger] all[at]).failure() == Some(error@)
                        && forall|i: int|
                        rest.len() <= i < at ==> (#[trigger] all[i]).failure() is None,
                None => ports.len() == all.len() - rest.len() && forall|i: int|
                    rest.len() <= i < all.len() ==> #[trigger] all[i] == OutcomeView::Finished(
                        Ok::<PortPoeView, ErrorView>(ports[all.len() - 1 - i]@),
                    ),
            },
        decreases rest.len(),
    {
        let ghost before = rest@;
        let ghost at = rest.len() - 1;
        let outcome = rest.pop().unwrap();
        proof {
            assert(outcome@ == outcome_views(before)[at]);
            assert(outcome_views(rest@) =~= all.take(rest.len() as int));
        }
        match outcome {
            Outcome::Finished(Ok(port)) => {
                if failed.is_none() {
                    ports.push(port);
                }
            },
            Outcome::Finished(Err(error)) => {
                failed = Some(BulkError::Api(error));
            },
            Outcome::Aborted(reason) => {
                failed = Some(BulkError::Coordination(reason));
            },
        }
    }
    match failed {
        Some(error) => Err(error),
        None => {
            let ordered = reversed(ports);
            assert(all_succeeded(all, port_views(ordered@)));
            Ok(ordered)
        },
    }
}

/// The same ports, last first.
fn reversed(ports: Vec<PortPoe>) -> (turned: Vec<PortPoe>)
    ensures
        turned.len() == ports.len(),
        forall|i: int| 0 <= i < ports.len() ==> #[trigger] turned[i] == ports[ports.len() - 1 - i],
{
    let ghost all = ports@;
    let mut rest = ports;
    let mut turned: Vec<PortPoe> = Vec::new();
    while rest.len() > 0
        invariant
            rest@ == all.take(rest.len() as int),
            turned.len() == all.len() - rest.len(),
            forall|i: int| 0 <= i < turned.len() ==> #[trigger] turned[i] == all[all.len() - 1 - i],
        decreases rest.len(),
    {
        let port = rest.pop().unwrap();
        turned.push(port);
        assert(rest@ =~= all.take(rest.len() as int));
    }
    turned
}

/// What a bulk update yields is fixed by the outcomes of its units: either
/// all of their results, as many as there are units, or one failure, never
/// both, and never two different ones.
pub proof fn lemma_all_or_nothing(
    outcomes: Seq<OutcomeView>,
    ports: Seq<PortPoeView>,
    other_ports: Seq<PortPoeView>,
    error: BulkErrorView,
    other_error: BulkErrorView,
)
    ensures
        all_succeeded(outcomes, ports) ==> ports.len() == outcomes.len() && !first_failure(
            outcomes,
            error,
        ),
        all_succeeded(outcomes, ports) && all_succeeded(outcomes, other_ports) ==> ports
            == other_ports,
        first_failure(outcomes, error) && first_failure(outcomes, other_error) ==> error
            == other_error,
{
    if all_succeeded(outcomes, ports) && all_succeeded(outcomes, other_ports) {
        assert forall|i: int| 0 <= i < ports.len() implies ports[i] == other_ports[i] by {
            assert(outcomes[i] == OutcomeView::Finished(Ok::<PortPoeView, ErrorView>(ports[i])));
        }
        assert(ports =~= other_ports);
    }
    if first_failure(outcomes, error) && first_failure(outcomes, other_error) {
        let at = choose|at: int|
            0 <= at < outcomes.len() && (#[trigger] outcomes[at]).failure() == Some(error)
                && forall|i: int| 0 <= i < at ==> (#[trigger] outcomes[i]).failure() is None;
        let other_at = choose|at: int|
            0 <= at < outcomes.len() && (#[trigger] outcomes[at]).failure() == Some(other_error)
                && forall|i: int| 0 <= i < at ==> (#[trigger] outcomes[i]).failure() is None;
        assert(at == other_at);
    }
}

} // verus!
