//! One pass over one server: is it up, what has it finished, and what came of
//! moving each of those downloads.
//!
//! The reconciler sends nothing itself. It says which request comes next,
//! takes in the answer, opens one job for each listed download and, once the
//! jobs have run, gathers what failed. The jobs are independent of each
//! other: each is opened for its own download and run on its own.

use crate::config::ServerConfig;
use crate::torrent::{
    lemma_no_categories_no_action, move_and_clean_torrent_files, opened_job, ClientError, JobEvent,
    JobPhase, JobView, Outcome, Torrent, TorrentClient, TorrentError, TorrentJob,
};
use vstd::prelude::*;

verus! {

/// One thing that went wrong in a pass over a server. None of them ends the
/// pass over the other servers or the handling of the other downloads.
#[derive(Debug, Clone, Copy, PartialEq, Eq, Structural)]
pub enum ReconcileError {
    /// The server could not be asked whether it is up.
    OnlineCheck(ClientError),
    /// The list of finished downloads could not be had.
    Listing(ClientError),
    /// The download at `index` of the list was not dealt with to the end.
    Torrent { index: usize, error: TorrentError },
}

/// How far a pass over a server has come.
#[derive(Debug, Clone, Copy, PartialEq, Eq, Structural)]
pub enum ServerPhase {
    CheckingOnline,
    Listing,
    Relocating,
    Finished,
}

/// What a pass over a server waits for.
#[derive(Debug, Clone, Copy, PartialEq, Eq, Structural)]
pub enum ServerStep {
    /// Ask the server whether it is up.
    CheckOnline,
    /// Ask the server for its finished downloads.
    ListCompleted,
    /// Run the jobs that were opened, each to its end.
    RunJobs,
}

/// The answer to what a pass waited for.
#[derive(Debug)]
pub enum ServerEvent {
    /// Whether the server answered with success, or why it was not reached.
    OnlineChecked(Result<bool, ClientError>),
    /// The finished downloads, or why there is no list.
    Listed(Result<Vec<Torrent>, ClientError>),
    /// How each job ended, in the order of the list.
    JobsFinished(Vec<Outcome>),
}

/// The jobs that are opened for a list of downloads: one for each, and each
/// the job that its download would get alone.
pub open spec fn opened_jobs(server: ServerConfig, torrents: Seq<Torrent>) -> Seq<JobView> {
    Seq::new(torrents.len(), |i: int| opened_job(server, torrents[i]))
}

/// The record that the download at `index` failed with `error`.
pub open spec fn failure_at(index: usize, error: TorrentError) -> ReconcileError {
    ReconcileError::Torrent { index, error }
}

/// The failures among `outcomes`, in their order, each with the place of its
/// download in the list.
pub open spec fn failures(outcomes: Seq<Outcome>) -> Seq<ReconcileError>
    decreases outcomes.len(),
{
    if outcomes.len() == 0 {
        Seq::empty()
    } else {
        let earlier = failures(outcomes.drop_last());
        match outcomes.last() {
            Outcome::Failed(error) => earlier.push(
                ReconcileError::Torrent { index: (outcomes.len() - 1) as usize, error },
            ),
            _ => earlier,
        }
    }
}

/// The views of a list of jobs.
pub open spec fn job_views(jobs: Seq<TorrentJob>) -> Seq<JobView> {
    Seq::new(jobs.len(), |i: int| jobs[i]@)
}

/// What a reconciler is, with its jobs as views.
pub struct ServerView {
    pub server: ServerConfig,
    pub phase: ServerPhase,
    pub jobs: Seq<JobView>,
    pub errors: Seq<ReconcileError>,
}

impl ServerView {
    /// The step the pass waits for; none once it is finished.
    pub open spec fn awaited(self) -> Option<ServerStep> {
        match self.phase {
            ServerPhase::CheckingOnline => Some(ServerStep::CheckOnline),
            ServerPhase::Listing => Some(ServerStep::ListCompleted),
            ServerPhase::Relocating => Some(ServerStep::RunJobs),
            ServerPhase::Finished => None,
        }
    }

    /// The pass after `event`. A server that is down or cannot be reached
    /// is left alone for this pass, and so is one whose list cannot be had.
    /// An event that does not answer the step the pass waits for changes
    /// nothing.
    pub open spec fn next(self, event: ServerEvent) -> ServerView {
        match (self.phase, event) {
            (ServerPhase::CheckingOnline, ServerEvent::OnlineChecked(Ok(online))) => ServerView {
                phase: if online {
                    ServerPhase::Listing
                } else {
                    ServerPhase::Finished
                },
                ..self
            },
            (ServerPhase::CheckingOnline, ServerEvent::OnlineChecked(Err(error))) => ServerView {
                phase: ServerPhase::Finished,
                errors: seq![ReconcileError::OnlineCheck(error)],
                ..self
            },
            (ServerPhase::Listing, ServerEvent::Listed(Ok(torrents))) => ServerView {
                phase: ServerPhase::Relocating,
                jobs: opened_jobs(self.server, torrents@),
                ..self
            },
            (ServerPhase::Listing, ServerEvent::Listed(Err(error))) => ServerView {
                phase: ServerPhase::Finished,
                errors: seq![ReconcileError::Listing(error)],
                ..self
            },
            (ServerPhase::Relocating, ServerEvent::JobsFinished(outcomes)) => ServerView {
                phase: ServerPhase::Finished,
                errors: failures(outcomes@),
                ..self
            },
            _ => self,
        }
    }
}

impl ServerPhase {
    /// Number of steps a pass in this phase may still ask for, at most.
    pub open spec fn steps_left(self) -> nat {
        match self {
            ServerPhase::CheckingOnline => 3,
            ServerPhase::Listing => 2,
            ServerPhase::Relocating => 1,
            ServerPhase::Finished => 0,
        }
    }
}

impl ServerEvent {
    /// Whether the event is the answer to `step`.
    pub open spec fn answers(self, step: ServerStep) -> bool {
        match (step, self) {
            (ServerStep::CheckOnline, ServerEvent::OnlineChecked(_)) => true,
            (ServerStep::ListCompleted, ServerEvent::Listed(_)) => true,
            (ServerStep::RunJobs, ServerEvent::JobsFinished(_)) => true,
            _ => false,
        }
    }
}

/// What went wrong in a pass over a server that did not go through cleanly.
#[derive(Debug)]
pub struct AggregateError {
    pub errors: Vec<ReconcileError>,
}

/// The pass over one server.
#[derive(Debug)]
pub struct ServerReconciler {
    client: TorrentClient,
    phase: ServerPhase,
    jobs: Vec<TorrentJob>,
    errors: Vec<ReconcileError>,
}

impl View for ServerReconciler {
    type V = ServerView;

    closed spec fn view(&self) -> ServerView {
        ServerView {
            server: self.client.profile(),
            phase: self.phase,
            jobs: job_views(self.jobs@),
            errors: self.errors@,
        }
    }
}

/// Gathers the failures among `outcomes`.
fn collect_failures(outcomes: &Vec<Outcome>) -> (errors: Vec<ReconcileError>)
    ensures
        errors@ == failures(outcomes@),
{
    let mut errors: Vec<ReconcileError> = Vec::new();
    let mut i: usize = 0;
    while i < outcomes.len()
        invariant
            i <= outcomes.len(),
            errors@ == failures(outcomes@.take(i as int)),
        decreases outcomes.len() - i,
    {
        assert(outcomes@.take(i + 1).drop_last() =~= outcomes@.take(i as int));
        match outcomes[i] {
            Outcome::Failed(error) => {
                errors.push(ReconcileError::Torrent { index: i, error });
            },
            _ => {},
        }
        i += 1;
    }
    assert(outcomes@.take(i as int) =~= outcomes@);
    errors
}

impl ServerReconciler {
    /// A pass over `server` that has not asked anything yet.
    pub fn new(server: ServerConfig) -> (reconciler: Self)
        ensures
            reconciler@ == (ServerView {
                server,
                phase: ServerPhase::CheckingOnline,
                jobs: Seq::empty(),
                errors: Seq::empty(),
            }),
    {
        let reconciler = ServerReconciler {
            client: TorrentClient::new(server),
            phase: ServerPhase::CheckingOnline,
            jobs: Vec::new(),
            errors: Vec::new(),
        };
        assert(job_views(reconciler.jobs@) =~= Seq::empty());
        reconciler
    }

    /// The client that says how the server is asked.
    pub fn client(&self) -> (client: &TorrentClient)
        ensures
            client.profile() == self@.server,
    {
        &self.client
    }

    /// What is to be done now; nothing once the pass is finished.
    pub fn pending(&self) -> (step: Option<ServerStep>)
        ensures
            step == self@.awaited(),
    {
        match self.phase {
            ServerPhase::CheckingOnline => Some(ServerStep::CheckOnline),
            ServerPhase::Listing => Some(ServerStep::ListCompleted),
            ServerPhase::Relocating => Some(ServerStep::RunJobs),
            ServerPhase::Finished => None,
        }
    }

    /// The jobs of the pass, one for each listed download and in the order
    /// of the list.
    pub fn jobs(&self) -> (jobs: &Vec<TorrentJob>)
        ensures
            job_views(jobs@) == self@.jobs,
    {
        &self.jobs
    }

    /// What went wrong so far.
    pub fn errors(&self) -> (errors: &Vec<ReconcileError>)
        ensures
            errors@ == self@.errors,
    {
        &self.errors
    }

    /// Opens the job of each download of `torrents`.
    fn open_jobs(&self, torrents: &Vec<Torrent>) -> (jobs: Vec<TorrentJob>)
        ensures
            job_views(jobs@) == opened_jobs(self@.server, torrents@),
    {
        let mut jobs: Vec<TorrentJob> = Vec::new();
        let mut i: usize = 0;
        while i < torrents.len()
            invariant
                i <= torrents.len(),
                jobs.len() == i,
                forall|j: int|
                    0 <= j < i ==> (#[trigger] jobs[j])@ == opened_job(
                        self.client.profile(),
                        torrents[j],
                    ),
            decreases torrents.len() - i,
        {
            jobs.push(move_and_clean_torrent_files(&self.client, &torrents[i]));
            i += 1;
        }
        jobs
    }

    /// Takes in the answer to the pending step.
    pub fn step(&mut self, event: ServerEvent)
        ensures
            final(self)@ == old(self)@.next(event),
    {
        match self.phase {
            ServerPhase::CheckingOnline => match event {
                ServerEvent::OnlineChecked(Ok(online)) => {
                    if online {
                        self.phase = ServerPhase::Listing;
                    } else {
                        self.phase = ServerPhase::Finished;
                    }
                },
                ServerEvent::OnlineChecked(Err(error)) => {
                    let mut errors: Vec<ReconcileError> = Vec::new();
                    errors.push(ReconcileError::OnlineCheck(error));
                    self.errors = errors;
                    self.phase = ServerPhase::Finished;
                },
                _ => {},
            },
            ServerPhase::Listing => match event {
                ServerEvent::Listed(Ok(torrents)) => {
                    let jobs = self.open_jobs(&torrents);
                    self.jobs = jobs;
                    self.phase = ServerPhase::Relocating;
                },
                ServerEvent::Listed(Err(error)) => {
                    let mut errors: Vec<ReconcileError> = Vec::new();
                    errors.push(ReconcileError::Listing(error));
                    self.errors = errors;
                    self.phase = ServerPhase::Finished;
                },
                _ => {},
            },
            ServerPhase::Relocating => match event {
                ServerEvent::JobsFinished(outcomes) => {
                    self.errors = collect_failures(&outcomes);
                    self.phase = ServerPhase::Finished;
                },
                _ => {},
            },
            ServerPhase::Finished => {},
        }
    }

    /// Whether the pass went through cleanly: nothing where nothing went
    /// wrong so far, and else all that did.
    pub fn into_result(self) -> (result: Result<(), AggregateError>)
        ensures
            match result {
                Ok(_) => self@.errors.len() == 0,
                Err(aggregate) => self@.errors.len() > 0 && aggregate.errors@ == self@.errors,
            },
    {
        if self.errors.len() == 0 {
            Ok(())
        } else {
            Err(AggregateError { errors: self.errors })
        }
    }
}

/// The list of failures holds the failure of a download under the place of
/// that download, and holds nothing else: a download is listed there if and
/// only if its own job failed, and with the error of that job.
pub proof fn lemma_failures_are_exact(outcomes: Seq<Outcome>, index: usize, error: TorrentError)
    requires
        outcomes.len() <= usize::MAX,
    ensures
        failures(outcomes).contains(failure_at(index, error)) <==> (index < outcomes.len()
            && outcomes[index as int] == Outcome::Failed(error)),
    decreases outcomes.len(),
{
    if outcomes.len() > 0 {
        let earlier = failures(outcomes.drop_last());
        lemma_failures_are_exact(outcomes.drop_last(), index, error);
        match outcomes.last() {
            Outcome::Failed(last_error) => {
                let added = ReconcileError::Torrent {
                    index: (outcomes.len() - 1) as usize,
                    error: last_error,
                };
                assert(failures(outcomes) == earlier.push(added));
                assert(earlier.push(added).last() == added);
                assert forall|e: ReconcileError|
                    earlier.push(added).contains(e) <==> (earlier.contains(e) || e == added) by {
                    if earlier.push(added).contains(e) {
                        let k = choose|k: int|
                            0 <= k < earlier.push(added).len() && earlier.push(added)[k] == e;
                        if k < earlier.len() {
                            assert(earlier[k] == e);
                        }
                    }
                    if earlier.contains(e) {
                        let k = choose|k: int| 0 <= k < earlier.len() && earlier[k] == e;
                        assert(earlier.push(added)[k] == e);
                    }
                    if e == added {
                        assert(earlier.push(added)[earlier.len() as int] == e);
                    }
                }
            },
            _ => {},
        }
    }
}

/// One download that fails does not keep the others of the same list from
/// being moved. The job of each download is the one it would get alone,
/// whatever else is listed, and a failure is put down under the place of the
/// download that failed and under no other: what is reported of a sibling is
/// how its own job ended.
pub proof fn lemma_failure_spares_siblings(
    server: ServerConfig,
    torrents: Seq<Torrent>,
    other: Torrent,
    outcomes: Seq<Outcome>,
    failed: usize,
    sibling: usize,
    error: TorrentError,
)
    requires
        failed < torrents.len(),
        sibling < torrents.len(),
        failed != sibling,
        outcomes.len() == torrents.len(),
        torrents.len() <= usize::MAX,
        outcomes[failed as int] == Outcome::Failed(error),
    ensures
        opened_jobs(server, torrents)[sibling as int] == opened_job(
            server,
            torrents[sibling as int],
        ),
        opened_jobs(server, torrents.update(failed as int, other))[sibling as int] == opened_jobs(
            server,
            torrents,
        )[sibling as int],
        failures(outcomes).contains(failure_at(failed, error)),
        forall|e: TorrentError|
            failures(outcomes).contains(#[trigger] failure_at(sibling, e))
                <==> outcomes[sibling as int] == Outcome::Failed(e),
{
    lemma_failures_are_exact(outcomes, failed, error);
    assert forall|e: TorrentError|
        failures(outcomes).contains(#[trigger] failure_at(sibling, e)) <==> outcomes[sibling as int]
            == Outcome::Failed(e) by {
        lemma_failures_are_exact(outcomes, sibling, e);
    }
}

/// On a server without any category every job is finished when it is opened
/// and asks for nothing, whatever the server lists and whatever is reported
/// to the job.
pub proof fn lemma_no_categories_nothing_to_run(
    server: ServerConfig,
    torrents: Seq<Torrent>,
    index: int,
    events: Seq<JobEvent>,
)
    requires
        server.categories@ == Map::<Seq<char>, Seq<char>>::empty(),
        0 <= index < torrents.len(),
    ensures
        opened_jobs(server, torrents)[index].run(events).phase == JobPhase::Finished(
            Outcome::Skipped,
        ),
        opened_jobs(server, torrents)[index].run(events).awaited() is None,
{
    lemma_no_categories_no_action(server, torrents[index], events);
}

/// A server that cannot be reached is left alone for the pass: it is not
/// asked for its downloads, no job is opened, and the one thing reported is
/// that it was not reached.
pub proof fn lemma_unreachable_server_is_left_alone(server: ServerConfig, error: ClientError)
    ensures
        ({
            let fresh = ServerView {
                server,
                phase: ServerPhase::CheckingOnline,
                jobs: Seq::empty(),
                errors: Seq::empty(),
            };
            let after = fresh.next(ServerEvent::OnlineChecked(Err(error)));
            &&& after.awaited() is None
            &&& after.jobs.len() == 0
            &&& after.errors == seq![ReconcileError::OnlineCheck(error)]
        }),
{
}

/// A pass comes to its end: each answer to the step it asks for brings it
/// nearer, and it asks for three steps at most.
pub proof fn lemma_answer_brings_pass_on(pass: ServerView, event: ServerEvent)
    requires
        pass.awaited() matches Some(step) && event.answers(step),
    ensures
        pass.next(event).phase.steps_left() < pass.phase.steps_left(),
        pass.phase.steps_left() <= 3,
{
}

} // verus!
