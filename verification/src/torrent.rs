//! One server's client and the handling of one finished download.
//!
//! Nothing here touches the network or the disk. The client says which
//! requests are to be sent; a job says, step by step, what is to be done for
//! one download, and takes in what came of it.

use crate::config::ServerConfig;
use crate::paths::{
    compute_destination, compute_source, destination_path, source_path, text_of,
    PathPrefixMismatch,
};
use crate::relocate::{
    relocate_result, CopyKind, FileEvent, FileStep, RelocateError, Relocation, SourceKind,
};
use vstd::prelude::*;
use vstd::string::StringExecFns;

verus! {

/// A finished download as a server lists it.
#[derive(Debug)]
pub struct Torrent {
    /// Directory of the download as the server sees it.
    pub save_path: String,
    /// Name of the file or directory inside `save_path`.
    pub name: String,
    pub category: String,
    /// What the server knows the download by.
    pub hash: String,
}

impl Clone for Torrent {
    fn clone(&self) -> (copy: Self)
        ensures
            copy == *self,
    {
        Torrent {
            save_path: self.save_path.clone(),
            name: self.name.clone(),
            category: self.category.clone(),
            hash: self.hash.clone(),
        }
    }
}

/// Why a request to a server came to nothing.
#[derive(Debug, Clone, Copy, PartialEq, Eq, Structural)]
pub enum ClientError {
    /// The server was not reached or the request failed on the way.
    Transport,
    /// The server answered with something that is no list of downloads.
    Decode,
}

#[derive(Debug, Clone, Copy, PartialEq, Eq, Structural)]
pub enum Method {
    Get,
    Delete,
}

/// Seconds after which a request that got no answer is given up, so that a
/// server that hangs cannot hold up a pass for good.
pub const REQUEST_TIMEOUT: u64 = 30;

/// A request to a server, with the credentials it is sent with. It is sent
/// once; whether to ask again is decided by the next pass.
#[derive(Debug)]
pub struct Request {
    pub method: Method,
    pub url: String,
    /// Name and password, sent along by the basic scheme of HTTP.
    pub username: String,
    pub password: String,
    /// Seconds to wait for the answer.
    pub timeout: u64,
}

/// `request` asks `server` for `url` by `method`, with the server's own
/// credentials and the common timeout.
pub open spec fn is_request_to(
    request: Request,
    server: ServerConfig,
    method: Method,
    url: Seq<char>,
) -> bool {
    &&& request.method == method
    &&& request.url@ == url
    &&& request.username@ == server.username@
    &&& request.password@ == server.password@
    &&& request.timeout == REQUEST_TIMEOUT
}

/// The client of one server. It holds the server's settings and never
/// changes; every task may have a copy of its own.
#[derive(Debug)]
pub struct TorrentClient {
    server: ServerConfig,
}

impl Clone for TorrentClient {
    fn clone(&self) -> (copy: Self)
        ensures
            copy.profile().same_as(&self.profile()),
    {
        TorrentClient { server: self.server.clone() }
    }
}

impl TorrentClient {
    /// The settings of the server this client talks to.
    pub closed spec fn profile(&self) -> ServerConfig {
        self.server
    }

    pub fn new(server: ServerConfig) -> (client: Self)
        ensures
            client.profile() == server,
    {
        TorrentClient { server }
    }

    pub fn server(&self) -> (server: &ServerConfig)
        ensures
            *server == self.profile(),
    {
        &self.server
    }

    /// A request for `url` with the server's credentials.
    fn make_request(&self, url: String, method: Method) -> (request: Request)
        ensures
            is_request_to(request, self.profile(), method, url@),
    {
        Request {
            method,
            url,
            username: self.server.username.clone(),
            password: self.server.password.clone(),
            timeout: REQUEST_TIMEOUT,
        }
    }

    /// The request that shows whether the server is up: it asks for the
    /// version of the application.
    pub fn version_request(&self) -> (request: Request)
        ensures
            is_request_to(
                request,
                self.profile(),
                Method::Get,
                self.profile().qbit_url@ + "/api/v2/app/version"@,
            ),
    {
        let url = self.server.qbit_url.clone().concat("/api/v2/app/version");
        self.make_request(url, Method::Get)
    }

    /// The request that lists the finished downloads.
    pub fn completed_request(&self) -> (request: Request)
        ensures
            is_request_to(
                request,
                self.profile(),
                Method::Get,
                self.profile().qbit_url@ + "/api/v2/torrents/info?filter=completed"@,
            ),
    {
        let url = self.server.qbit_url.clone().concat("/api/v2/torrents/info?filter=completed");
        self.make_request(url, Method::Get)
    }

    /// The request that makes the server forget the download `hash`. The
    /// hash is put into the address as it is.
    pub fn removal_request(&self, hash: &str) -> (request: Request)
        ensures
            is_request_to(
                request,
                self.profile(),
                Method::Delete,
                self.profile().qbit_url@ + "/api/v2/torrents/delete?hashes="@ + hash@,
            ),
    {
        let url = self.server.qbit_url.clone().concat("/api/v2/torrents/delete?hashes=").concat(
            hash,
        );
        self.make_request(url, Method::Delete)
    }
}

/// Whether a status code of HTTP reports success: the codes from 200 to 299
/// do.
pub open spec fn is_success_status(status: u16) -> bool {
    200 <= status && status <= 299
}

/// Tells from the answer to the version request whether the server is up:
/// it is where it answered with a status of success. That the server could
/// not be asked is handed on as it is.
pub fn is_server_online(answer: Result<u16, ClientError>) -> (online: Result<bool, ClientError>)
    ensures
        online == match answer {
            Ok(status) => Ok::<bool, ClientError>(is_success_status(status)),
            Err(error) => Err(error),
        },
{
    match answer {
        Ok(status) => Ok(200 <= status && status <= 299),
        Err(error) => Err(error),
    }
}

/// Tells from the answer to the list request which downloads are finished.
/// `answer` holds the list where the body of the answer was one, and nothing
/// where the server answered with something else: that is an error of its
/// own, and never taken for an empty list.
pub fn get_completed_torrents(answer: Result<Option<Vec<Torrent>>, ClientError>) -> (listed: Result<
    Vec<Torrent>,
    ClientError,
>)
    ensures
        listed == match answer {
            Ok(Some(torrents)) => Ok::<Vec<Torrent>, ClientError>(torrents),
            Ok(None) => Err(ClientError::Decode),
            Err(error) => Err(error),
        },
{
    match answer {
        Ok(Some(torrents)) => Ok(torrents),
        Ok(None) => Err(ClientError::Decode),
        Err(error) => Err(error),
    }
}

/// Tells from the answer to the removal request whether the server was asked
/// to forget the download: it was where it answered at all, with whatever
/// status.
pub fn remove_torrent(answer: Result<u16, ClientError>) -> (removed: Result<(), ClientError>)
    ensures
        removed == match answer {
            Ok(_) => Ok::<(), ClientError>(()),
            Err(error) => Err(error),
        },
{
    match answer {
        Ok(_) => Ok(()),
        Err(error) => Err(error),
    }
}

/// From where to where a download is moved.
#[derive(Debug)]
pub struct RelocationPlan {
    pub source: String,
    pub destination: String,
}

/// What is to be done with `torrent` on `server`: nothing where its category
/// has no directory; else the move from its local path to that directory, or
/// the report that the local path cannot be told.
pub open spec fn relocation_plan(server: ServerConfig, torrent: Torrent) -> Option<
    Result<(Seq<char>, Seq<char>), PathPrefixMismatch>,
> {
    match destination_path(torrent.category@, torrent.name@, server.categories@) {
        None => None,
        Some(destination) => match source_path(
            torrent.save_path@,
            torrent.name@,
            text_of(server.root_path),
            text_of(server.path_prefix),
        ) {
            None => Some(Err(PathPrefixMismatch)),
            Some(source) => Some(Ok((source, destination))),
        },
    }
}

/// The characters of what `plan_relocation` returns.
pub open spec fn plan_text(planned: Option<Result<RelocationPlan, PathPrefixMismatch>>) -> Option<
    Result<(Seq<char>, Seq<char>), PathPrefixMismatch>,
> {
    match planned {
        None => None,
        Some(Err(mismatch)) => Some(Err(mismatch)),
        Some(Ok(plan)) => Some(Ok((plan.source@, plan.destination@))),
    }
}

/// Plans the move of one download. The category is looked up first: a
/// download without a directory is left alone whatever its path is.
pub fn plan_relocation(server: &ServerConfig, torrent: &Torrent) -> (planned: Option<
    Result<RelocationPlan, PathPrefixMismatch>,
>)
    ensures
        plan_text(planned) == relocation_plan(*server, *torrent),
{
    match compute_destination(
        torrent.category.as_str(),
        torrent.name.as_str(),
        &server.categories,
    ) {
        None => None,
        Some(destination) => match compute_source(
            torrent.save_path.as_str(),
            torrent.name.as_str(),
            &server.root_path,
            &server.path_prefix,
        ) {
            Err(mismatch) => Some(Err(mismatch)),
            Ok(source) => Some(Ok(RelocationPlan { source, destination })),
        },
    }
}

/// Why a download was not dealt with to the end.
#[derive(Debug, Clone, Copy, PartialEq, Eq, Structural)]
pub enum TorrentError {
    /// Its local path cannot be told; nothing was touched.
    PathPrefixMismatch,
    /// It was not moved, or not wholly.
    Relocate(RelocateError),
    /// It was moved, and the server could not be made to forget it: the
    /// server goes on listing a download that is no longer where it says.
    RemoteDelete(ClientError),
}

/// How the handling of one download ended.
#[derive(Debug, Clone, Copy, PartialEq, Eq, Structural)]
pub enum Outcome {
    /// Its category has no directory: it was left where it is, and the
    /// server was not asked to forget it.
    Skipped,
    /// It was moved and the server has forgotten it.
    Relocated,
    Failed(TorrentError),
}

/// How far the handling of one download has come.
#[derive(Debug, Clone, Copy, PartialEq, Eq, Structural)]
pub enum JobPhase {
    /// The data is being moved.
    Moving(Relocation),
    /// The data is moved, and the server is being asked to forget the
    /// download.
    Deleting,
    Finished(Outcome),
}

/// What came of the action a job waited for.
#[derive(Debug, Clone, Copy, PartialEq, Eq)]
pub enum JobEvent {
    File(FileEvent),
    RemoteDeleted(Result<(), ClientError>),
}

/// What is to be done next for a download.
#[derive(Debug, PartialEq, Eq)]
pub enum Action {
    /// Find out what lies at `source` and whether `destination` exists.
    Probe { source: String, destination: String },
    /// Copy `source` to `destination`.
    Copy { kind: CopyKind, source: String, destination: String },
    /// Delete `source`.
    Remove { kind: CopyKind, source: String },
    /// Ask the server to forget the download `hash`.
    DeleteRemote { hash: String },
}

/// An `Action` with its paths as sequences of characters.
pub enum ActionView {
    Probe { source: Seq<char>, destination: Seq<char> },
    Copy { kind: CopyKind, source: Seq<char>, destination: Seq<char> },
    Remove { kind: CopyKind, source: Seq<char> },
    DeleteRemote { hash: Seq<char> },
}

impl View for Action {
    type V = ActionView;

    open spec fn view(&self) -> ActionView {
        match *self {
            Action::Probe { source, destination } => ActionView::Probe {
                source: source@,
                destination: destination@,
            },
            Action::Copy { kind, source, destination } => ActionView::Copy {
                kind,
                source: source@,
                destination: destination@,
            },
            Action::Remove { kind, source } => ActionView::Remove { kind, source: source@ },
            Action::DeleteRemote { hash } => ActionView::DeleteRemote { hash: hash@ },
        }
    }
}

/// Where a job stands for the one who serves it: it asks for an action, or
/// it has ended.
#[derive(Debug, PartialEq, Eq)]
pub enum JobStatus {
    Asks(Action),
    Ended(Outcome),
}

/// The view of an action that may be absent.
pub open spec fn action_text(action: Option<Action>) -> Option<ActionView> {
    match action {
        Some(a) => Some(a@),
        None => None,
    }
}

impl JobPhase {
    /// Where a job stands once its relocation is in the state `relocation`:
    /// a finished move leads on to the server, a failed one ends the job.
    pub open spec fn of_relocation(relocation: Relocation) -> JobPhase {
        match relocation {
            Relocation::Moved => JobPhase::Deleting,
            Relocation::Failed(error) => JobPhase::Finished(
                Outcome::Failed(TorrentError::Relocate(error)),
            ),
            _ => JobPhase::Moving(relocation),
        }
    }

    /// The phase after `event`. An event that does not answer the action the
    /// job waits for changes nothing.
    pub open spec fn next(self, event: JobEvent) -> JobPhase {
        match (self, event) {
            (JobPhase::Moving(relocation), JobEvent::File(file_event)) => JobPhase::of_relocation(
                relocation.next(file_event),
            ),
            (JobPhase::Deleting, JobEvent::RemoteDeleted(Ok(_))) => JobPhase::Finished(
                Outcome::Relocated,
            ),
            (JobPhase::Deleting, JobEvent::RemoteDeleted(Err(error))) => JobPhase::Finished(
                Outcome::Failed(TorrentError::RemoteDelete(error)),
            ),
            _ => self,
        }
    }

    /// The phase after all of `events`, taken in their order.
    pub open spec fn run(self, events: Seq<JobEvent>) -> JobPhase
        decreases events.len(),
    {
        if events.len() == 0 {
            self
        } else {
            self.next(events[0]).run(events.skip(1))
        }
    }

    /// A relocation that is over is never kept inside a job.
    pub open spec fn well_formed(self) -> bool {
        self matches JobPhase::Moving(relocation) ==> relocation.awaited().is_some()
    }

    /// Number of actions a job in this phase may still ask for, at most.
    pub open spec fn steps_left(self) -> nat {
        match self {
            JobPhase::Moving(Relocation::Probing) => 4,
            JobPhase::Moving(Relocation::Copying(_)) => 3,
            JobPhase::Moving(Relocation::Removing(_)) => 2,
            JobPhase::Deleting => 1,
            _ => 0,
        }
    }
}

impl JobEvent {
    /// Whether the event tells what came of `action`.
    pub open spec fn answers(self, action: ActionView) -> bool {
        match (action, self) {
            (ActionView::Probe { .. }, JobEvent::File(FileEvent::Probed { .. })) => true,
            (ActionView::Copy { .. }, JobEvent::File(FileEvent::Copied { .. })) => true,
            (ActionView::Remove { .. }, JobEvent::File(FileEvent::Removed { .. })) => true,
            (ActionView::DeleteRemote { .. }, JobEvent::RemoteDeleted(_)) => true,
            _ => false,
        }
    }
}

/// What a job is, with its texts as sequences of characters.
pub struct JobView {
    pub phase: JobPhase,
    pub source: Seq<char>,
    pub destination: Seq<char>,
    pub hash: Seq<char>,
}

impl JobView {
    /// The action the job waits for; none once it is finished.
    pub open spec fn awaited(self) -> Option<ActionView> {
        match self.phase {
            JobPhase::Moving(relocation) => match relocation.awaited() {
                Some(FileStep::Probe) => Some(
                    ActionView::Probe { source: self.source, destination: self.destination },
                ),
                Some(FileStep::Copy(kind)) => Some(
                    ActionView::Copy {
                        kind,
                        source: self.source,
                        destination: self.destination,
                    },
                ),
                Some(FileStep::Remove(kind)) => Some(
                    ActionView::Remove { kind, source: self.source },
                ),
                None => None,
            },
            JobPhase::Deleting => Some(ActionView::DeleteRemote { hash: self.hash }),
            JobPhase::Finished(_) => None,
        }
    }

    /// The job after `event`: only its phase changes.
    pub open spec fn next(self, event: JobEvent) -> JobView {
        JobView { phase: self.phase.next(event), ..self }
    }

    /// The job after all of `events`, taken in their order.
    pub open spec fn run(self, events: Seq<JobEvent>) -> JobView {
        JobView { phase: self.phase.run(events), ..self }
    }
}

/// How the handling of a download with a planned move ends, told from what
/// the file operations and the server would report.
pub open spec fn job_outcome(
    source: SourceKind,
    destination_exists: bool,
    copy_ok: bool,
    remove_ok: bool,
    deleted: Result<(), ClientError>,
) -> Outcome {
    match relocate_result(source, destination_exists, copy_ok, remove_ok) {
        Err(error) => Outcome::Failed(TorrentError::Relocate(error)),
        Ok(_) => match deleted {
            Ok(_) => Outcome::Relocated,
            Err(error) => Outcome::Failed(TorrentError::RemoteDelete(error)),
        },
    }
}

/// The job that is opened for `torrent` on `server`. It starts with a look
/// at the paths where a move is planned, and is finished at once where the
/// download is skipped or its local path cannot be told.
pub open spec fn opened_job(server: ServerConfig, torrent: Torrent) -> JobView {
    match relocation_plan(server, torrent) {
        None => JobView {
            phase: JobPhase::Finished(Outcome::Skipped),
            source: Seq::empty(),
            destination: Seq::empty(),
            hash: torrent.hash@,
        },
        Some(Err(_)) => JobView {
            phase: JobPhase::Finished(Outcome::Failed(TorrentError::PathPrefixMismatch)),
            source: Seq::empty(),
            destination: Seq::empty(),
            hash: torrent.hash@,
        },
        Some(Ok((source, destination))) => JobView {
            phase: JobPhase::Moving(Relocation::Probing),
            source,
            destination,
            hash: torrent.hash@,
        },
    }
}

/// The handling of one finished download: move its data, then make the
/// server forget it.
#[derive(Debug)]
pub struct TorrentJob {
    phase: JobPhase,
    source: String,
    destination: String,
    hash: String,
}

impl View for TorrentJob {
    type V = JobView;

    closed spec fn view(&self) -> JobView {
        JobView {
            phase: self.phase,
            source: self.source@,
            destination: self.destination@,
            hash: self.hash@,
        }
    }
}

impl Clone for TorrentJob {
    fn clone(&self) -> (copy: Self)
        ensures
            copy@ == self@,
    {
        proof {
            use_type_invariant(self);
        }
        TorrentJob {
            phase: self.phase,
            source: self.source.clone(),
            destination: self.destination.clone(),
            hash: self.hash.clone(),
        }
    }
}

impl TorrentJob {
    #[verifier::type_invariant]
    spec fn keeps_no_ended_relocation(&self) -> bool {
        self.phase.well_formed()
    }

    pub fn phase(&self) -> (phase: JobPhase)
        ensures
            phase == self@.phase,
    {
        self.phase
    }

    /// What the server knows the download by.
    pub fn hash(&self) -> (hash: &String)
        ensures
            hash@ == self@.hash,
    {
        &self.hash
    }

    /// How the job ended, once it has. A job has ended exactly when it asks
    /// for nothing more.
    pub fn outcome(&self) -> (outcome: Option<Outcome>)
        ensures
            outcome == match self@.phase {
                JobPhase::Finished(o) => Some(o),
                _ => None,
            },
            outcome is None <==> self@.awaited() is Some,
    {
        proof {
            use_type_invariant(self);
        }
        match self.phase {
            JobPhase::Finished(o) => Some(o),
            _ => None,
        }
    }

    /// The action to perform now; none once the job is finished.
    pub fn pending(&self) -> (action: Option<Action>)
        ensures
            action_text(action) == self@.awaited(),
    {
        match self.phase {
            JobPhase::Moving(relocation) => match relocation.pending() {
                Some(FileStep::Probe) => Some(
                    Action::Probe {
                        source: self.source.clone(),
                        destination: self.destination.clone(),
                    },
                ),
                Some(FileStep::Copy(kind)) => Some(
                    Action::Copy {
                        kind,
                        source: self.source.clone(),
                        destination: self.destination.clone(),
                    },
                ),
                Some(FileStep::Remove(kind)) => Some(
                    Action::Remove { kind, source: self.source.clone() },
                ),
                None => None,
            },
            JobPhase::Deleting => Some(Action::DeleteRemote { hash: self.hash.clone() }),
            JobPhase::Finished(_) => None,
        }
    }

    /// The action to perform now, or how the job ended.
    pub fn status(&self) -> (status: JobStatus)
        ensures
            match status {
                JobStatus::Asks(action) => self@.awaited() == Some(action@),
                JobStatus::Ended(outcome) => self@.phase == JobPhase::Finished(outcome),
            },
    {
        match self.outcome() {
            Some(outcome) => JobStatus::Ended(outcome),
            None => match self.pending() {
                Some(action) => JobStatus::Asks(action),
                None => vstd::pervasive::unreached(),
            },
        }
    }

    /// Takes in what came of the pending action.
    pub fn step(&mut self, event: JobEvent)
        ensures
            final(self)@ == old(self)@.next(event),
    {
        proof {
            use_type_invariant(&*self);
        }
        let after = match self.phase {
            JobPhase::Moving(relocation) => match event {
                JobEvent::File(file_event) => match relocation.step(file_event) {
                    Relocation::Moved => JobPhase::Deleting,
                    Relocation::Failed(error) => JobPhase::Finished(
                        Outcome::Failed(TorrentError::Relocate(error)),
                    ),
                    moving => JobPhase::Moving(moving),
                },
                _ => self.phase,
            },
            JobPhase::Deleting => match event {
                JobEvent::RemoteDeleted(Ok(_)) => JobPhase::Finished(Outcome::Relocated),
                JobEvent::RemoteDeleted(Err(error)) => JobPhase::Finished(
                    Outcome::Failed(TorrentError::RemoteDelete(error)),
                ),
                _ => self.phase,
            },
            JobPhase::Finished(_) => self.phase,
        };
        self.phase = after;
    }
}

/// Opens the handling of `torrent` for the server of `client`: looks up the
/// directory of its category and computes its local path. What is to be done
/// then is asked of the job.
pub fn move_and_clean_torrent_files(client: &TorrentClient, torrent: &Torrent) -> (job: TorrentJob)
    ensures
        job@ == opened_job(client.profile(), *torrent),
{
    match plan_relocation(client.server(), torrent) {
        None => TorrentJob {
            phase: JobPhase::Finished(Outcome::Skipped),
            source: String::new(),
            destination: String::new(),
            hash: torrent.hash.clone(),
        },
        Some(Err(_)) => TorrentJob {
            phase: JobPhase::Finished(Outcome::Failed(TorrentError::PathPrefixMismatch)),
            source: String::new(),
            destination: String::new(),
            hash: torrent.hash.clone(),
        },
        Some(Ok(plan)) => TorrentJob {
            phase: JobPhase::Moving(Relocation::Probing),
            source: plan.source,
            destination: plan.destination,
            hash: torrent.hash.clone(),
        },
    }
}

/// A finished job stays as it is, whatever is reported to it.
pub proof fn lemma_finished_is_final(phase: JobPhase, events: Seq<JobEvent>)
    requires
        phase is Finished,
    ensures
        phase.run(events) == phase,
    decreases events.len(),
{
    if events.len() > 0 {
        lemma_finished_is_final(phase, events.skip(1));
    }
}

/// A download whose category has no directory is skipped: its job is
/// finished when it is opened, and whatever is reported to it, it never asks
/// for a file to be touched or for the server to forget the download.
pub proof fn lemma_unmapped_category_is_skipped(
    server: ServerConfig,
    torrent: Torrent,
    events: Seq<JobEvent>,
)
    requires
        !server.categories@.contains_key(torrent.category@),
    ensures
        opened_job(server, torrent).phase == JobPhase::Finished(Outcome::Skipped),
        opened_job(server, torrent).run(events).phase == JobPhase::Finished(Outcome::Skipped),
        opened_job(server, torrent).run(events).awaited() is None,
{
    lemma_finished_is_final(JobPhase::Finished(Outcome::Skipped), events);
}

/// On a server without any category nothing is ever moved or deleted,
/// whatever downloads it lists.
pub proof fn lemma_no_categories_no_action(
    server: ServerConfig,
    torrent: Torrent,
    events: Seq<JobEvent>,
)
    requires
        server.categories@ == Map::<Seq<char>, Seq<char>>::empty(),
    ensures
        opened_job(server, torrent).run(events).phase == JobPhase::Finished(Outcome::Skipped),
        opened_job(server, torrent).run(events).awaited() is None,
{
    lemma_unmapped_category_is_skipped(server, torrent, events);
}

/// Jobs are opened well-formed and stay so.
pub proof fn lemma_well_formed_is_kept(server: ServerConfig, torrent: Torrent)
    ensures
        opened_job(server, torrent).phase.well_formed(),
        forall|phase: JobPhase, event: JobEvent|
            phase.well_formed() ==> (#[trigger] phase.next(event)).well_formed(),
{
}

/// The server is asked to forget a download only after its data was moved
/// wholly: a job comes to that request in no other way than by the
/// successful deletion of the source.
pub proof fn lemma_delete_follows_move(before: JobPhase, event: JobEvent)
    requires
        before.well_formed(),
        before.next(event) == JobPhase::Deleting,
        before != JobPhase::Deleting,
    ensures
        before matches JobPhase::Moving(Relocation::Removing(_)),
        event == JobEvent::File(FileEvent::Removed { ok: true }),
{
}

/// After a partial move the server is never asked to forget the download:
/// where the source could not be deleted the job ends there and then.
pub proof fn lemma_partial_move_keeps_remote(kind: CopyKind, events: Seq<JobEvent>)
    ensures
        JobPhase::Moving(Relocation::Removing(kind)).next(
            JobEvent::File(FileEvent::Removed { ok: false }),
        ).run(events) == JobPhase::Finished(
            Outcome::Failed(TorrentError::Relocate(RelocateError::PartialMove)),
        ),
{
    lemma_finished_is_final(
        JobPhase::Finished(Outcome::Failed(TorrentError::Relocate(RelocateError::PartialMove))),
        events,
    );
}

/// A job with a planned move that is told the results of probe, copy,
/// deletion and the server's answer in turn ends as `job_outcome` says.
pub proof fn lemma_job_verdict(
    source: SourceKind,
    destination_exists: bool,
    copy_ok: bool,
    remove_ok: bool,
    deleted: Result<(), ClientError>,
)
    ensures
        JobPhase::Moving(Relocation::Probing).run(
            seq![
                JobEvent::File(FileEvent::Probed { source, destination_exists }),
                JobEvent::File(FileEvent::Copied { ok: copy_ok }),
                JobEvent::File(FileEvent::Removed { ok: remove_ok }),
                JobEvent::RemoteDeleted(deleted),
            ],
        ) == JobPhase::Finished(
            job_outcome(source, destination_exists, copy_ok, remove_ok, deleted),
        ),
{
    let events = seq![
        JobEvent::File(FileEvent::Probed { source, destination_exists }),
        JobEvent::File(FileEvent::Copied { ok: copy_ok }),
        JobEvent::File(FileEvent::Removed { ok: remove_ok }),
        JobEvent::RemoteDeleted(deleted),
    ];
    let rest1 = events.skip(1);
    let rest2 = rest1.skip(1);
    let rest3 = rest2.skip(1);
    let rest4 = rest3.skip(1);
    let p0 = JobPhase::Moving(Relocation::Probing);
    let p1 = p0.next(events[0]);
    let p2 = p1.next(events[1]);
    let p3 = p2.next(events[2]);
    let p4 = p3.next(events[3]);
    assert(p4.run(rest4) == p4);
    assert(p3.run(rest3) == p4);
    assert(p2.run(rest2) == p4);
    assert(p1.run(rest1) == p4);
}

/// A job comes to its end: each answer to the action it asks for brings it
/// nearer, and it asks for four actions at most.
pub proof fn lemma_answer_brings_job_on(job: JobView, event: JobEvent)
    requires
        job.awaited() matches Some(action) && event.answers(action),
    ensures
        job.next(event).phase.steps_left() < job.phase.steps_left(),
        job.phase.steps_left() <= 4,
{
}

} // verus!
