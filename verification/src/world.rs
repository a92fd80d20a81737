//! What the steps of a job add up to, on a disk and a server that do what
//! they are asked.
//!
//! The library touches neither disk nor server: it asks for actions and is
//! told what came of them. To say what a job achieves, disk and server are
//! described here as plain values: a copy copies, a removal removes, and the
//! server takes every request. Nothing in this module runs; it states and
//! proves.

use crate::config::ServerConfig;
use crate::relocate::{CopyKind, FileEvent, RelocateError, Relocation, SourceKind};
use crate::torrent::{
    opened_job, relocation_plan, ActionView, JobEvent, JobPhase, JobView, Outcome, Torrent,
    TorrentError,
};
use vstd::prelude::*;

verus! {

/// What lies at a path.
pub enum Entry {
    /// A regular file and its bytes.
    File(Seq<u8>),
    /// A directory and the bytes of each file below it.
    Directory(Map<Seq<char>, Seq<u8>>),
    /// Something that is neither.
    Other,
}

/// A disk, and the record of what a server was asked to forget.
pub struct World {
    /// What lies at each path that is taken.
    pub disk: Map<Seq<char>, Entry>,
    /// The hashes of the removal requests, in the order they were made.
    pub forgotten: Seq<Seq<char>>,
}

impl World {
    /// What a look at `path` finds.
    pub open spec fn kind_at(self, path: Seq<char>) -> SourceKind {
        if !self.disk.contains_key(path) {
            SourceKind::Missing
        } else {
            match self.disk[path] {
                Entry::File(_) => SourceKind::File,
                Entry::Directory(_) => SourceKind::Directory,
                Entry::Other => SourceKind::Other,
            }
        }
    }

    /// The world after `action`, and what is reported of it. A copy puts at
    /// the destination what lies at the source, a removal clears the path, a
    /// request to the server is put down; a look changes nothing.
    pub open spec fn perform(self, action: ActionView) -> (World, JobEvent) {
        match action {
            ActionView::Probe { source, destination } => (
                self,
                JobEvent::File(
                    FileEvent::Probed {
                        source: self.kind_at(source),
                        destination_exists: self.disk.contains_key(destination),
                    },
                ),
            ),
            ActionView::Copy { kind, source, destination } => if self.disk.contains_key(source) {
                (
                    World { disk: self.disk.insert(destination, self.disk[source]), ..self },
                    JobEvent::File(FileEvent::Copied { ok: true }),
                )
            } else {
                (self, JobEvent::File(FileEvent::Copied { ok: false }))
            },
            ActionView::Remove { kind, source } => if self.disk.contains_key(source) {
                (
                    World { disk: self.disk.remove(source), ..self },
                    JobEvent::File(FileEvent::Removed { ok: true }),
                )
            } else {
                (self, JobEvent::File(FileEvent::Removed { ok: false }))
            },
            ActionView::DeleteRemote { hash } => (
                World { forgotten: self.forgotten.push(hash), ..self },
                JobEvent::RemoteDeleted(Ok(())),
            ),
        }
    }
}

/// Job and world after the job was served for at most `steps` actions: each
/// action it asks for is performed and what came of it is reported back.
pub open spec fn drive(job: JobView, world: World, steps: nat) -> (JobView, World)
    decreases steps,
{
    if steps == 0 {
        (job, world)
    } else {
        match job.awaited() {
            None => (job, world),
            Some(action) => {
                let (after, event) = world.perform(action);
                drive(job.next(event), after, (steps - 1) as nat)
            },
        }
    }
}

/// What the world reports of an action is the answer to that action, so a
/// job that is served comes to its end within four actions.
pub proof fn lemma_served_job_ends(job: JobView, world: World)
    requires
        job.phase.well_formed(),
    ensures
        drive(job, world, 4).0.awaited() is None,
{
    reveal_with_fuel(drive, 5);
}

/// A job that is finished touches nothing, however long it is served: a
/// download that is skipped stays where it is and stays listed.
pub proof fn lemma_finished_job_touches_nothing(job: JobView, world: World, steps: nat)
    requires
        job.phase is Finished,
    ensures
        drive(job, world, steps) == (job, world),
{
    reveal_with_fuel(drive, 1);
}

/// Moving a download that is there to a place that is free: after four
/// actions the job has ended well, the destination holds what the source
/// held, byte for byte, the source is gone, the rest of the disk is as it
/// was, and the server was asked once to forget the download.
pub proof fn lemma_round_trip(job: JobView, world: World)
    requires
        job.phase == JobPhase::Moving(Relocation::Probing),
        world.kind_at(job.source) == SourceKind::File || world.kind_at(job.source)
            == SourceKind::Directory,
        !world.disk.contains_key(job.destination),
    ensures
        drive(job, world, 4).0.phase == JobPhase::Finished(Outcome::Relocated),
        drive(job, world, 4).1.disk == world.disk.remove(job.source).insert(
            job.destination,
            world.disk[job.source],
        ),
        drive(job, world, 4).1.forgotten == world.forgotten.push(job.hash),
{
    reveal_with_fuel(drive, 5);
    let kind = if world.kind_at(job.source) == SourceKind::File {
        CopyKind::File
    } else {
        CopyKind::Tree
    };
    let (w1, e1) = world.perform(job.awaited().unwrap());
    let j1 = job.next(e1);
    assert(j1.phase == JobPhase::Moving(Relocation::Copying(kind)));
    let (w2, e2) = w1.perform(j1.awaited().unwrap());
    let j2 = j1.next(e2);
    assert(j2.phase == JobPhase::Moving(Relocation::Removing(kind)));
    let (w3, e3) = w2.perform(j2.awaited().unwrap());
    let j3 = j2.next(e3);
    assert(j3.phase == JobPhase::Deleting);
    let (w4, e4) = w3.perform(j3.awaited().unwrap());
    let j4 = j3.next(e4);
    assert(drive(job, world, 4) == (j4, w4));
    assert(w4.disk =~= world.disk.remove(job.source).insert(
        job.destination,
        world.disk[job.source],
    ));
}

/// Moving the same download once more: the job finds no source, fails with
/// `SourceNotFound`, and leaves disk and server as they are.
pub proof fn lemma_second_move_finds_no_source(job: JobView, world: World)
    requires
        job.phase == JobPhase::Moving(Relocation::Probing),
        world.kind_at(job.source) == SourceKind::File || world.kind_at(job.source)
            == SourceKind::Directory,
        !world.disk.contains_key(job.destination),
    ensures
        drive(job, drive(job, world, 4).1, 4) == (
            JobView {
                phase: JobPhase::Finished(
                    Outcome::Failed(TorrentError::Relocate(RelocateError::SourceNotFound)),
                ),
                ..job
            },
            drive(job, world, 4).1,
        ),
{
    lemma_round_trip(job, world);
    reveal_with_fuel(drive, 3);
    let after = drive(job, world, 4).1;
    assert(!after.disk.contains_key(job.source));
    assert(after.kind_at(job.source) == SourceKind::Missing);
}

/// A source that is neither file nor directory is left alone, and so is the
/// server.
pub proof fn lemma_unsupported_source_is_left_alone(job: JobView, world: World, steps: nat)
    requires
        job.phase == JobPhase::Moving(Relocation::Probing),
        world.kind_at(job.source) == SourceKind::Other,
        steps > 0,
    ensures
        drive(job, world, steps) == (
            JobView {
                phase: JobPhase::Finished(
                    Outcome::Failed(TorrentError::Relocate(RelocateError::UnsupportedSourceType)),
                ),
                ..job
            },
            world,
        ),
{
    reveal_with_fuel(drive, 3);
}

/// Nothing is put where something lies already: the job fails with
/// `DestinationExists` and leaves disk and server as they are.
pub proof fn lemma_taken_destination_is_kept(job: JobView, world: World, steps: nat)
    requires
        job.phase == JobPhase::Moving(Relocation::Probing),
        world.kind_at(job.source) == SourceKind::File || world.kind_at(job.source)
            == SourceKind::Directory,
        world.disk.contains_key(job.destination),
        steps > 0,
    ensures
        drive(job, world, steps) == (
            JobView {
                phase: JobPhase::Finished(
                    Outcome::Failed(TorrentError::Relocate(RelocateError::DestinationExists)),
                ),
                ..job
            },
            world,
        ),
{
    reveal_with_fuel(drive, 3);
}

/// From the list of a server to the disk: a download whose category has a
/// directory, whose local path can be told and holds a file or a directory,
/// and whose place in that directory is free, is moved there, and the server
/// is asked once, by the hash of the download, to forget it.
pub proof fn lemma_listed_download_is_moved(server: ServerConfig, torrent: Torrent, world: World)
    requires
        relocation_plan(server, torrent) matches Some(Ok(plan)) && (world.kind_at(plan.0)
            == SourceKind::File || world.kind_at(plan.0) == SourceKind::Directory)
            && !world.disk.contains_key(plan.1),
    ensures
        ({
            let (source, destination) = relocation_plan(server, torrent).unwrap().unwrap();
            let (job, after) = drive(opened_job(server, torrent), world, 4);
            &&& job.phase == JobPhase::Finished(Outcome::Relocated)
            &&& after.disk == world.disk.remove(source).insert(destination, world.disk[source])
            &&& after.forgotten == world.forgotten.push(torrent.hash@)
        }),
{
    lemma_round_trip(opened_job(server, torrent), world);
}

} // verus!
