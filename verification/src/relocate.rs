//! Moving one finished download: the decisions between the file operations.
//!
//! A download is moved by copying it and then deleting the original. The file
//! operations themselves are done by the caller; after each of them it reports
//! what happened, and the relocation says what comes next.

use vstd::prelude::*;

verus! {

/// What lies at the source path.
#[derive(Debug, Clone, Copy, PartialEq, Eq, Structural)]
pub enum SourceKind {
    /// Nothing.
    Missing,
    /// A regular file.
    File,
    /// A directory.
    Directory,
    /// Something that is neither a regular file nor a directory.
    Other,
}

/// Whether one file or a whole directory tree is moved.
#[derive(Debug, Clone, Copy, PartialEq, Eq, Structural)]
pub enum CopyKind {
    File,
    Tree,
}

/// Why a download was not moved.
#[derive(Debug, Clone, Copy, PartialEq, Eq, Structural)]
pub enum RelocateError {
    /// Nothing lies at the source path.
    SourceNotFound,
    /// The source is neither a regular file nor a directory.
    UnsupportedSourceType,
    /// Something lies at the destination path already; it is not overwritten
    /// and nothing is merged into it.
    DestinationExists,
    /// The copy failed; the source is untouched.
    CopyFailed,
    /// The copy succeeded and the source could not be deleted: the data now
    /// lies in both places.
    PartialMove,
}

/// How far a relocation has come.
#[derive(Debug, Clone, Copy, PartialEq, Eq, Structural)]
pub enum Relocation {
    /// Source and destination have to be looked at.
    Probing,
    /// The source is being copied to the destination.
    Copying(CopyKind),
    /// The copy is complete and the source is being deleted.
    Removing(CopyKind),
    /// The download lies at the destination and no longer at the source.
    Moved,
    /// The relocation was given up.
    Failed(RelocateError),
}

/// The file operation a relocation waits for.
#[derive(Debug, Clone, Copy, PartialEq, Eq, Structural)]
pub enum FileStep {
    /// Find out what lies at the source and whether the destination exists.
    Probe,
    /// Copy the source to the destination.
    Copy(CopyKind),
    /// Delete the source.
    Remove(CopyKind),
}

/// What a file operation found or did.
#[derive(Debug, Clone, Copy, PartialEq, Eq, Structural)]
pub enum FileEvent {
    Probed { source: SourceKind, destination_exists: bool },
    Copied { ok: bool },
    Removed { ok: bool },
}

/// What a probe leads to: the source is judged first, then the destination.
pub open spec fn probe_verdict(source: SourceKind, destination_exists: bool) -> Relocation {
    match source {
        SourceKind::Missing => Relocation::Failed(RelocateError::SourceNotFound),
        SourceKind::Other => Relocation::Failed(RelocateError::UnsupportedSourceType),
        SourceKind::File => if destination_exists {
            Relocation::Failed(RelocateError::DestinationExists)
        } else {
            Relocation::Copying(CopyKind::File)
        },
        SourceKind::Directory => if destination_exists {
            Relocation::Failed(RelocateError::DestinationExists)
        } else {
            Relocation::Copying(CopyKind::Tree)
        },
    }
}

/// The outcome of a whole relocation, told from what the three file
/// operations would report.
pub open spec fn relocate_result(
    source: SourceKind,
    destination_exists: bool,
    copy_ok: bool,
    remove_ok: bool,
) -> Result<(), RelocateError> {
    if source == SourceKind::Missing {
        Err(RelocateError::SourceNotFound)
    } else if source == SourceKind::Other {
        Err(RelocateError::UnsupportedSourceType)
    } else if destination_exists {
        Err(RelocateError::DestinationExists)
    } else if !copy_ok {
        Err(RelocateError::CopyFailed)
    } else if !remove_ok {
        Err(RelocateError::PartialMove)
    } else {
        Ok(())
    }
}

impl Relocation {
    /// The state after `event`. An event that does not answer the step the
    /// relocation waits for changes nothing.
    pub open spec fn next(self, event: FileEvent) -> Relocation {
        match (self, event) {
            (Relocation::Probing, FileEvent::Probed { source, destination_exists }) => probe_verdict(
                source,
                destination_exists,
            ),
            (Relocation::Copying(kind), FileEvent::Copied { ok }) => if ok {
                Relocation::Removing(kind)
            } else {
                Relocation::Failed(RelocateError::CopyFailed)
            },
            (Relocation::Removing(_), FileEvent::Removed { ok }) => if ok {
                Relocation::Moved
            } else {
                Relocation::Failed(RelocateError::PartialMove)
            },
            _ => self,
        }
    }

    /// The step the relocation waits for; none once it is over.
    pub open spec fn awaited(self) -> Option<FileStep> {
        match self {
            Relocation::Probing => Some(FileStep::Probe),
            Relocation::Copying(kind) => Some(FileStep::Copy(kind)),
            Relocation::Removing(kind) => Some(FileStep::Remove(kind)),
            Relocation::Moved => None,
            Relocation::Failed(_) => None,
        }
    }

    /// The state after all of `events`, taken in their order.
    pub open spec fn run(self, events: Seq<FileEvent>) -> Relocation
        decreases events.len(),
    {
        if events.len() == 0 {
            self
        } else {
            self.next(events[0]).run(events.skip(1))
        }
    }

    /// A relocation that has not looked at anything yet.
    pub fn start() -> (relocation: Self)
        ensures
            relocation == Relocation::Probing,
    {
        Relocation::Probing
    }

    /// The file operation to perform now, if any is left.
    pub fn pending(&self) -> (step: Option<FileStep>)
        ensures
            step == self.awaited(),
    {
        match self {
            Relocation::Probing => Some(FileStep::Probe),
            Relocation::Copying(kind) => Some(FileStep::Copy(*kind)),
            Relocation::Removing(kind) => Some(FileStep::Remove(*kind)),
            Relocation::Moved => None,
            Relocation::Failed(_) => None,
        }
    }

    /// Takes in what a file operation reported.
    pub fn step(self, event: FileEvent) -> (after: Self)
        ensures
            after == self.next(event),
    {
        match self {
            Relocation::Probing => match event {
                FileEvent::Probed { source, destination_exists } => match source {
                    SourceKind::Missing => Relocation::Failed(RelocateError::SourceNotFound),
                    SourceKind::Other => Relocation::Failed(RelocateError::UnsupportedSourceType),
                    SourceKind::File | SourceKind::Directory => {
                        if destination_exists {
                            Relocation::Failed(RelocateError::DestinationExists)
                        } else if source == SourceKind::File {
                            Relocation::Copying(CopyKind::File)
                        } else {
                            Relocation::Copying(CopyKind::Tree)
                        }
                    },
                },
                _ => self,
            },
            Relocation::Copying(kind) => match event {
                FileEvent::Copied { ok: true } => Relocation::Removing(kind),
                FileEvent::Copied { ok: false } => Relocation::Failed(RelocateError::CopyFailed),
                _ => self,
            },
            Relocation::Removing(_) => match event {
                FileEvent::Removed { ok: true } => Relocation::Moved,
                FileEvent::Removed { ok: false } => Relocation::Failed(RelocateError::PartialMove),
                _ => self,
            },
            Relocation::Moved => self,
            Relocation::Failed(_) => self,
        }
    }

    /// Whether the relocation is over, one way or the other.
    pub fn is_over(&self) -> (over: bool)
        ensures
            over == self.awaited().is_none(),
    {
        match self {
            Relocation::Moved => true,
            Relocation::Failed(_) => true,
            _ => false,
        }
    }
}

/// A relocation that is over stays as it is, whatever is reported to it.
pub proof fn lemma_over_is_final(relocation: Relocation, events: Seq<FileEvent>)
    requires
        relocation.awaited().is_none(),
    ensures
        relocation.run(events) == relocation,
    decreases events.len(),
{
    if events.len() > 0 {
        lemma_over_is_final(relocation, events.skip(1));
    }
}

/// A relocation that is told the results of probe, copy and delete in turn
/// ends as `relocate_result` says: moved where all went well, and else failed
/// with the first thing that went wrong.
pub proof fn lemma_relocation_verdict(
    source: SourceKind,
    destination_exists: bool,
    copy_ok: bool,
    remove_ok: bool,
)
    ensures
        Relocation::Probing.run(
            seq![
                FileEvent::Probed { source, destination_exists },
                FileEvent::Copied { ok: copy_ok },
                FileEvent::Removed { ok: remove_ok },
            ],
        ) == match relocate_result(source, destination_exists, copy_ok, remove_ok) {
            Ok(_) => Relocation::Moved,
            Err(error) => Relocation::Failed(error),
        },
{
    let events = seq![
        FileEvent::Probed { source, destination_exists },
        FileEvent::Copied { ok: copy_ok },
        FileEvent::Removed { ok: remove_ok },
    ];
    let first = Relocation::Probing.next(events[0]);
    let second = first.next(events[1]);
    let third = second.next(events[2]);
    assert(third.run(events.skip(1).skip(1).skip(1)) == third);
    assert(second.run(events.skip(1).skip(1)) == third);
    assert(first.run(events.skip(1)) == third);
}

/// The source is deleted only after a complete copy: a relocation comes to
/// wait for the deletion in no other way than by a copy that succeeded.
pub proof fn lemma_remove_follows_copy(before: Relocation, event: FileEvent)
    requires
        before.next(event) is Removing,
        !(before is Removing),
    ensures
        before is Copying,
        event == (FileEvent::Copied { ok: true }),
{
}

/// A missing source is reported as such whatever lies at the destination, so a
/// relocation that is repeated after it succeeded fails with
/// `SourceNotFound`.
pub proof fn lemma_missing_source_comes_first(destination_exists: bool)
    ensures
        Relocation::Probing.next(
            FileEvent::Probed { source: SourceKind::Missing, destination_exists },
        ) == Relocation::Failed(RelocateError::SourceNotFound),
{
}

} // verus!
