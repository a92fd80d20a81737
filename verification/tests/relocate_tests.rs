use qbittorrent_mover::relocate::{CopyKind, FileEvent, FileStep, RelocateError, Relocation, SourceKind};

fn run(events: &[FileEvent]) -> Relocation {
    let mut relocation = Relocation::start();
    for event in events {
        relocation = relocation.step(*event);
    }
    relocation
}

#[test]
fn relocation_starts_with_a_probe() {
    let relocation = Relocation::start();
    assert_eq!(relocation, Relocation::Probing);
    assert_eq!(relocation.pending(), Some(FileStep::Probe));
    assert!(!relocation.is_over());
}

#[test]
fn relocation_of_a_file() {
    let mut relocation = Relocation::start();
    relocation = relocation.step(FileEvent::Probed { source: SourceKind::File, destination_exists: false });
    assert_eq!(relocation.pending(), Some(FileStep::Copy(CopyKind::File)));
    relocation = relocation.step(FileEvent::Copied { ok: true });
    assert_eq!(relocation.pending(), Some(FileStep::Remove(CopyKind::File)));
    relocation = relocation.step(FileEvent::Removed { ok: true });
    assert_eq!(relocation, Relocation::Moved);
    assert_eq!(relocation.pending(), None);
    assert!(relocation.is_over());
}

#[test]
fn relocation_of_a_directory() {
    let mut relocation = Relocation::start();
    relocation =
        relocation.step(FileEvent::Probed { source: SourceKind::Directory, destination_exists: false });
    assert_eq!(relocation.pending(), Some(FileStep::Copy(CopyKind::Tree)));
    relocation = relocation.step(FileEvent::Copied { ok: true });
    assert_eq!(relocation.pending(), Some(FileStep::Remove(CopyKind::Tree)));
    relocation = relocation.step(FileEvent::Removed { ok: true });
    assert_eq!(relocation, Relocation::Moved);
}

#[test]
fn relocation_errors() {
    let probe = |source, destination_exists| FileEvent::Probed { source, destination_exists };
    assert_eq!(
        run(&[probe(SourceKind::Missing, false)]),
        Relocation::Failed(RelocateError::SourceNotFound)
    );
    assert_eq!(
        run(&[probe(SourceKind::Missing, true)]),
        Relocation::Failed(RelocateError::SourceNotFound)
    );
    assert_eq!(
        run(&[probe(SourceKind::Other, false)]),
        Relocation::Failed(RelocateError::UnsupportedSourceType)
    );
    assert_eq!(
        run(&[probe(SourceKind::Other, true)]),
        Relocation::Failed(RelocateError::UnsupportedSourceType)
    );
    assert_eq!(
        run(&[probe(SourceKind::File, true)]),
        Relocation::Failed(RelocateError::DestinationExists)
    );
    assert_eq!(
        run(&[probe(SourceKind::Directory, true)]),
        Relocation::Failed(RelocateError::DestinationExists)
    );
    assert_eq!(
        run(&[probe(SourceKind::File, false), FileEvent::Copied { ok: false }]),
        Relocation::Failed(RelocateError::CopyFailed)
    );
    assert_eq!(
        run(&[
            probe(SourceKind::Directory, false),
            FileEvent::Copied { ok: true },
            FileEvent::Removed { ok: false }
        ]),
        Relocation::Failed(RelocateError::PartialMove)
    );
}

#[test]
fn relocation_that_is_over_stays() {
    let failed = Relocation::Failed(RelocateError::PartialMove);
    assert!(failed.is_over());
    assert_eq!(failed.pending(), None);
    assert_eq!(failed.step(FileEvent::Removed { ok: true }), failed);
    assert_eq!(
        failed.step(FileEvent::Probed { source: SourceKind::File, destination_exists: false }),
        failed
    );
    assert_eq!(Relocation::Moved.step(FileEvent::Copied { ok: false }), Relocation::Moved);
}

#[test]
fn relocation_ignores_what_it_did_not_wait_for() {
    assert_eq!(Relocation::Probing.step(FileEvent::Copied { ok: true }), Relocation::Probing);
    assert_eq!(Relocation::Probing.step(FileEvent::Removed { ok: true }), Relocation::Probing);
    let copying = Relocation::Copying(CopyKind::Tree);
    assert_eq!(copying.step(FileEvent::Removed { ok: true }), copying);
    assert_eq!(
        copying.step(FileEvent::Probed { source: SourceKind::Missing, destination_exists: false }),
        copying
    );
    let removing = Relocation::Removing(CopyKind::File);
    assert_eq!(removing.step(FileEvent::Copied { ok: false }), removing);
}
