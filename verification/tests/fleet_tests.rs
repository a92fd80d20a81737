use qbittorrent_mover::fleet::{cycle_result, CycleError};
use qbittorrent_mover::reconcile::{AggregateError, ReconcileError};
use qbittorrent_mover::relocate::RelocateError;
use qbittorrent_mover::torrent::{ClientError, TorrentError};

#[test]
fn cycle_without_servers() {
    let cycle = cycle_result(&vec![]);
    assert_eq!(cycle.servers_processed, 0);
    assert!(cycle.errors.is_empty());
}

#[test]
fn cycle_of_clean_passes() {
    let cycle = cycle_result(&vec![Ok(()), Ok(()), Ok(())]);
    assert_eq!(cycle.servers_processed, 3);
    assert!(cycle.errors.is_empty());
}

#[test]
fn cycle_keeps_every_error_under_its_server() {
    let missing = ReconcileError::Torrent {
        index: 2,
        error: TorrentError::Relocate(RelocateError::SourceNotFound),
    };
    let partial = ReconcileError::Torrent {
        index: 5,
        error: TorrentError::Relocate(RelocateError::PartialMove),
    };
    let results = vec![
        Err(AggregateError { errors: vec![ReconcileError::OnlineCheck(ClientError::Transport)] }),
        Ok(()),
        Err(AggregateError { errors: vec![missing, partial] }),
        Err(AggregateError { errors: vec![ReconcileError::Listing(ClientError::Decode)] }),
    ];
    let cycle = cycle_result(&results);
    assert_eq!(cycle.servers_processed, 4);
    assert_eq!(
        cycle.errors,
        vec![
            CycleError { server: 0, error: ReconcileError::OnlineCheck(ClientError::Transport) },
            CycleError { server: 2, error: missing },
            CycleError { server: 2, error: partial },
            CycleError { server: 3, error: ReconcileError::Listing(ClientError::Decode) },
        ]
    );
}

#[test]
fn cycle_counts_a_pass_that_reports_nothing() {
    let cycle = cycle_result(&vec![Err(AggregateError { errors: vec![] }), Ok(())]);
    assert_eq!(cycle.servers_processed, 2);
    assert!(cycle.errors.is_empty());
}
