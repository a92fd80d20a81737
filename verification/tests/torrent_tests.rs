use qbittorrent_mover::config::ServerConfig;
use qbittorrent_mover::paths::PathPrefixMismatch;
use qbittorrent_mover::relocate::{CopyKind, FileEvent, RelocateError, Relocation, SourceKind};
use qbittorrent_mover::torrent::{
    get_completed_torrents, is_server_online, move_and_clean_torrent_files, plan_relocation,
    remove_torrent, Action,
    ClientError, JobEvent, JobPhase, JobStatus, Method, Outcome, Torrent, TorrentClient,
    TorrentError, TorrentJob, REQUEST_TIMEOUT,
};

fn server_with(category: &str, destination: &str) -> ServerConfig {
    let mut server = ServerConfig::default();
    server.categories.insert(category.to_string(), destination.to_string());
    server
}

fn torrent(save_path: &str, name: &str, category: &str, hash: &str) -> Torrent {
    Torrent {
        save_path: save_path.to_string(),
        name: name.to_string(),
        category: category.to_string(),
        hash: hash.to_string(),
    }
}

fn probed(source: SourceKind, destination_exists: bool) -> JobEvent {
    JobEvent::File(FileEvent::Probed { source, destination_exists })
}

fn copied(ok: bool) -> JobEvent {
    JobEvent::File(FileEvent::Copied { ok })
}

fn removed(ok: bool) -> JobEvent {
    JobEvent::File(FileEvent::Removed { ok })
}

/// Runs `job` against a disk that holds `files` and `directories` and a
/// server that answers every request; returns the actions in their order.
fn run_on_disk(job: &mut TorrentJob, files: &mut Vec<String>, directories: &mut Vec<String>) -> Vec<Action> {
    let mut actions = Vec::new();
    while let Some(action) = job.pending() {
        actions.extend(job.pending());
        let event = match action {
            Action::Probe { source, destination } => {
                let kind = if files.contains(&source) {
                    SourceKind::File
                } else if directories.contains(&source) {
                    SourceKind::Directory
                } else {
                    SourceKind::Missing
                };
                let destination_exists = files.contains(&destination) || directories.contains(&destination);
                probed(kind, destination_exists)
            }
            Action::Copy { kind, source: _, destination } => {
                match kind {
                    CopyKind::File => files.push(destination),
                    CopyKind::Tree => directories.push(destination),
                }
                copied(true)
            }
            Action::Remove { kind: _, source } => {
                files.retain(|path| *path != source);
                directories.retain(|path| *path != source);
                removed(true)
            }
            Action::DeleteRemote { hash: _ } => JobEvent::RemoteDeleted(Ok(())),
        };
        job.step(event);
    }
    actions
}

#[test]
fn test_new_torrent_client() {
    let server_config = ServerConfig {
        qbit_url: "http://127.0.0.1:1234".to_string(),
        ..Default::default()
    };
    let torrent_client = TorrentClient::new(server_config.clone());
    assert_eq!(*torrent_client.server(), server_config);
}

#[test]
fn test_is_server_online() {
    let server_config = ServerConfig {
        qbit_url: "http://127.0.0.1:1234".to_string(),
        ..Default::default()
    };
    let torrent_client = TorrentClient::new(server_config);
    let request = torrent_client.version_request();
    assert_eq!(request.method, Method::Get);
    assert_eq!(request.url, "http://127.0.0.1:1234/api/v2/app/version");
    let is_online = is_server_online(Ok(200));
    assert!(is_online.is_ok());
    assert_eq!(is_online, Ok(true));
}

#[test]
fn server_is_online_on_a_status_of_success_only() {
    assert_eq!(is_server_online(Ok(199)), Ok(false));
    assert_eq!(is_server_online(Ok(200)), Ok(true));
    assert_eq!(is_server_online(Ok(204)), Ok(true));
    assert_eq!(is_server_online(Ok(299)), Ok(true));
    assert_eq!(is_server_online(Ok(300)), Ok(false));
    assert_eq!(is_server_online(Ok(403)), Ok(false));
    assert_eq!(is_server_online(Ok(500)), Ok(false));
    assert_eq!(is_server_online(Ok(0)), Ok(false));
    assert_eq!(is_server_online(Err(ClientError::Transport)), Err(ClientError::Transport));
}

#[test]
fn removal_counts_as_asked_whatever_the_status() {
    assert_eq!(remove_torrent(Ok(200)), Ok(()));
    assert_eq!(remove_torrent(Ok(404)), Ok(()));
    assert_eq!(remove_torrent(Ok(500)), Ok(()));
    assert_eq!(remove_torrent(Err(ClientError::Transport)), Err(ClientError::Transport));
}

#[test]
fn test_make_request() {
    let server_config = ServerConfig {
        qbit_url: "http://127.0.0.1:1234".to_string(),
        username: "me".to_string(),
        password: "secret".to_string(),
        ..Default::default()
    };
    let torrent_client = TorrentClient::new(server_config);
    let request = torrent_client.version_request();
    assert_eq!(request.username, "me");
    assert_eq!(request.password, "secret");
    let request = torrent_client.completed_request();
    assert_eq!(request.username, "me");
    assert_eq!(request.password, "secret");
    let request = torrent_client.removal_request("abc");
    assert_eq!(request.username, "me");
    assert_eq!(request.password, "secret");
    assert_eq!(request.timeout, 30);
    assert_eq!(REQUEST_TIMEOUT, 30);
    assert_eq!(torrent_client.version_request().timeout, 30);
    assert_eq!(torrent_client.completed_request().timeout, 30);
}

#[test]
fn test_get_completed_torrents() {
    let torrent_client = TorrentClient::new(ServerConfig::default());
    let request = torrent_client.completed_request();
    assert_eq!(request.method, Method::Get);
    assert_eq!(request.url, "http://localhost:8080/api/v2/torrents/info?filter=completed");
    assert_eq!(request.username, "admin");
    assert_eq!(request.password, "adminadmin");
    let torrents = get_completed_torrents(Ok(Some(vec![])));
    assert!(torrents.is_ok());
    assert!(torrents.unwrap().is_empty());
}

#[test]
fn answer_that_is_no_list_is_not_an_empty_list() {
    assert!(matches!(get_completed_torrents(Ok(None)), Err(ClientError::Decode)));
    assert!(matches!(
        get_completed_torrents(Err(ClientError::Transport)),
        Err(ClientError::Transport)
    ));
    let listed = get_completed_torrents(Ok(Some(vec![
        torrent("/src", "A", "movies", "h1"),
        torrent("/src", "B", "music", "h2"),
    ])));
    match listed {
        Ok(torrents) => {
            assert_eq!(torrents.len(), 2);
            assert_eq!(torrents[0].hash, "h1");
            assert_eq!(torrents[0].name, "A");
            assert_eq!(torrents[1].category, "music");
            assert_eq!(torrents[1].save_path, "/src");
        }
        Err(error) => panic!("a list was refused: {:?}", error),
    }
}

#[test]
fn test_remove_torrent() {
    let torrent_client = TorrentClient::new(ServerConfig::default());
    let hash = "test_hash";
    let request = torrent_client.removal_request(hash);
    assert_eq!(request.method, Method::Delete);
    assert_eq!(request.url, "http://localhost:8080/api/v2/torrents/delete?hashes=test_hash");
    let result = remove_torrent(Ok(200));
    assert!(result.is_ok());
}

#[test]
fn test_move_and_clean_torrent_files() {
    let torrent = torrent("/tmp/src", "test_torrent", "test_category", "test_hash");
    let torrent_client = TorrentClient::new(server_with("test_category", "/tmp/dest"));
    let mut files = vec!["/tmp/src/test_torrent".to_string()];
    let mut directories = vec!["/tmp/src".to_string(), "/tmp/dest".to_string()];

    let mut job = move_and_clean_torrent_files(&torrent_client, &torrent);
    run_on_disk(&mut job, &mut files, &mut directories);

    assert_eq!(job.outcome(), Some(Outcome::Relocated));
    assert!(!files.contains(&"/tmp/src/test_torrent".to_string()));
    assert!(files.contains(&"/tmp/dest/test_torrent".to_string()));
}

#[test]
fn end_to_end_single_file() {
    let torrent_client = TorrentClient::new(server_with("movies", "/dest"));
    let torrent = torrent("/src", "A", "movies", "h1");
    let mut files = vec!["/src/A".to_string()];
    let mut directories = vec!["/src".to_string(), "/dest".to_string()];

    let mut job = move_and_clean_torrent_files(&torrent_client, &torrent);
    let actions = run_on_disk(&mut job, &mut files, &mut directories);

    assert_eq!(
        actions,
        vec![
            Action::Probe { source: "/src/A".to_string(), destination: "/dest/A".to_string() },
            Action::Copy {
                kind: CopyKind::File,
                source: "/src/A".to_string(),
                destination: "/dest/A".to_string()
            },
            Action::Remove { kind: CopyKind::File, source: "/src/A".to_string() },
            Action::DeleteRemote { hash: "h1".to_string() },
        ]
    );
    let deletes = actions
        .iter()
        .filter(|action| matches!(action, Action::DeleteRemote { hash } if hash == "h1"))
        .count();
    assert_eq!(deletes, 1);
    assert!(files.contains(&"/dest/A".to_string()));
    assert!(!files.contains(&"/src/A".to_string()));
    assert_eq!(job.outcome(), Some(Outcome::Relocated));
    assert_eq!(job.pending(), None);
    assert_eq!(job.hash(), "h1");
}

#[test]
fn second_relocation_of_the_same_plan_finds_no_source() {
    let torrent_client = TorrentClient::new(server_with("movies", "/dest"));
    let torrent = torrent("/src", "A", "movies", "h1");
    let mut files = vec!["/src/A".to_string()];
    let mut directories = vec![];

    let mut first = move_and_clean_torrent_files(&torrent_client, &torrent);
    run_on_disk(&mut first, &mut files, &mut directories);
    assert_eq!(first.outcome(), Some(Outcome::Relocated));

    let mut second = move_and_clean_torrent_files(&torrent_client, &torrent);
    let actions = run_on_disk(&mut second, &mut files, &mut directories);
    assert_eq!(
        second.outcome(),
        Some(Outcome::Failed(TorrentError::Relocate(RelocateError::SourceNotFound)))
    );
    assert_eq!(
        actions,
        vec![Action::Probe { source: "/src/A".to_string(), destination: "/dest/A".to_string() }]
    );
    assert!(files.contains(&"/dest/A".to_string()));
}

#[test]
fn directory_is_moved_as_a_tree() {
    let torrent_client = TorrentClient::new(server_with("shows", "/dest"));
    let torrent = torrent("/src", "Season 1", "shows", "h2");
    let mut files = vec![];
    let mut directories = vec!["/src/Season 1".to_string()];

    let mut job = move_and_clean_torrent_files(&torrent_client, &torrent);
    let actions = run_on_disk(&mut job, &mut files, &mut directories);

    assert_eq!(
        actions,
        vec![
            Action::Probe {
                source: "/src/Season 1".to_string(),
                destination: "/dest/Season 1".to_string()
            },
            Action::Copy {
                kind: CopyKind::Tree,
                source: "/src/Season 1".to_string(),
                destination: "/dest/Season 1".to_string()
            },
            Action::Remove { kind: CopyKind::Tree, source: "/src/Season 1".to_string() },
            Action::DeleteRemote { hash: "h2".to_string() },
        ]
    );
    assert_eq!(directories, vec!["/dest/Season 1".to_string()]);
    assert_eq!(job.outcome(), Some(Outcome::Relocated));
}

#[test]
fn unmapped_category_is_skipped() {
    let torrent_client = TorrentClient::new(server_with("movies", "/dest"));
    let torrent = torrent("/src", "A", "music", "h1");
    let mut job = move_and_clean_torrent_files(&torrent_client, &torrent);
    assert_eq!(job.phase(), JobPhase::Finished(Outcome::Skipped));
    assert_eq!(job.outcome(), Some(Outcome::Skipped));
    assert_eq!(job.pending(), None);

    job.step(probed(SourceKind::File, false));
    job.step(copied(true));
    job.step(removed(true));
    job.step(JobEvent::RemoteDeleted(Ok(())));
    assert_eq!(job.outcome(), Some(Outcome::Skipped));
    assert_eq!(job.pending(), None);
}

#[test]
fn empty_categories_skip_everything() {
    let torrent_client = TorrentClient::new(ServerConfig::default());
    for category in ["movies", "music", ""] {
        let torrent = torrent("/src", "A", category, "h1");
        let job = move_and_clean_torrent_files(&torrent_client, &torrent);
        assert_eq!(job.outcome(), Some(Outcome::Skipped));
        assert_eq!(job.pending(), None);
        assert!(plan_relocation(torrent_client.server(), &torrent).is_none());
    }
}

#[test]
fn unmapped_category_is_skipped_before_the_prefix_is_looked_at() {
    let mut server = server_with("movies", "/dest");
    server.path_prefix = Some("/elsewhere".to_string());
    let torrent_client = TorrentClient::new(server);
    let job = move_and_clean_torrent_files(&torrent_client, &torrent("/src", "A", "music", "h1"));
    assert_eq!(job.outcome(), Some(Outcome::Skipped));
}

#[test]
fn prefix_mismatch_fails_without_touching_anything() {
    let mut server = server_with("movies", "/dest");
    server.path_prefix = Some("/elsewhere".to_string());
    let torrent = torrent("/src", "A", "movies", "h1");
    let planned = plan_relocation(&server, &torrent);
    assert!(matches!(planned, Some(Err(PathPrefixMismatch))));

    let torrent_client = TorrentClient::new(server);
    let job = move_and_clean_torrent_files(&torrent_client, &torrent);
    assert_eq!(job.outcome(), Some(Outcome::Failed(TorrentError::PathPrefixMismatch)));
    assert_eq!(job.pending(), None);
}

#[test]
fn plan_joins_root_relative_directory_and_name() {
    let mut server = server_with("movies", "/library/movies");
    server.root_path = Some("/mnt/staging".to_string());
    server.path_prefix = Some("/data/downloads".to_string());
    let torrent = torrent("/data/downloads/movies", "Movie.mkv", "movies", "h1");
    match plan_relocation(&server, &torrent) {
        Some(Ok(plan)) => {
            assert_eq!(plan.source, "/mnt/staging/movies/Movie.mkv");
            assert_eq!(plan.destination, "/library/movies/Movie.mkv");
        }
        other => panic!("no plan: {:?}", other),
    }
}

#[test]
fn missing_source() {
    let torrent_client = TorrentClient::new(server_with("movies", "/dest"));
    let mut job = move_and_clean_torrent_files(&torrent_client, &torrent("/src", "A", "movies", "h1"));
    job.step(probed(SourceKind::Missing, false));
    assert_eq!(
        job.outcome(),
        Some(Outcome::Failed(TorrentError::Relocate(RelocateError::SourceNotFound)))
    );
    assert_eq!(job.pending(), None);
}

#[test]
fn missing_source_is_reported_even_where_the_destination_exists() {
    let torrent_client = TorrentClient::new(server_with("movies", "/dest"));
    let mut job = move_and_clean_torrent_files(&torrent_client, &torrent("/src", "A", "movies", "h1"));
    job.step(probed(SourceKind::Missing, true));
    assert_eq!(
        job.outcome(),
        Some(Outcome::Failed(TorrentError::Relocate(RelocateError::SourceNotFound)))
    );
}

#[test]
fn unsupported_source_type() {
    let torrent_client = TorrentClient::new(server_with("movies", "/dest"));
    let mut job = move_and_clean_torrent_files(&torrent_client, &torrent("/src", "A", "movies", "h1"));
    job.step(probed(SourceKind::Other, false));
    assert_eq!(
        job.outcome(),
        Some(Outcome::Failed(TorrentError::Relocate(RelocateError::UnsupportedSourceType)))
    );
    assert_eq!(job.pending(), None);
}

#[test]
fn existing_destination_is_not_overwritten() {
    let torrent_client = TorrentClient::new(server_with("movies", "/dest"));
    for kind in [SourceKind::File, SourceKind::Directory] {
        let mut job =
            move_and_clean_torrent_files(&torrent_client, &torrent("/src", "A", "movies", "h1"));
        job.step(probed(kind, true));
        assert_eq!(
            job.outcome(),
            Some(Outcome::Failed(TorrentError::Relocate(RelocateError::DestinationExists)))
        );
        assert_eq!(job.pending(), None);
    }
}

#[test]
fn failed_copy_leaves_source_and_server_alone() {
    let torrent_client = TorrentClient::new(server_with("movies", "/dest"));
    let mut job = move_and_clean_torrent_files(&torrent_client, &torrent("/src", "A", "movies", "h1"));
    job.step(probed(SourceKind::File, false));
    job.step(copied(false));
    assert_eq!(
        job.outcome(),
        Some(Outcome::Failed(TorrentError::Relocate(RelocateError::CopyFailed)))
    );
    assert_eq!(job.pending(), None);
}

#[test]
fn partial_move_does_not_reach_the_server() {
    let torrent_client = TorrentClient::new(server_with("movies", "/dest"));
    let mut job = move_and_clean_torrent_files(&torrent_client, &torrent("/src", "A", "movies", "h1"));
    job.step(probed(SourceKind::File, false));
    job.step(copied(true));
    assert_eq!(
        job.pending(),
        Some(Action::Remove { kind: CopyKind::File, source: "/src/A".to_string() })
    );
    job.step(removed(false));
    assert_eq!(
        job.outcome(),
        Some(Outcome::Failed(TorrentError::Relocate(RelocateError::PartialMove)))
    );
    assert_eq!(job.pending(), None);
    job.step(JobEvent::RemoteDeleted(Ok(())));
    assert_eq!(
        job.outcome(),
        Some(Outcome::Failed(TorrentError::Relocate(RelocateError::PartialMove)))
    );
}

#[test]
fn failed_remote_delete_is_reported_after_the_move() {
    let torrent_client = TorrentClient::new(server_with("movies", "/dest"));
    let mut job = move_and_clean_torrent_files(&torrent_client, &torrent("/src", "A", "movies", "h1"));
    job.step(probed(SourceKind::File, false));
    job.step(copied(true));
    job.step(removed(true));
    assert_eq!(job.phase(), JobPhase::Deleting);
    assert_eq!(job.pending(), Some(Action::DeleteRemote { hash: "h1".to_string() }));
    job.step(JobEvent::RemoteDeleted(Err(ClientError::Transport)));
    assert_eq!(
        job.outcome(),
        Some(Outcome::Failed(TorrentError::RemoteDelete(ClientError::Transport)))
    );
    assert_eq!(job.pending(), None);
}

#[test]
fn events_that_answer_nothing_change_nothing() {
    let torrent_client = TorrentClient::new(server_with("movies", "/dest"));
    let mut job = move_and_clean_torrent_files(&torrent_client, &torrent("/src", "A", "movies", "h1"));
    let probe = Action::Probe { source: "/src/A".to_string(), destination: "/dest/A".to_string() };
    assert_eq!(job.phase(), JobPhase::Moving(Relocation::Probing));
    job.step(copied(true));
    job.step(removed(true));
    job.step(JobEvent::RemoteDeleted(Ok(())));
    assert_eq!(job.phase(), JobPhase::Moving(Relocation::Probing));
    assert_eq!(job.pending(), Some(probe));

    job.step(probed(SourceKind::File, false));
    job.step(probed(SourceKind::Missing, false));
    job.step(removed(true));
    assert_eq!(job.phase(), JobPhase::Moving(Relocation::Copying(CopyKind::File)));
}

#[test]
fn status_asks_until_the_job_has_ended() {
    let torrent_client = TorrentClient::new(server_with("movies", "/dest"));
    let mut job = move_and_clean_torrent_files(&torrent_client, &torrent("/src", "A", "movies", "h1"));
    assert_eq!(
        job.status(),
        JobStatus::Asks(Action::Probe {
            source: "/src/A".to_string(),
            destination: "/dest/A".to_string()
        })
    );
    job.step(probed(SourceKind::File, false));
    job.step(copied(true));
    job.step(removed(true));
    assert_eq!(job.status(), JobStatus::Asks(Action::DeleteRemote { hash: "h1".to_string() }));
    job.step(JobEvent::RemoteDeleted(Ok(())));
    assert_eq!(job.status(), JobStatus::Ended(Outcome::Relocated));

    let skipped = move_and_clean_torrent_files(&torrent_client, &torrent("/src", "A", "music", "h1"));
    assert_eq!(skipped.status(), JobStatus::Ended(Outcome::Skipped));
}
