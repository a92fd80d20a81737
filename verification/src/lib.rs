//! Decision core of a daemon that moves the finished downloads of qBittorrent
//! servers into per-category directories.
//!
//! The daemon polls its servers again and again. For each server that is up
//! it lists the finished downloads, moves the data of each download whose
//! category has a directory, and then asks the server to forget the download.
//!
//! This library decides and does not act. It neither sends a request nor
//! touches a file: it says what is to be done next and is told what came of
//! it. Whoever uses it sends the requests, copies and deletes the files, and
//! waits.
//!
//! - [`config`]: the settings, and the table of categories.
//! - [`logger`]: the size at which the log is rotated.
//! - [`paths`]: from the path a server reports to the local source and
//!   destination.
//! - [`relocate`]: the move of one download, between the file operations.
//! - [`torrent`]: the requests to a server, and the job of one download.
//! - [`reconcile`]: the pass over one server.
//! - [`fleet`]: the pass over all servers.
//! - [`scheduler`]: passes and pauses until the daemon is told to stop.
//! - [`world`]: what a job achieves on a disk and a server that do what they
//!   are asked.

pub mod config;
pub mod fleet;
pub mod logger;
pub mod paths;
pub mod reconcile;
pub mod relocate;
pub mod scheduler;
pub mod torrent;
pub mod world;
