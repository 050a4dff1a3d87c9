//! Synchronisation engine for mirroring a remote file-hosting service
//! (an Alist server) into a local directory tree.
//!
//! The library holds the decisions of the engine, each with a contract
//! that Verus proves: the shapes of the service's requests and replies,
//! the breadth-first crawl of the remote tree, the per-file download task
//! with its checksum checks and retries, and the reconciliation of the
//! local tree against the crawl.  The network, the disk and the clock are
//! driven from outside: the caller performs the action a state machine
//! asks for and hands back what happened.

pub mod api;
pub mod checksum;
pub mod config;
pub mod crawl;
pub mod crypto;
pub mod download;
pub mod external;
pub mod paths;
pub mod plan;
pub mod reconcile;
pub mod retry;
pub mod text;
pub mod types;

pub use types::{
    is_metadata_file, is_streamable_file, ApiData, ApiResponse, EntryInfo, EntryWithPath,
    FileInfo, FileInfoRequest, FoldersInfo, HashObject,
};
