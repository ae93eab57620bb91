//! The catalog data model: one `Game` record per title, aggregated from
//! several distribution sources.
//!
//! A record's `id` is assigned by its source and is the sole key the merge
//! engine matches on. The fields `kids`, `hidden`, `players` and `image_path`
//! are owned by the user (or by the local image cache) and are never
//! overwritten by source data; everything else is replaced wholesale on each
//! refresh.

use vstd::prelude::*;

verus! {

/// Where a tile image comes from: a remote URL to download, or a path already
/// on disk.
#[derive(Clone, PartialEq, Eq, Debug)]
pub enum ImageSource {
    Url(String),
    Path(String),
}

/// The distribution source a record came from, which also selects the launch
/// and liveness-probe behaviour for that record.
#[derive(Clone, Copy, PartialEq, Eq, Structural, Debug, Hash)]
pub enum Launcher {
    Steam,
    Twitch,
    Epic,
    Unknown,
}

impl Default for Launcher {
    fn default() -> (r: Self)
        ensures
            r == Launcher::Unknown,
    {
        Launcher::Unknown
    }
}

/// One catalog entry.
#[derive(Debug, PartialEq, Eq)]
pub struct Game {
    /// Stable source-assigned identifier; the merge key.
    pub id: String,
    pub title: String,
    /// Where the cached tile image lives on disk, once downloaded.
    pub image_path: Option<String>,
    pub image_src: ImageSource,
    pub installed: bool,
    /// User-owned tri-state: suitable for the kids (`Some(true)`), not
    /// (`Some(false)`), or not yet decided (`None`).
    pub kids: Option<bool>,
    /// User-owned; a hidden entry is kept but never displayed.
    pub hidden: Option<bool>,
    /// User-owned player count annotation.
    pub players: Option<usize>,
    pub launch_url: Option<String>,
    pub install_directory: Option<String>,
    pub working_subdir_override: Option<String>,
    pub command: Option<String>,
    pub args: Option<Vec<String>>,
    pub launcher: Launcher,
}

/// Whether the record carries an install directory plus a command, the
/// preferred way to launch it.
pub open spec fn has_exec_target(g: Game) -> bool {
    g.install_directory is Some && g.command is Some
}

/// Whether the record can be launched at all: by directory plus command, or by
/// handing a URL to the platform URL handler.
pub open spec fn has_launch_target(g: Game) -> bool {
    has_exec_target(g) || g.launch_url is Some
}

} // verus!
