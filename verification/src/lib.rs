//! A unified launcher for common game libraries: a persisted catalog of games
//! aggregated from several distribution sources, a merge engine that folds
//! freshly discovered entries into the catalog without clobbering user-owned
//! fields, and a launch-status engine that tracks spawned game processes from
//! `Starting` through `Running` to `Success` or `Error`.

pub mod catalog;
pub mod coordinator;
pub mod merge;
pub mod monitor;
pub mod numfmt;
pub mod providers;
pub mod status;
pub mod ui;
