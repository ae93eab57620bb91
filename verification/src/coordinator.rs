//! The launch coordinator: the entry point invoked when a tile is activated.
//!
//! It gates on the current status (at most one in-flight launch per entry),
//! resolves the entry's launch descriptor into a concrete plan, and records
//! `Starting` or `FailedToLaunch`. Spawning the process and handing the live
//! handle to the monitor is left to the caller, which reports a failed spawn
//! back through `record_spawn_failure`.

use vstd::prelude::*;

use crate::catalog::{has_exec_target, has_launch_target, Game, Launcher};
use crate::status::{LaunchError, LaunchStatus, StatusStore};

verus! {

/// A fully resolved way to start an entry's process.
#[derive(Debug, PartialEq, Eq)]
pub enum LaunchPlan {
    /// Run `command_path` with `args`, with `working_dir` as the working
    /// directory.
    Exec { command_path: String, working_dir: String, args: Vec<String> },
    /// Hand `url` to the platform URL handler; the spawned process is
    /// expected to exit near-immediately while a companion client runs the
    /// actual game.
    Url { url: String },
}

/// What `activate` decided for the entry.
pub enum ActivateDecision {
    /// The entry is already `Starting` or `Running`: nothing was written,
    /// nothing must be spawned.
    InFlight,
    /// `Starting` was recorded; the caller must spawn the plan's process and
    /// hand it to the monitor.
    Launch(LaunchPlan),
    /// The entry has no launch target; `FailedToLaunch` was recorded and
    /// nothing must be spawned.
    NoTarget,
}

/// The ownership context a spawned process handle travels with to the
/// monitor: which source launched it and under what source-specific id, so
/// the monitor can run a post-exit liveness probe.
pub struct Launched {
    pub launcher: Launcher,
    pub id: String,
}

/// Whether the store says a launch for index `i` is currently in flight:
/// `Starting` or `Running`.
pub open spec fn in_flight(m: Map<usize, LaunchStatus>, i: usize) -> bool {
    m.contains_key(i) && (m[i] is Starting || m[i] is Running)
}

/// A path joined from a base directory and a relative part by the platform
/// separator.
pub open spec fn join_path(base: Seq<char>, sep: Seq<char>, rel: Seq<char>) -> Seq<char> {
    base + sep + rel
}

/// Whether `plan` is the launch plan that `g`'s descriptor resolves to, with
/// `sep` as the platform path separator: command resolved relative to the
/// install directory, working directory the install directory joined with the
/// override subdirectory if present, else the install directory itself; a
/// launch URL only when no directory-plus-command is available.
pub open spec fn plan_for(g: Game, sep: Seq<char>, plan: LaunchPlan) -> bool {
    if has_exec_target(g) {
        &&& plan matches LaunchPlan::Exec { command_path, working_dir, args }
        &&& command_path@ == join_path(g.install_directory.unwrap()@, sep, g.command.unwrap()@)
        &&& working_dir@ == match g.working_subdir_override {
            Some(w) => join_path(g.install_directory.unwrap()@, sep, w@),
            None => g.install_directory.unwrap()@,
        }
        &&& args.deep_view() == match g.args {
            Some(a) => a.deep_view(),
            None => Seq::<Seq<char>>::empty(),
        }
    } else if g.launch_url is Some {
        plan matches LaunchPlan::Url { url } && url@ == g.launch_url.unwrap()@
    } else {
        false
    }
}

/// A copy of `v` with every element's characters preserved.
fn clone_string_vec(v: &Vec<String>) -> (r: Vec<String>)
    ensures
        r.deep_view() == v.deep_view(),
{
    let mut r: Vec<String> = Vec::new();
    let mut k: usize = 0;
    while k < v.len()
        invariant
            0 <= k <= v@.len(),
            r@.len() == k,
            forall|n: int| 0 <= n < k ==> r@[n]@ == v@[n]@,
        decreases v@.len() - k,
    {
        r.push(v[k].clone());
        k += 1;
    }
    proof {
        assert(r.deep_view() =~= v.deep_view());
    }
    r
}

/// `base`, the separator, then `rel`, as one path string.
fn join(base: &String, sep: &str, rel: &String) -> (r: String)
    ensures
        r@ == join_path(base@, sep@, rel@),
{
    let mut r = base.clone();
    r.append(sep);
    r.append(rel.as_str());
    r
}

/// Resolves `g`'s launch descriptor into a concrete plan, with `sep` as the
/// platform path separator. Returns `Err(MissingLaunchTarget)` exactly when
/// the entry has neither an install directory plus command nor a launch URL.
pub fn launch_plan(g: &Game, sep: &str) -> (r: Result<LaunchPlan, LaunchError>)
    ensures
        match r {
            Ok(plan) => has_launch_target(*g) && plan_for(*g, sep@, plan),
            Err(e) => !has_launch_target(*g) && e == LaunchError::MissingLaunchTarget,
        },
{
    if g.install_directory.is_some() && g.command.is_some() {
        let d = g.install_directory.as_ref().unwrap();
        let c = g.command.as_ref().unwrap();
        let command_path = join(d, sep, c);
        let working_dir = match &g.working_subdir_override {
            Some(w) => join(d, sep, w),
            None => d.clone(),
        };
        let args = match &g.args {
            Some(a) => clone_string_vec(a),
            None => Vec::new(),
        };
        proof {
            if g.args is None {
                assert(args.deep_view() =~= Seq::<Seq<char>>::empty());
            }
        }
        Ok(LaunchPlan::Exec { command_path, working_dir, args })
    } else if g.launch_url.is_some() {
        Ok(LaunchPlan::Url { url: g.launch_url.as_ref().unwrap().clone() })
    } else {
        Err(LaunchError::MissingLaunchTarget)
    }
}

/// Activates catalog entry `game` at index `i`: a no-op while a launch is
/// already in flight; otherwise records `Starting` and returns the plan to
/// spawn, or records `FailedToLaunch(MissingLaunchTarget)` when the entry has
/// no launch target.
pub fn activate(store: &mut StatusStore, game: &Game, i: usize, sep: &str) -> (d:
    ActivateDecision)
    ensures
        in_flight(old(store)@, i) ==> d is InFlight && final(store)@ == old(store)@,
        !in_flight(old(store)@, i) && has_launch_target(*game) ==> {
            &&& d matches ActivateDecision::Launch(plan)
            &&& plan_for(*game, sep@, plan)
            &&& final(store)@ == old(store)@.insert(i, LaunchStatus::Starting)
        },
        !in_flight(old(store)@, i) && !has_launch_target(*game) ==> {
            &&& d is NoTarget
            &&& final(store)@ == old(store)@.insert(
                i,
                LaunchStatus::FailedToLaunch(LaunchError::MissingLaunchTarget),
            )
        },
{
    match store.get(i) {
        Some(LaunchStatus::Starting) | Some(LaunchStatus::Running) => {
            return ActivateDecision::InFlight;
        },
        _ => {},
    }
    match launch_plan(game, sep) {
        Ok(plan) => {
            store.set(i, LaunchStatus::Starting);
            ActivateDecision::Launch(plan)
        },
        Err(e) => {
            store.set(i, LaunchStatus::FailedToLaunch(e));
            ActivateDecision::NoTarget
        },
    }
}

/// Records that the operating system refused to spawn the planned process:
/// the launch for `i` ends in `FailedToLaunch(SpawnFailure)` and nothing is
/// handed to the monitor.
pub fn record_spawn_failure(store: &mut StatusStore, i: usize)
    ensures
        final(store)@ == old(store)@.insert(
            i,
            LaunchStatus::FailedToLaunch(LaunchError::SpawnFailure),
        ),
{
    store.set(i, LaunchStatus::FailedToLaunch(LaunchError::SpawnFailure));
}

/// Activating an entry twice in immediate succession spawns exactly one
/// process: a launching activation writes `Starting`, which leaves the store
/// in flight at `i`, and by `activate`'s contract an in-flight activation
/// returns `InFlight`, writes nothing and asks for no spawn. The same holds
/// once the monitor has upgraded the entry to `Running`.
pub proof fn lemma_second_activate_is_noop(m: Map<usize, LaunchStatus>, i: usize)
    ensures
        in_flight(m.insert(i, LaunchStatus::Starting), i),
        in_flight(m.insert(i, LaunchStatus::Running), i),
{
}

} // verus!
