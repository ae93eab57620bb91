//! The launch monitor: the background worker that tracks every in-flight
//! launch to completion.
//!
//! Per tracked entry the states run `Starting` then `Running` then `Success`
//! or `Error(code)`. The caller owns the raw process handles and performs the
//! non-blocking exit checks and liveness probes; this module makes every
//! decision: how an exit observation classifies, what a probe outcome means,
//! and how a verdict updates the active set and the status store.

use vstd::prelude::*;

use crate::catalog::Launcher;
use crate::coordinator::Launched;
use crate::status::{LaunchStatus, StatusStore};

verus! {

broadcast use vstd::std_specs::hash::group_hash_axioms;

/// The sentinel exit code recorded when a liveness probe could not be
/// evaluated.
pub const PROBE_FAILURE_CODE: i32 = 1;

/// A non-blocking exit check on a spawned process: still running, or exited
/// with this code (`0` is success).
#[derive(Clone, Copy, PartialEq, Eq, Structural, Debug)]
pub enum ExitCheck {
    StillRunning,
    Exited(i32),
}

/// What a liveness probe reports of a title launched through a companion
/// client: its externally visible running indicator is still set, or cleared.
#[derive(Clone, Copy, PartialEq, Eq, Structural, Debug)]
pub enum ProbeResult {
    StillActive,
    Inactive,
}

/// The probe could not be evaluated at all.
#[derive(Clone, Copy, PartialEq, Eq, Structural, Debug)]
pub struct ProbeFailure;

/// The monitor's verdict for one poll pass over one tracked entry.
#[derive(Clone, Copy, PartialEq, Eq, Structural, Debug)]
pub enum PollVerdict {
    /// The launch is still live: status becomes `Running` and the entry stays
    /// in the active set.
    Stay,
    /// The launch has settled: this terminal status is recorded and the entry
    /// leaves the active set.
    Leave(LaunchStatus),
}

/// What an exit check alone determines: a final verdict, or that a liveness
/// probe must be consulted first.
#[derive(Clone, Copy, PartialEq, Eq, Structural, Debug)]
pub enum ExitClass {
    Decided(PollVerdict),
    ProbeNeeded,
}

/// Whether a successful exit of `l`'s trampoline process says nothing yet and
/// the companion client must be probed: only Steam launches hand off to a
/// companion client.
pub open spec fn probe_required(l: Launcher, exit: ExitCheck) -> bool {
    &&& l is Steam
    &&& exit matches ExitCheck::Exited(c)
    &&& c == 0
}

/// How one exit observation classifies: still running means the launch is
/// live; a successful exit settles as `Success` unless the source needs a
/// probe; a nonzero exit settles as `Error` with that code.
pub open spec fn classify_exit_spec(l: Launcher, exit: ExitCheck) -> ExitClass {
    match exit {
        ExitCheck::StillRunning => ExitClass::Decided(PollVerdict::Stay),
        ExitCheck::Exited(c) => if c == 0 {
            if l is Steam {
                ExitClass::ProbeNeeded
            } else {
                ExitClass::Decided(PollVerdict::Leave(LaunchStatus::Success))
            }
        } else {
            ExitClass::Decided(PollVerdict::Leave(LaunchStatus::Error(c)))
        },
    }
}

/// Classifies a non-blocking exit check on the process of a launch from
/// source `l`.
pub fn classify_exit(l: &Launcher, exit: &ExitCheck) -> (r: ExitClass)
    ensures
        r == classify_exit_spec(*l, *exit),
        r is ProbeNeeded <==> probe_required(*l, *exit),
{
    match *exit {
        ExitCheck::StillRunning => ExitClass::Decided(PollVerdict::Stay),
        ExitCheck::Exited(c) => {
            if c == 0 {
                match *l {
                    Launcher::Steam => ExitClass::ProbeNeeded,
                    _ => ExitClass::Decided(PollVerdict::Leave(LaunchStatus::Success)),
                }
            } else {
                ExitClass::Decided(PollVerdict::Leave(LaunchStatus::Error(c)))
            }
        },
    }
}

/// What a probe outcome means for the launch: an indicator still set keeps it
/// `Running`, a cleared indicator settles it as `Success`, and a probe that
/// could not be evaluated settles it as `Error` with the sentinel code.
pub open spec fn interpret_probe_spec(p: Result<ProbeResult, ProbeFailure>) -> PollVerdict {
    match p {
        Ok(ProbeResult::StillActive) => PollVerdict::Stay,
        Ok(ProbeResult::Inactive) => PollVerdict::Leave(LaunchStatus::Success),
        Err(_) => PollVerdict::Leave(LaunchStatus::Error(PROBE_FAILURE_CODE)),
    }
}

/// Turns the outcome of a liveness probe into the poll verdict.
pub fn interpret_probe(p: &Result<ProbeResult, ProbeFailure>) -> (v: PollVerdict)
    ensures
        v == interpret_probe_spec(*p),
{
    match p {
        Ok(ProbeResult::StillActive) => PollVerdict::Stay,
        Ok(ProbeResult::Inactive) => PollVerdict::Leave(LaunchStatus::Success),
        Err(_) => PollVerdict::Leave(LaunchStatus::Error(PROBE_FAILURE_CODE)),
    }
}

/// Reads the companion client's per-title running indicator: the raw flag
/// value `1` means the title is still active, anything else means it has
/// terminated.
pub fn probe_from_flag(running: u32) -> (r: ProbeResult)
    ensures
        r == if running == 1 {
            ProbeResult::StillActive
        } else {
            ProbeResult::Inactive
        },
{
    if running == 1 {
        ProbeResult::StillActive
    } else {
        ProbeResult::Inactive
    }
}

/// The monitor's own transition table only keeps a launch `Running` or
/// settles it as `Success` or `Error`: neither an exit check nor a probe
/// outcome can ever produce `Starting` or `FailedToLaunch`, and a settled
/// verdict is never `Running`.
pub proof fn lemma_poll_verdicts_settle(
    l: Launcher,
    exit: ExitCheck,
    p: Result<ProbeResult, ProbeFailure>,
)
    ensures
        classify_exit_spec(l, exit) matches ExitClass::Decided(PollVerdict::Leave(s)) ==> (
        s is Success || s is Error),
        interpret_probe_spec(p) matches PollVerdict::Leave(s) ==> (s is Success || s is Error),
{
}

/// The monitor's record of every in-flight launch: for each catalog index,
/// the context needed to probe it after its trampoline exits. The caller
/// keeps the raw process handles under the same indices; an index is tracked
/// here exactly as long as its handle is still being polled.
pub struct ChildMonitor {
    active: std::collections::HashMap<usize, Launched>,
}

impl View for ChildMonitor {
    type V = Map<usize, Launched>;

    closed spec fn view(&self) -> Map<usize, Launched> {
        self.active@
    }
}

impl ChildMonitor {
    /// A monitor tracking nothing.
    pub fn new() -> (m: Self)
        ensures
            m@ == Map::<usize, Launched>::empty(),
    {
        ChildMonitor { active: std::collections::HashMap::new() }
    }

    /// How many launches are currently tracked.
    pub fn active_count(&self) -> (n: usize)
        ensures
            n == self@.dom().len(),
    {
        self.active.len()
    }

    /// Whether catalog index `i` is currently tracked.
    pub fn is_active(&self, i: usize) -> (r: bool)
        ensures
            r == self@.contains_key(i),
    {
        self.active.contains_key(&i)
    }

    /// The launch context recorded for catalog index `i`, if it is tracked.
    pub fn context_for(&self, i: usize) -> (r: Option<&Launched>)
        ensures
            match r {
                Some(l) => self@.contains_key(i) && *l == self@[i],
                None => !self@.contains_key(i),
            },
    {
        self.active.get(&i)
    }

    /// Takes ownership of a freshly handed-off launch: tracks its context
    /// under `i` and records `Starting`; the next poll pass upgrades it to
    /// `Running`.
    pub fn accept(&mut self, i: usize, launched: Launched, store: &mut StatusStore)
        ensures
            final(self)@ == old(self)@.insert(i, launched),
            final(store)@ == old(store)@.insert(i, LaunchStatus::Starting),
    {
        self.active.insert(i, launched);
        store.set(i, LaunchStatus::Starting);
    }

    /// Applies one poll verdict for tracked index `i`: `Stay` records
    /// `Running` and keeps the entry tracked; `Leave` records the terminal
    /// status and stops tracking `i`. A verdict for an index that is not
    /// tracked — in particular, one that already settled — changes nothing,
    /// so no later pass can revert a settled launch.
    pub fn apply_verdict(&mut self, i: usize, v: PollVerdict, store: &mut StatusStore)
        ensures
            !old(self)@.contains_key(i) ==> final(self)@ == old(self)@ && final(store)@ == old(
                store,
            )@,
            old(self)@.contains_key(i) && v == PollVerdict::Stay ==> final(self)@ == old(self)@
                && final(store)@ == old(store)@.insert(i, LaunchStatus::Running),
            old(self)@.contains_key(i) ==> (v matches PollVerdict::Leave(s) ==> {
                &&& final(self)@ == old(self)@.remove(i)
                &&& !final(self)@.contains_key(i)
                &&& final(store)@ == old(store)@.insert(i, s)
            }),
    {
        if !self.active.contains_key(&i) {
            return;
        }
        match v {
            PollVerdict::Stay => {
                store.set(i, LaunchStatus::Running);
            },
            PollVerdict::Leave(s) => {
                self.active.remove(&i);
                store.set(i, s);
            },
        }
    }
}

} // verus!
