//! The steps of one evaluation, decided from what came of the previous ones:
//! seed the project with the cached build output, build, run the program if
//! the build succeeded, put the build output back into the cache slot if that
//! slot is still empty, and end with the exit code of the last process.
//!
//! The caller performs each action and reports what came of it as an event.
use vstd::prelude::*;

verus! {

/// The name of the generated package and of the program it builds.
pub const PROJECT_NAME: &'static str = "evalrs_temp";

/// How a child process ended.
#[derive(Debug, Clone, Copy, PartialEq, Eq, Structural)]
pub struct Status {
    /// Whether it exited with code zero.
    pub success: bool,
    /// Its exit code; `None` where it was ended by a signal.
    pub code: Option<i32>,
}

/// How the evaluator ends.
#[derive(Debug, Clone, Copy, PartialEq, Eq, Structural)]
pub enum Outcome {
    /// Every process succeeded: end normally.
    Success,
    /// A process failed with this code: exit with it.
    Code(i32),
    /// A process failed without an exit code: report it and exit with 1.
    NoCode,
}

/// What the caller is to do next.
#[derive(Debug, Clone, Copy, PartialEq, Eq, Structural)]
pub enum Action {
    /// Create the cache slot's build-output directory if absent, then move it
    /// into the project as its build-output directory.
    PrimeCache,
    /// Run the build tool in the project, with `build_args`.
    Build,
    /// Run the built program, found under `profile_dir`.
    Run,
    /// Look whether the cache slot holds a build-output directory.
    CheckSlot,
    /// Move the project's build-output directory into the cache slot.
    SaveCache,
    /// End the evaluation.
    Finish(Outcome),
}

/// What came of the last action.
#[derive(Debug, Clone, Copy, PartialEq, Eq, Structural)]
pub enum Event {
    /// The cached build output is in the project.
    Primed,
    /// The build tool ended.
    Built(Status),
    /// The built program ended.
    Ran(Status),
    /// The cache slot was looked at; `true` where it is occupied.
    SlotChecked(bool),
    /// The build output is back in the cache slot.
    Saved,
}

/// Where an evaluation stands.
#[derive(Debug, Clone, Copy, PartialEq, Eq, Structural)]
pub enum Phase {
    Priming,
    Building,
    Running,
    Checking,
    Saving,
    Done,
}

/// An evaluation in progress.
#[derive(Debug, Clone, Copy, PartialEq, Eq, Structural)]
pub struct Session {
    /// The step awaiting its event.
    pub phase: Phase,
    /// How the last process ended.
    pub status: Status,
}

/// How the evaluator ends after a process ended so.
pub open spec fn outcome_spec(s: Status) -> Outcome {
    if s.success {
        Outcome::Success
    } else {
        match s.code {
            Some(c) => Outcome::Code(c),
            None => Outcome::NoCode,
        }
    }
}

/// The exit code of the evaluator for an outcome.
pub open spec fn exit_code_spec(o: Outcome) -> int {
    match o {
        Outcome::Success => 0,
        Outcome::Code(c) => c as int,
        Outcome::NoCode => 1,
    }
}

/// The session before any step, and the action it starts with.
pub open spec fn start_spec() -> (Session, Action) {
    (
        Session { phase: Phase::Priming, status: Status { success: true, code: Some(0) } },
        Action::PrimeCache,
    )
}

/// The action that a session in this phase awaits the event of.
pub open spec fn pending_spec(s: Session) -> Action {
    match s.phase {
        Phase::Priming => Action::PrimeCache,
        Phase::Building => Action::Build,
        Phase::Running => Action::Run,
        Phase::Checking => Action::CheckSlot,
        Phase::Saving => Action::SaveCache,
        Phase::Done => Action::Finish(outcome_spec(s.status)),
    }
}

/// The next session and action after an event. An event that the phase does
/// not await leaves the session as it is and repeats its action.
pub open spec fn next_spec(s: Session, e: Event) -> (Session, Action) {
    match (s.phase, e) {
        (Phase::Priming, Event::Primed) => (Session { phase: Phase::Building, ..s }, Action::Build),
        (Phase::Building, Event::Built(st)) => if st.success {
            (Session { phase: Phase::Running, status: st }, Action::Run)
        } else {
            (Session { phase: Phase::Checking, status: st }, Action::CheckSlot)
        },
        (Phase::Running, Event::Ran(st)) => (
            Session { phase: Phase::Checking, status: st },
            Action::CheckSlot,
        ),
        (Phase::Checking, Event::SlotChecked(occupied)) => if occupied {
            (Session { phase: Phase::Done, ..s }, Action::Finish(outcome_spec(s.status)))
        } else {
            (Session { phase: Phase::Saving, ..s }, Action::SaveCache)
        },
        (Phase::Saving, Event::Saved) => (
            Session { phase: Phase::Done, ..s },
            Action::Finish(outcome_spec(s.status)),
        ),
        _ => (s, pending_spec(s)),
    }
}

/// How the evaluator ends after a process ended with this status.
pub fn exit_outcome(s: Status) -> (r: Outcome)
    ensures
        r == outcome_spec(s),
{
    if s.success {
        Outcome::Success
    } else {
        match s.code {
            Some(c) => Outcome::Code(c),
            None => Outcome::NoCode,
        }
    }
}

/// The exit code of the evaluator for an outcome.
pub fn exit_code(o: Outcome) -> (r: i32)
    ensures
        r as int == exit_code_spec(o),
{
    match o {
        Outcome::Success => 0,
        Outcome::Code(c) => c,
        Outcome::NoCode => 1,
    }
}

impl Session {
    /// A new evaluation, and its first action.
    pub fn start() -> (r: (Session, Action))
        ensures
            r == start_spec(),
    {
        (
            Session { phase: Phase::Priming, status: Status { success: true, code: Some(0) } },
            Action::PrimeCache,
        )
    }

    /// The action this session awaits the event of.
    pub fn pending(&self) -> (r: Action)
        ensures
            r == pending_spec(*self),
    {
        match self.phase {
            Phase::Priming => Action::PrimeCache,
            Phase::Building => Action::Build,
            Phase::Running => Action::Run,
            Phase::Checking => Action::CheckSlot,
            Phase::Saving => Action::SaveCache,
            Phase::Done => Action::Finish(exit_outcome(self.status)),
        }
    }

    /// Takes the event of the last action and returns the next action.
    pub fn step(&mut self, e: Event) -> (r: Action)
        ensures
            (*final(self), r) == next_spec(*old(self), e),
    {
        match (self.phase, e) {
            (Phase::Priming, Event::Primed) => {
                self.phase = Phase::Building;
                Action::Build
            },
            (Phase::Building, Event::Built(st)) => {
                self.status = st;
                if st.success {
                    self.phase = Phase::Running;
                    Action::Run
                } else {
                    self.phase = Phase::Checking;
                    Action::CheckSlot
                }
            },
            (Phase::Running, Event::Ran(st)) => {
                self.status = st;
                self.phase = Phase::Checking;
                Action::CheckSlot
            },
            (Phase::Checking, Event::SlotChecked(occupied)) => {
                if occupied {
                    self.phase = Phase::Done;
                    Action::Finish(exit_outcome(self.status))
                } else {
                    self.phase = Phase::Saving;
                    Action::SaveCache
                }
            },
            (Phase::Saving, Event::Saved) => {
                self.phase = Phase::Done;
                Action::Finish(exit_outcome(self.status))
            },
            _ => self.pending(),
        }
    }
}

/// The arguments of the build tool: `build`, then `--quiet` and `--release`
/// where asked for.
pub open spec fn build_args_spec(quiet: bool, release: bool) -> Seq<Seq<char>> {
    seq!["build"@] + (if quiet { seq!["--quiet"@] } else { Seq::empty() }) + (if release {
        seq!["--release"@]
    } else {
        Seq::empty()
    })
}

/// The arguments of the build tool.
pub fn build_args(quiet: bool, release: bool) -> (r: Vec<String>)
    ensures
        r@.map_values(|a: String| a@) == build_args_spec(quiet, release),
{
    let mut v: Vec<String> = Vec::new();
    v.push("build".to_owned());
    if quiet {
        v.push("--quiet".to_owned());
    }
    if release {
        v.push("--release".to_owned());
    }
    assert(v@.map_values(|a: String| a@) =~= build_args_spec(quiet, release));
    v
}

/// The directory, under the build output, of the profile built.
pub fn profile_dir(release: bool) -> (r: &'static str)
    ensures
        r@ == (if release { "release"@ } else { "debug"@ }),
{
    if release {
        "release"
    } else {
        "debug"
    }
}

} // verus!
