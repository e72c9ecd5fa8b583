//! A model of the build-output cache: which build-output directory sits in
//! the process-wide cache slot and which in the project, as the session's
//! actions move them, with no other evaluation running at the same time.
use vstd::prelude::*;
use crate::session::{Action, Event, Session, Status, next_spec, start_spec};

verus! {

/// The build-output directories, each named by an identity: the one in the
/// cache slot and the one in the project, where there is one.
pub struct CacheState {
    pub slot: Option<int>,
    pub project: Option<int>,
}

/// What an action does to the directories, and the event it reports. `build`
/// and `run` are how the build tool and the program end; `fresh` names the
/// directory created where the slot is empty.
pub open spec fn perform_spec(
    fs: CacheState,
    a: Action,
    build: Status,
    run: Status,
    fresh: int,
) -> (CacheState, Event) {
    match a {
        Action::PrimeCache => (
            CacheState {
                slot: None,
                project: Some(
                    match fs.slot {
                        Some(d) => d,
                        None => fresh,
                    },
                ),
            },
            Event::Primed,
        ),
        Action::Build => (fs, Event::Built(build)),
        Action::Run => (fs, Event::Ran(run)),
        Action::CheckSlot => (fs, Event::SlotChecked(fs.slot is Some)),
        Action::SaveCache => (CacheState { slot: fs.project, project: None }, Event::Saved),
        Action::Finish(_) => (fs, Event::Saved),
    }
}

/// The directories and the last action after at most `fuel` actions, from
/// session `s` about to perform `a`; stops at `Finish`.
pub open spec fn drive(
    s: Session,
    a: Action,
    fs: CacheState,
    build: Status,
    run: Status,
    fresh: int,
    fuel: nat,
) -> (CacheState, Action)
    decreases fuel,
{
    if fuel == 0 || a is Finish {
        (fs, a)
    } else {
        let (fs2, e) = perform_spec(fs, a, build, run, fresh);
        let (s2, a2) = next_spec(s, e);
        drive(s2, a2, fs2, build, run, fresh, (fuel - 1) as nat)
    }
}

/// The directories and the final action after a whole evaluation that starts
/// with a fresh project, so without a build-output directory of its own.
pub open spec fn invocation(slot: Option<int>, build: Status, run: Status, fresh: int) -> (
    CacheState,
    Action,
) {
    drive(
        start_spec().0,
        start_spec().1,
        CacheState { slot, project: None },
        build,
        run,
        fresh,
        6,
    )
}

/// An evaluation that finds the cache slot empty leaves it filled; the next
/// one starts from that directory and leaves the slot filled with it again.
/// Either one finishes, whatever the build and the program did.
pub proof fn lemma_cache_round_trip(
    build1: Status,
    run1: Status,
    build2: Status,
    run2: Status,
    fresh1: int,
    fresh2: int,
)
    ensures
        invocation(None, build1, run1, fresh1).0.slot == Some(fresh1),
        invocation(None, build1, run1, fresh1).1 is Finish,
        start_spec().1 == Action::PrimeCache,
        perform_spec(
            CacheState { slot: Some(fresh1), project: None },
            Action::PrimeCache,
            build2,
            run2,
            fresh2,
        ).0.project == Some(fresh1),
        invocation(Some(fresh1), build2, run2, fresh2).0.slot == Some(fresh1),
        invocation(Some(fresh1), build2, run2, fresh2).1 is Finish,
{
    reveal_with_fuel(drive, 7);
}

} // verus!
