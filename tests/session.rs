use evalrs::session::{
    build_args, exit_code, exit_outcome, profile_dir, Action, Event, Outcome, Phase, Session,
    Status,
};

const OK: Status = Status { success: true, code: Some(0) };

#[test]
fn successful_run_with_empty_slot_saves_cache() {
    let (mut s, a) = Session::start();
    assert_eq!(a, Action::PrimeCache);
    assert_eq!(s.step(Event::Primed), Action::Build);
    assert_eq!(s.step(Event::Built(OK)), Action::Run);
    assert_eq!(s.step(Event::Ran(OK)), Action::CheckSlot);
    assert_eq!(s.step(Event::SlotChecked(false)), Action::SaveCache);
    assert_eq!(s.step(Event::Saved), Action::Finish(Outcome::Success));
    assert_eq!(s.phase, Phase::Done);
}

#[test]
fn failed_build_skips_run_and_keeps_code() {
    let (mut s, _) = Session::start();
    s.step(Event::Primed);
    let failed = Status { success: false, code: Some(101) };
    assert_eq!(s.step(Event::Built(failed)), Action::CheckSlot);
    assert_eq!(s.step(Event::SlotChecked(true)), Action::Finish(Outcome::Code(101)));
}

#[test]
fn program_failure_is_propagated() {
    let (mut s, _) = Session::start();
    s.step(Event::Primed);
    s.step(Event::Built(OK));
    s.step(Event::Ran(Status { success: false, code: Some(3) }));
    assert_eq!(s.step(Event::SlotChecked(false)), Action::SaveCache);
    assert_eq!(s.step(Event::Saved), Action::Finish(Outcome::Code(3)));
}

#[test]
fn signal_ending_gives_no_code() {
    let (mut s, _) = Session::start();
    s.step(Event::Primed);
    s.step(Event::Built(OK));
    s.step(Event::Ran(Status { success: false, code: None }));
    assert_eq!(s.step(Event::SlotChecked(true)), Action::Finish(Outcome::NoCode));
    assert_eq!(exit_code(Outcome::NoCode), 1);
}

#[test]
fn unexpected_event_repeats_action() {
    let (mut s, _) = Session::start();
    assert_eq!(s.step(Event::Saved), Action::PrimeCache);
    assert_eq!(s.phase, Phase::Priming);
    s.step(Event::Primed);
    assert_eq!(s.step(Event::Ran(OK)), Action::Build);
}

#[test]
fn cache_round_trip_over_two_runs() {
    // The slot is a single directory that moves between the cache and the project.
    let mut slot: Option<u32> = None;
    for run in 0..2u32 {
        let mut project: Option<u32> = None;
        let (mut s, mut a) = Session::start();
        let mut used = None;
        loop {
            let e = match a {
                Action::PrimeCache => {
                    project = Some(slot.take().unwrap_or(run + 10));
                    used = project;
                    Event::Primed
                }
                Action::Build => Event::Built(OK),
                Action::Run => Event::Ran(OK),
                Action::CheckSlot => Event::SlotChecked(slot.is_some()),
                Action::SaveCache => {
                    slot = project.take();
                    Event::Saved
                }
                Action::Finish(o) => {
                    assert_eq!(o, Outcome::Success);
                    break;
                }
            };
            a = s.step(e);
        }
        assert_eq!(used, Some(10));
        assert_eq!(slot, Some(10));
    }
}

#[test]
fn outcomes_and_codes() {
    assert_eq!(exit_outcome(OK), Outcome::Success);
    assert_eq!(exit_outcome(Status { success: false, code: Some(2) }), Outcome::Code(2));
    assert_eq!(exit_outcome(Status { success: false, code: None }), Outcome::NoCode);
    assert_eq!(exit_code(Outcome::Success), 0);
    assert_eq!(exit_code(Outcome::Code(7)), 7);
}

#[test]
fn build_arguments_and_profile() {
    assert_eq!(build_args(false, false), vec!["build".to_string()]);
    assert_eq!(build_args(true, false), vec!["build", "--quiet"]);
    assert_eq!(build_args(true, true), vec!["build", "--quiet", "--release"]);
    assert_eq!(build_args(false, true), vec!["build", "--release"]);
    assert_eq!(profile_dir(true), "release");
    assert_eq!(profile_dir(false), "debug");
}
