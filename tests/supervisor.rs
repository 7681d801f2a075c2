use ufc::supervisor::{arg_start, Action, Event, Phase, Settings, Supervisor, GRACE_MILLIS};

fn settings(watch_millis: u64, time: bool) -> Settings {
    Settings {
        watch_millis,
        time,
        boost: false,
        nocolor: false,
        universal: false,
        subcommand_name: "ping".to_string(),
    }
}

#[test]
fn without_watch_one_cycle_then_exit_with_child_code() {
    let s = settings(0, false);
    let mut sup = Supervisor::new();
    assert_eq!(sup.step(&s, Event::Start), Action::Spawn { clear_screen: false });
    assert_eq!(sup.step(&s, Event::Spawned), Action::StartPumps);
    assert_eq!(sup.step(&s, Event::ChildExited(Some(3))), Action::JoinPumps);
    assert_eq!(sup.step(&s, Event::PumpsJoined), Action::Exit { code: 3, report_time: false });
    assert!(sup.is_finished());
    assert_eq!(sup.step(&s, Event::Slept), Action::Ignore);
}

#[test]
fn interrupt_while_running_kills_and_exits_zero() {
    let s = settings(0, true);
    let mut sup = Supervisor::new();
    sup.step(&s, Event::Start);
    sup.step(&s, Event::Spawned);
    assert_eq!(
        sup.step(&s, Event::Interrupted),
        Action::KillAndExit { grace_millis: GRACE_MILLIS, code: 0, report_time: true }
    );
    assert_eq!(GRACE_MILLIS, 100);
    assert_eq!(sup.phase, Phase::Finished);
    assert_eq!(sup.exit_code, 0);
    assert!(sup.cancelled);
}

#[test]
fn watch_mode_sleeps_and_respawns_with_clear_screen() {
    let s = settings(2000, false);
    let mut sup = Supervisor::new();
    assert_eq!(sup.step(&s, Event::Start), Action::Spawn { clear_screen: true });
    sup.step(&s, Event::Spawned);
    sup.step(&s, Event::ChildExited(Some(1)));
    assert_eq!(sup.step(&s, Event::PumpsJoined), Action::Sleep(2000));
    assert_eq!(sup.step(&s, Event::Slept), Action::Spawn { clear_screen: true });
    assert_eq!(sup.phase, Phase::Spawning);
}

#[test]
fn signal_exit_counts_as_zero() {
    let s = settings(0, false);
    let mut sup = Supervisor::new();
    sup.step(&s, Event::Start);
    sup.step(&s, Event::Spawned);
    sup.step(&s, Event::ChildExited(None));
    assert_eq!(sup.step(&s, Event::PumpsJoined), Action::Exit { code: 0, report_time: false });
}

#[test]
fn launch_failure_ends_the_run() {
    let s = settings(1000, false);
    let mut sup = Supervisor::new();
    sup.step(&s, Event::Start);
    assert_eq!(sup.step(&s, Event::SpawnFailed), Action::LaunchFailed(1));
    assert!(sup.is_finished());
}

#[test]
fn event_out_of_phase_is_ignored() {
    let s = settings(0, false);
    let mut sup = Supervisor::new();
    assert_eq!(sup.step(&s, Event::PumpsJoined), Action::Ignore);
    assert_eq!(sup.phase, Phase::Idle);
}

#[test]
fn wrapped_command_starts_at_subcommand_name() {
    let args: Vec<String> = ["ufc", "-t", "ping", "-c", "ping"].iter().map(|s| s.to_string()).collect();
    assert_eq!(arg_start(&args, "ping"), Some(2));
    assert_eq!(arg_start(&args, "df"), None);
}
