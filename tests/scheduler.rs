use pihost::battery::SENSOR_BATTERY;
use pihost::command::RunnerCommand;
use pihost::scheduler::{Action, Event, Phase, Scheduler, BATTERY_STEP, FULL_BATTERY, SETTLE_MS};
use pihost::watcher::MODULE_FILE;

#[test]
fn ticks_advance_frame_by_one_and_drain_battery() {
    let mut s = Scheduler::new();
    assert_eq!(s.frame(), 0);
    for k in 1..=5 {
        let a = s.step(Event::Timeout);
        let want = FULL_BATTERY - k as u32 * BATTERY_STEP;
        assert_eq!(
            a,
            Action::Tick { sensor_id: SENSOR_BATTERY, value: want, frame: k }
        );
        assert_eq!(s.frame(), k);
        assert_eq!(s.battery(), want);
    }
}

#[test]
fn battery_floors_at_zero() {
    let mut s = Scheduler::new();
    let ticks = FULL_BATTERY / BATTERY_STEP + 5;
    for _ in 0..ticks {
        s.step(Event::Timeout);
    }
    assert_eq!(s.battery(), 0);
    assert_eq!(s.frame(), ticks as i32);
}

#[test]
fn reload_settles_without_advancing_frame() {
    let mut s = Scheduler::new();
    s.step(Event::Timeout);
    let a = s.step(Event::Command(RunnerCommand::Reload));
    assert_eq!(a, Action::Reload { path: MODULE_FILE, settle_ms: SETTLE_MS });
    assert_eq!(s.phase(), Phase::Reloading);
    assert_eq!(s.step(Event::Timeout), Action::Wait);
    assert_eq!(s.step(Event::Command(RunnerCommand::Reload)), Action::Wait);
    assert_eq!(s.frame(), 1);
    s.reload_done();
    assert_eq!(s.phase(), Phase::Running);
    assert!(matches!(s.step(Event::Timeout), Action::Tick { frame: 2, .. }));
}

#[test]
fn reload_always_names_the_canonical_path() {
    let mut s = Scheduler::new();
    match s.step(Event::Command(RunnerCommand::Reload)) {
        Action::Reload { path, .. } => assert_eq!(path, "/indicators/indicator.wasm"),
        other => panic!("unexpected action {:?}", other),
    }
}

#[test]
fn stop_shuts_down_then_only_exits() {
    let mut s = Scheduler::new();
    s.step(Event::Timeout);
    assert_eq!(s.step(Event::Command(RunnerCommand::Stop)), Action::Shutdown);
    assert_eq!(s.phase(), Phase::Terminated);
    let frame = s.frame();
    for ev in [
        Event::Timeout,
        Event::Command(RunnerCommand::Reload),
        Event::Command(RunnerCommand::Stop),
        Event::Disconnected,
    ] {
        assert_eq!(s.step(ev), Action::Exit);
    }
    assert_eq!(s.frame(), frame);
}

#[test]
fn stop_while_reloading_shuts_down() {
    let mut s = Scheduler::new();
    s.step(Event::Command(RunnerCommand::Reload));
    assert_eq!(s.step(Event::Command(RunnerCommand::Stop)), Action::Shutdown);
    s.reload_done();
    assert_eq!(s.phase(), Phase::Terminated);
}

#[test]
fn disconnected_channel_exits() {
    let mut s = Scheduler::new();
    assert_eq!(s.step(Event::Disconnected), Action::Exit);
    assert_eq!(s.phase(), Phase::Terminated);
}
