use pihost::command::RunnerCommand;
use pihost::watcher::{is_canonical, Debouncer, WatchEvent, DEBOUNCE_MS, MODULE_FILE};

fn write(path: &str) -> WatchEvent {
    WatchEvent::NoticeWrite(path.to_string())
}

#[test]
fn canonical_file_names() {
    assert!(is_canonical(MODULE_FILE));
    assert!(is_canonical("/indicators/indicator.wasm"));
    assert!(is_canonical("indicator.wasm"));
    assert!(is_canonical("/elsewhere/indicator.wasm"));
    assert!(!is_canonical("/indicators/other.wasm"));
    assert!(!is_canonical("/indicators/indicator.wasm.tmp"));
    assert!(!is_canonical("/indicators/xindicator.wasm"));
    assert!(!is_canonical("/indicators"));
    assert!(!is_canonical("/indicators/indicator.wasm/.."));
    assert!(!is_canonical(""));
}

#[test]
fn first_write_to_module_gives_reload() {
    let mut d = Debouncer::new();
    assert_eq!(d.on_event(&write(MODULE_FILE), 5), Some(RunnerCommand::Reload));
    assert_eq!(d.last_reload_ms, Some(5));
}

#[test]
fn burst_of_writes_collapses_into_one_reload() {
    let mut d = Debouncer::new();
    let mut reloads = 0;
    for k in 0..10u64 {
        if d.on_event(&write(MODULE_FILE), 1000 + k * 150).is_some() {
            reloads += 1;
        }
    }
    assert_eq!(reloads, 1);
}

#[test]
fn write_after_window_gives_another_reload() {
    let mut d = Debouncer::new();
    assert!(d.on_event(&write(MODULE_FILE), 100).is_some());
    assert!(d.on_event(&write(MODULE_FILE), 100 + DEBOUNCE_MS - 1).is_none());
    assert_eq!(
        d.on_event(&write(MODULE_FILE), 100 + DEBOUNCE_MS),
        Some(RunnerCommand::Reload)
    );
}

#[test]
fn writes_to_other_files_never_reload() {
    let mut d = Debouncer::new();
    assert_eq!(d.on_event(&write("/indicators/notes.txt"), 0), None);
    assert_eq!(d.on_event(&write("/indicators/indicator.wat"), 10_000), None);
    assert_eq!(d.on_event(&WatchEvent::Other, 20_000), None);
    assert_eq!(d.last_reload_ms, None);
    // They do not open a window either.
    assert!(d.on_event(&write(MODULE_FILE), 20_001).is_some());
}

#[test]
fn any_matching_path_gives_the_same_reload() {
    let mut a = Debouncer::new();
    let mut b = Debouncer::new();
    let ra = a.on_event(&write("/indicators/indicator.wasm"), 0);
    let rb = b.on_event(&write("/tmp/x/indicator.wasm"), 0);
    assert_eq!(ra, rb);
    assert_eq!(ra, Some(RunnerCommand::Reload));
}
