//! The module watcher's decisions: which file-change notices concern the
//! module, and how a burst of them collapses into one reload.
use vstd::prelude::*;
use crate::command::RunnerCommand;

verus! {

/// Path of the one indicator module.
pub const MODULE_FILE: &'static str = "/indicators/indicator.wasm";

/// Directory that is watched for changes to the module.
pub const MODULE_DIR: &'static str = "/indicators";

/// File name of the module inside the watched directory.
pub const MODULE_NAME: &'static str = "indicator.wasm";

/// Window within which repeated notices for the module give one reload.
pub const DEBOUNCE_MS: u64 = 2000;

pub open spec fn module_name() -> Seq<char> {
    seq!['i', 'n', 'd', 'i', 'c', 'a', 't', 'o', 'r', '.', 'w', 'a', 's', 'm']
}

/// The final component of `path`, as `std::path::Path::file_name` gives it.
pub uninterp spec fn file_name_of(path: Seq<char>) -> Option<Seq<char>>;

/// Relies on `std::path::Path::file_name`: the last component of a path,
/// `None` where the path ends in `..` or has no component.
#[verifier::external_body]
fn path_file_name(path: &str) -> (r: Option<String>)
    ensures
        match r {
            Some(n) => file_name_of(path@) == Some(n@),
            None => file_name_of(path@) is None,
        },
{
    std::path::Path::new(path).file_name().map(|n| n.to_string_lossy().into_owned())
}

/// `a` and `b` hold the same characters.
pub(crate) fn same_chars(a: &str, b: &str) -> (r: bool)
    ensures
        r == (a@ == b@),
{
    let n = a.unicode_len();
    if n != b.unicode_len() {
        return false;
    }
    let mut i: usize = 0;
    while i < n
        invariant
            n == a@.len(),
            n == b@.len(),
            i <= n,
            forall|k: int| 0 <= k < i ==> a@[k] == b@[k],
        decreases n - i,
    {
        if a.get_char(i) != b.get_char(i) {
            return false;
        }
        i = i + 1;
    }
    assert(a@ =~= b@);
    true
}

/// The notice for `path` concerns the module: its file name is the module's.
pub open spec fn names_module(path: Seq<char>) -> bool {
    file_name_of(path) == Some(module_name())
}

/// Whether a notice for `path` concerns the module.
pub fn is_canonical(path: &str) -> (r: bool)
    ensures
        r == names_module(path@),
{
    match path_file_name(path) {
        Some(name) => {
            let want: &str = MODULE_NAME;
            proof {
                reveal_strlit("indicator.wasm");
            }
            assert(want@ =~= module_name());
            same_chars(name.as_str(), want)
        },
        None => false,
    }
}

/// A file-change notification, as far as the watcher reads it.
#[derive(Debug)]
pub enum WatchEvent {
    /// A file in the watched directory is being written.
    NoticeWrite(String),
    /// Any other kind of notification.
    Other,
}

/// The notice is a write to the module file.
pub open spec fn triggers_reload(ev: WatchEvent) -> bool {
    match ev {
        WatchEvent::NoticeWrite(p) => names_module(p@),
        WatchEvent::Other => false,
    }
}

/// One debouncing step. `last` is when the last reload was sent; a trigger at
/// `now` sends a reload unless it falls within the window after `last`.
/// Returns the new `last` and whether a reload is sent.
pub open spec fn debounce_step(last: Option<u64>, trigger: bool, now: u64) -> (Option<u64>, bool) {
    if !trigger {
        (last, false)
    } else {
        match last {
            Some(t) => if now < t + DEBOUNCE_MS {
                (last, false)
            } else {
                (Some(now), true)
            },
            None => (Some(now), true),
        }
    }
}

/// The watcher's state between notifications.
pub struct Debouncer {
    pub last_reload_ms: Option<u64>,
}

impl Debouncer {
    /// A watcher that has sent no reload yet.
    pub fn new() -> (d: Debouncer)
        ensures
            d.last_reload_ms is None,
    {
        Debouncer { last_reload_ms: None }
    }

    /// Handles one notification that arrived at `now_ms`. Returns the command
    /// to send, if any.
    pub fn on_event(&mut self, ev: &WatchEvent, now_ms: u64) -> (r: Option<RunnerCommand>)
        ensures
            (final(self).last_reload_ms, r is Some) == debounce_step(
                old(self).last_reload_ms,
                triggers_reload(*ev),
                now_ms,
            ),
            r is Some ==> r == Some(RunnerCommand::Reload),
            !triggers_reload(*ev) ==> r is None && *final(self) == *old(self),
    {
        let trigger = match ev {
            WatchEvent::NoticeWrite(p) => is_canonical(p.as_str()),
            WatchEvent::Other => false,
        };
        if !trigger {
            return None;
        }
        match self.last_reload_ms {
            Some(t) => {
                if now_ms >= t && now_ms - t >= DEBOUNCE_MS {
                    self.last_reload_ms = Some(now_ms);
                    Some(RunnerCommand::Reload)
                } else {
                    None
                }
            },
            None => {
                self.last_reload_ms = Some(now_ms);
                Some(RunnerCommand::Reload)
            },
        }
    }
}

/// Runs the debouncer over notices for the module at the given times.
/// Returns the final state and how many reloads were sent.
pub open spec fn run_triggers(last: Option<u64>, times: Seq<u64>) -> (Option<u64>, nat)
    decreases times.len(),
{
    if times.len() == 0 {
        (last, 0)
    } else {
        let prev = run_triggers(last, times.drop_last());
        let step = debounce_step(prev.0, true, times.last());
        (step.0, prev.1 + if step.1 { 1nat } else { 0nat })
    }
}

/// A burst of notices for the module, all within the window after the first
/// one, gives exactly one reload, provided the first falls outside the window
/// of any earlier reload.
pub proof fn lemma_burst_gives_one_reload(last: Option<u64>, times: Seq<u64>)
    requires
        times.len() >= 1,
        forall|i: int| 0 <= i < times.len() ==> times[0] <= #[trigger] times[i] < times[0] + DEBOUNCE_MS,
        last matches Some(t) ==> times[0] >= t + DEBOUNCE_MS,
    ensures
        run_triggers(last, times).1 == 1,
    decreases times.len(),
{
    if times.len() == 1 {
        assert(run_triggers(last, times.drop_last()) == (last, 0nat));
    } else {
        let init = times.drop_last();
        assert(init[0] == times[0]);
        assert forall|i: int| 0 <= i < init.len() implies init[0] <= #[trigger] init[i] < init[0]
            + DEBOUNCE_MS by {
            assert(init[i] == times[i]);
        }
        lemma_burst_gives_one_reload(last, init);
        lemma_burst_state(last, init);
        assert(times[times.len() - 1] < times[0] + DEBOUNCE_MS);
    }
}

/// After a burst as above, the last reload is the burst's first notice.
proof fn lemma_burst_state(last: Option<u64>, times: Seq<u64>)
    requires
        times.len() >= 1,
        forall|i: int| 0 <= i < times.len() ==> times[0] <= #[trigger] times[i] < times[0] + DEBOUNCE_MS,
        last matches Some(t) ==> times[0] >= t + DEBOUNCE_MS,
    ensures
        run_triggers(last, times).0 == Some(times[0]),
    decreases times.len(),
{
    if times.len() > 1 {
        let init = times.drop_last();
        assert(init[0] == times[0]);
        assert forall|i: int| 0 <= i < init.len() implies init[0] <= #[trigger] init[i] < init[0]
            + DEBOUNCE_MS by {
            assert(init[i] == times[i]);
        }
        lemma_burst_state(last, init);
        assert(times[0] <= times[times.len() - 1]);
    } else {
        assert(run_triggers(last, times.drop_last()) == (last, 0nat));
    }
}

} // verus!
