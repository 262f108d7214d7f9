use vstd::prelude::*;

verus! {

/// A message on the control channel, from the watcher or the shutdown handler
/// to the scheduler. Neither carries a payload: a reload always re-reads the
/// one canonical module path, and a stop is final.
#[derive(Clone, Copy, Debug, PartialEq, Eq, Structural)]
pub enum RunnerCommand {
    Reload,
    Stop,
}

} // verus!
