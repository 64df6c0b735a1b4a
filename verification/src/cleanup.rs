//! The exit path: before the application terminates, the OS proxy settings
//! are disabled and the engine sweep is run so no proxy process or stale
//! system setting outlives the application.

use vstd::prelude::*;

verus! {

/// Combine the exit path's two outcomes: the proxy disable and the engine
/// sweep, both always attempted. The exit proceeds regardless; the result
/// only reports whether the cleanup left nothing behind.
pub fn exit_cleanly(disable_ok: bool, force_kill_ok: bool) -> (r: bool)
    ensures
        r == (disable_ok && force_kill_ok),
{
    disable_ok && force_kill_ok
}

} // verus!
