//! Logging policy.
//!
//! Wiring a log subscriber up is the application shell's business; the
//! library only fixes the level the application logs at.

use vstd::prelude::*;

verus! {

/// The log level the application runs at. Reading it from the persisted
/// configuration is not wired up yet, so this is the default level.
pub fn get_log_level() -> (level: &'static str)
    ensures
        level@ == "info"@,
{
    "info"
}

} // verus!
