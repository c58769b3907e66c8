//! A host agent's core for applying OS package updates and reporting the
//! results over an authenticated channel. The library holds everything
//! that can be stated and proved: the maintenance-window predicate, the
//! apt output parsers, HMAC request signing with constant-time
//! verification, the transport's retry policy, and the orchestrator's
//! state machine with its failure isolation. The caller owns the edges —
//! files, processes, sockets, clocks — performs what the library decides,
//! and hands the outcomes back as plain values.
pub mod apt;
pub mod config;
pub mod http_client;
pub mod logging;
pub mod orchestrator;
pub mod retry;
pub mod scan;
pub mod updater;
pub mod window;

use vstd::prelude::*;

verus! {

/// Exit code reported to the operator: zero on full success or an
/// intentional skip, non-zero otherwise.
pub fn exit_code_for(success: bool, skipped: bool) -> (r: i32)
    ensures
        r == if success || skipped {
            0int
        } else {
            1int
        },
{
    if success || skipped {
        0
    } else {
        1
    }
}

} // verus!
