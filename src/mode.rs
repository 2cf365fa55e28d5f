//! The serving mode, chosen once at startup for the whole life of the process.
use vstd::prelude::*;

verus! {

/// Which route table the server installs.
#[derive(Clone, Copy, Debug, PartialEq, Eq, Structural)]
pub enum ServeMode {
    /// A catch-all GET route to the dispatcher.
    Interactive,
    /// A single POST route for remote sync, taking JSON bodies.
    RemoteSync,
}

/// The largest JSON body the sync route accepts, in bytes.
pub const SYNC_BODY_LIMIT: u64 = 9862416400;

/// Whether the dispatcher's catch-all route is installed in this mode.
pub fn serves_files(mode: ServeMode) -> (r: bool)
    ensures
        r == (mode == ServeMode::Interactive),
{
    match mode {
        ServeMode::Interactive => true,
        ServeMode::RemoteSync => false,
    }
}

} // verus!
