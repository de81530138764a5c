//! Messages shared between the supervising context and the worker threads.

use vstd::prelude::*;

verus! {

/// Top-level coordination messages a supervising context may deal in:
/// an instruction to stop, or an acknowledgement that startup succeeded.
pub enum Event {
    Shutdown,
    AllOk,
}

} // verus!
