//! Decision logic of the remaining UI-facing commands: the worker's fixed
//! backend address, and the fullscreen toggle.

use vstd::prelude::*;

verus! {

/// The fixed local endpoint on which the worker serves the UI layer once
/// spawned. The address is statically known; no port negotiation happens.
pub fn backend_url() -> (r: String)
    ensures
        r@ == "http://localhost:8009"@,
{
    "http://localhost:8009".to_owned()
}

/// The fullscreen state to set after a toggle request, given what the
/// window reported: the opposite of the reported state, or nothing — leave
/// the window alone — when the query failed.
pub fn next_fullscreen(reported: Option<bool>) -> (r: Option<bool>)
    ensures
        match reported {
            Some(f) => r == Some(!f),
            None => r is None,
        },
{
    match reported {
        Some(f) => Some(!f),
        None => None,
    }
}

} // verus!
