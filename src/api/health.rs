//! Service health.
use vstd::prelude::*;

verus! {

/// Whether the service can take requests. A process that answers is healthy.
pub fn check_server_health() -> (r: bool)
    ensures
        r,
{
    true
}

} // verus!
