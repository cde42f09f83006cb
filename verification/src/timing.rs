//! Where the time of a request went.

use vstd::prelude::*;

verus! {

/// The dispatcher's own share of a request: the handler's whole time less the
/// time of the database call, both in nanoseconds. The call is part of the
/// handling, so it cannot have taken longer.
pub fn overhead_nanos(total: u128, call: u128) -> (r: u128)
    requires
        call <= total,
    ensures
        r == total - call,
{
    total - call
}

} // verus!
