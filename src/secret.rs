//! Secrets fetched from the server, with the advice of when to fetch them again.
use vstd::prelude::*;

verus! {

/// The advised freshness window, in seconds, of a secret leased for `lease`
/// seconds: two thirds of the lease, rounded down, and none where the lease is
/// absent or zero.
pub open spec fn freshness_of(lease: Option<u64>) -> Option<u64> {
    match lease {
        Some(d) if d != 0 => Some(((d as int) * 2 / 3) as u64),
        _ => None,
    }
}

/// A secret as the server returned it.
#[derive(Debug)]
pub struct Secret {
    /// The `data` member of the reply, as it stood.
    pub data: serde_json::Value,
    /// Seconds after which the caller should consider the secret stale.
    pub freshness_window: Option<u64>,
}

impl Secret {
    pub fn new(data: serde_json::Value, freshness_window: Option<u64>) -> (r: Secret)
        ensures
            r.data == data,
            r.freshness_window == freshness_window,
    {
        Secret { data, freshness_window }
    }
}

/// The freshness window for a lease of `lease` seconds.
pub fn freshness_window(lease: Option<u64>) -> (r: Option<u64>)
    ensures
        r == freshness_of(lease),
{
    match lease {
        Some(d) if d != 0 => {
            let w: u64 = d / 3 * 2 + d % 3 * 2 / 3;
            assert(w as int == (d as int) * 2 / 3) by (nonlinear_arith)
                requires
                    w as int == (d as int) / 3 * 2 + (d as int) % 3 * 2 / 3,
            {
            }
            Some(w)
        },
        _ => None,
    }
}

} // verus!
