//! The proxy's metrics endpoint: which requests it answers.

use vstd::prelude::*;

use crate::text::str_eq;

verus! {

/// Whether the metrics server answers a request with the gathered metrics:
/// only a `GET` of `/metrics` is; everything else is not found.
pub fn serves_metrics(method: &str, path: &str) -> (b: bool)
    ensures
        b == (method@ == "GET"@ && path@ == "/metrics"@),
{
    str_eq(method, "GET") && str_eq(path, "/metrics")
}

} // verus!
