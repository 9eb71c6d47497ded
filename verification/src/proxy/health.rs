//! The upstream health check's decisions.

use vstd::prelude::*;

verus! {

/// What a health probe's outcome means for the logs.
#[derive(Debug, Clone, Copy, PartialEq, Eq, Structural)]
pub enum HealthChange {
    /// The upstream was unhealthy and now answers.
    Recovered,
    /// The upstream was healthy and now fails.
    Lost,
    /// Nothing changed.
    Unchanged,
}

/// Whether an HTTP status is a client error (4xx) or a server error (5xx).
pub fn is_error_status(status: u16) -> (b: bool)
    ensures
        b == (400 <= status <= 599),
{
    400 <= status && status <= 599
}

/// Whether a health probe that got an HTTP answer with `status` counts the
/// upstream as healthy: a client or server error does not, and otherwise
/// only `200` does.
pub fn healthy_status(status: u16) -> (b: bool)
    ensures
        b == (status == 200),
{
    if is_error_status(status) {
        return false;
    }
    status == 200
}

/// How the upstream's health changed between two probes.
pub fn health_change(current: bool, new: bool) -> (c: HealthChange)
    ensures
        c == (if !current && new {
            HealthChange::Recovered
        } else if current && !new {
            HealthChange::Lost
        } else {
            HealthChange::Unchanged
        }),
{
    if !current && new {
        HealthChange::Recovered
    } else if current && !new {
        HealthChange::Lost
    } else {
        HealthChange::Unchanged
    }
}

} // verus!
