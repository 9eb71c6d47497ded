//! The state of an Ogmios port that the operator reports back.

use vstd::prelude::*;

verus! {

/// The status of an `OgmiosPort` resource: where it is reached and with
/// which token, once known.
#[derive(Debug, Clone)]
pub struct OgmiosPortStatus {
    pub endpoint_url: Option<String>,
    pub auth_token: Option<String>,
}

impl Default for OgmiosPortStatus {
    fn default() -> (s: Self)
        ensures
            s.endpoint_url is None,
            s.auth_token is None,
    {
        OgmiosPortStatus { endpoint_url: None, auth_token: None }
    }
}

} // verus!
