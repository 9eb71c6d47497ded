//! Small helpers of the proxy: network names and the headers it reads.

use vstd::prelude::*;

use crate::text::str_eq;

verus! {

/// The header that carries a consumer's API key.
pub const DMTR_API_KEY: &'static str = "dmtr-api-key";

/// The current name of a network: the legacy names `mainnet`, `preprod`
/// and `preview` gain a `cardano-` prefix; any other name is kept.
pub open spec fn legacy_network(network: Seq<char>) -> Seq<char> {
    if network == "mainnet"@ {
        "cardano-mainnet"@
    } else if network == "preprod"@ {
        "cardano-preprod"@
    } else if network == "preview"@ {
        "cardano-preview"@
    } else {
        network
    }
}

/// Maps a legacy network name to its current name.
pub fn handle_legacy_networks(network: &str) -> (r: String)
    ensures
        r@ == legacy_network(network@),
{
    if str_eq(network, "mainnet") {
        "cardano-mainnet".to_owned()
    } else if str_eq(network, "preprod") {
        "cardano-preprod".to_owned()
    } else if str_eq(network, "preview") {
        "cardano-preview".to_owned()
    } else {
        network.to_owned()
    }
}

/// Only the three legacy names are mapped: `mainnet`, `preprod` and
/// `preview` gain the `cardano-` prefix, and every other network name,
/// including one that merely ends in a legacy name, is kept unchanged.
pub proof fn only_exact_legacy_names_are_mapped(network: Seq<char>)
    ensures
        network == "mainnet"@ ==> legacy_network(network) == "cardano-mainnet"@,
        network == "preprod"@ ==> legacy_network(network) == "cardano-preprod"@,
        network == "preview"@ ==> legacy_network(network) == "cardano-preview"@,
        network != "mainnet"@ && network != "preprod"@ && network != "preview"@ ==> legacy_network(
            network,
        ) == network,
{
    reveal_strlit("mainnet");
    reveal_strlit("preprod");
    reveal_strlit("preview");
    assert("mainnet"@[0] != "preprod"@[0]);
    assert("mainnet"@[0] != "preview"@[0]);
    assert("preprod"@[3] != "preview"@[3]);
}

} // verus!
