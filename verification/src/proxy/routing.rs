//! Routing a proxied request: which upstream instance serves it, which
//! protocol it speaks and which API key it authenticates with.

use vstd::prelude::*;

use crate::pattern::{group, regex_accepts, regex_captures, take_group, Pattern};
use crate::text::{eq_ignore_ascii_case, eq_ignore_ascii_case_spec, nat_decimal, push_u64};

verus! {

/// The pattern a request's `Host` header is read with: an optional
/// `dmtr_...` API key, then the network, then the version after the last
/// `-` that is followed by more text.
pub const HOST_PATTERN: &'static str = "(dmtr_[\\w\\d-]+)?\\.?([\\w]+).+-([\\w\\d]+).+";

/// Compiled patterns the proxy shares between requests.
pub struct Tools {
    host_regex: Pattern,
}

impl Tools {
    #[verifier::type_invariant]
    spec fn compiled_from_host_pattern(self) -> bool {
        self.host_regex.source() == HOST_PATTERN@
    }

    /// Compiles the proxy's patterns; `None` when the regex engine refuses
    /// one of them.
    pub fn try_new() -> (r: Option<Tools>)
        ensures
            r is Some <==> regex_accepts(HOST_PATTERN@),
    {
        match Pattern::compile(HOST_PATTERN) {
            Some(host_regex) => Some(Tools { host_regex }),
            None => None,
        }
    }

    /// The capture groups of the host pattern's first match in `host`.
    pub fn host_captures(&self, host: &str) -> (r: Option<Vec<Option<String>>>)
        ensures
            r.deep_view() == regex_captures(HOST_PATTERN@, host@),
    {
        proof {
            use_type_invariant(self);
        }
        self.host_regex.captures(host)
    }
}

/// The protocol a proxied request speaks.
#[derive(Debug, Clone, Copy, PartialEq, Eq, Structural)]
pub enum Protocol {
    Http,
    Websocket,
}

/// A request's `Upgrade` header selects WebSocket when it says `websocket`
/// in any ASCII case; anything else, or no header, is plain HTTP.
pub open spec fn protocol_of(upgrade: Option<Seq<char>>) -> Protocol {
    match upgrade {
        Some(u) => if eq_ignore_ascii_case_spec(u, "websocket"@) {
            Protocol::Websocket
        } else {
            Protocol::Http
        },
        None => Protocol::Http,
    }
}

/// Chooses the protocol from the `Upgrade` header.
pub fn protocol_from_upgrade(upgrade: Option<&str>) -> (p: Protocol)
    ensures
        p == protocol_of(upgrade.deep_view()),
{
    match upgrade {
        Some(u) => {
            if eq_ignore_ascii_case(u, "websocket") {
                Protocol::Websocket
            } else {
                Protocol::Http
            }
        },
        None => Protocol::Http,
    }
}

/// Where and how a request is proxied.
pub struct Route {
    /// The network named in the host.
    pub network: String,
    /// The Ogmios version named in the host.
    pub version: String,
    /// The upstream `host:port` that serves the request.
    pub instance_host: String,
    /// The protocol the request speaks.
    pub protocol: Protocol,
    /// The API key found in the host, which replaces the request's
    /// `dmtr-api-key` header.
    pub host_key: Option<String>,
    /// The API key the request authenticates with.
    pub token: String,
}

/// The upstream that serves `network` and `version`:
/// `ogmios-{network}-{version}:{port}`.
pub open spec fn instance_host_spec(network: Seq<char>, version: Seq<char>, port: u16) -> Seq<char> {
    "ogmios-"@ + network + "-"@ + version + ":"@ + nat_decimal(port as nat)
}

/// Whether `r` is the route of a request whose host matched with groups
/// `caps`, whose `Upgrade` header is `upgrade` and whose `dmtr-api-key`
/// header is `api_key`, for upstreams on `port`.
pub open spec fn route_of(
    caps: Option<Seq<Option<Seq<char>>>>,
    port: u16,
    upgrade: Option<Seq<char>>,
    api_key: Option<Seq<char>>,
    r: Route,
) -> bool {
    &&& r.network@ == group(caps, 2)->0
    &&& r.version@ == group(caps, 3)->0
    &&& r.instance_host@ == instance_host_spec(group(caps, 2)->0, group(caps, 3)->0, port)
    &&& r.protocol == protocol_of(upgrade)
    &&& r.host_key.deep_view() == group(caps, 1)
    &&& r.token@ == match group(caps, 1) {
        Some(k) => k,
        None => match api_key {
            Some(k) => k,
            None => Seq::<char>::empty(),
        },
    }
}

/// Routes a request from its `Host`, `Upgrade` and `dmtr-api-key` headers.
/// `None` when the host names no network and version.
pub fn route_request(
    tools: &Tools,
    ogmios_port: u16,
    host: &str,
    upgrade: Option<&str>,
    api_key: Option<&str>,
) -> (r: Option<Route>)
    ensures
        r is Some <==> (group(regex_captures(HOST_PATTERN@, host@), 2) is Some && group(
            regex_captures(HOST_PATTERN@, host@),
            3,
        ) is Some),
        r matches Some(route) ==> route_of(
            regex_captures(HOST_PATTERN@, host@),
            ogmios_port,
            upgrade.deep_view(),
            api_key.deep_view(),
            route,
        ),
{
    let caps = tools.host_captures(host);
    let network = match take_group(&caps, 2) {
        Some(n) => n.clone(),
        None => return None,
    };
    let version = match take_group(&caps, 3) {
        Some(v) => v.clone(),
        None => return None,
    };
    let mut instance_host = "ogmios-".to_owned();
    instance_host.append(network.as_str());
    instance_host.append("-");
    instance_host.append(version.as_str());
    instance_host.append(":");
    push_u64(&mut instance_host, ogmios_port as u64);
    let protocol = protocol_from_upgrade(upgrade);
    let host_key = match take_group(&caps, 1) {
        Some(k) => Some(k.clone()),
        None => None,
    };
    let token = match &host_key {
        Some(k) => k.clone(),
        None => match api_key {
            Some(k) => k.to_owned(),
            None => String::new(),
        },
    };
    Some(Route { network, version, instance_host, protocol, host_key, token })
}

/// The `Sec-WebSocket-Accept` value that answers a handshake whose
/// `Sec-WebSocket-Key` is `request_key`, as
/// `tungstenite::handshake::derive_accept_key` computes it (the base64 of
/// the SHA-1 of the key followed by the RFC 6455 GUID).
pub uninterp spec fn ws_accept(request_key: Seq<u8>) -> Seq<char>;

/// Derives the accept key with `tungstenite::handshake::derive_accept_key`.
///
/// Trusted: the result is the value `ws_accept` names for these key bytes;
/// the function is deterministic and does not panic.
#[verifier::external_body]
fn websocket_accept(request_key: &[u8]) -> (r: String)
    ensures
        r@ == ws_accept(request_key@),
{
    tokio_tungstenite::tungstenite::handshake::derive_accept_key(request_key)
}

/// The headers of the `101 Switching Protocols` answer to a WebSocket
/// upgrade.
pub struct UpgradeAnswer {
    /// The `Connection` header.
    pub connection: String,
    /// The `Upgrade` header.
    pub upgrade: String,
    /// The `Sec-WebSocket-Accept` header.
    pub accept: String,
}

/// The answer to a WebSocket upgrade whose `Sec-WebSocket-Key` header holds
/// `request_key`: `Connection: Upgrade`, `Upgrade: websocket` and the key's
/// accept value. `None` when the request carries no key.
pub fn upgrade_answer(request_key: Option<&[u8]>) -> (r: Option<UpgradeAnswer>)
    ensures
        r is Some <==> request_key is Some,
        r matches Some(a) ==> a.connection@ == "Upgrade"@ && a.upgrade@ == "websocket"@
            && a.accept@ == ws_accept(request_key->0@),
{
    match request_key {
        Some(key) => Some(
            UpgradeAnswer {
                connection: "Upgrade".to_owned(),
                upgrade: "websocket".to_owned(),
                accept: websocket_accept(key),
            },
        ),
        None => None,
    }
}

/// The upstream of a routed request is named by the host alone: for every
/// host the pattern matches, the instance is
/// `ogmios-{network}-{version}:{port}` with the network and the version
/// exactly as captured, whether or not the host also carried an API key,
/// and the API key taken from the host, when there is one, is the token.
pub proof fn route_upstream_is_the_captured_network_and_version(
    caps: Option<Seq<Option<Seq<char>>>>,
    port: u16,
    upgrade: Option<Seq<char>>,
    api_key: Option<Seq<char>>,
    r: Route,
    network: Seq<char>,
    version: Seq<char>,
)
    requires
        group(caps, 2) == Some(network),
        group(caps, 3) == Some(version),
        route_of(caps, port, upgrade, api_key, r),
    ensures
        r.network@ == network,
        r.version@ == version,
        r.instance_host@ == "ogmios-"@ + network + "-"@ + version + ":"@ + nat_decimal(port as nat),
        group(caps, 1) is Some ==> r.token@ == group(caps, 1)->0,
        group(caps, 1) is None && api_key is Some ==> r.token@ == api_key->0,
{
}

} // verus!
