//! The decisions of the proxy's request plugins: which project an API key
//! belongs to, and which API key a request's host carries.

use vstd::prelude::*;

use crate::pattern::{group, regex_accepts, regex_captures, take_group, Pattern};
use crate::table::{Keyed, Table};

verus! {

/// A consumer known to the authentication plugin.
#[derive(Debug)]
pub struct DmtrConsumer {
    project_id: String,
}

impl DmtrConsumer {
    /// The project the consumer belongs to.
    pub closed spec fn project(&self) -> Seq<char> {
        self.project_id@
    }

    /// The project the consumer belongs to.
    pub fn project_id(&self) -> (r: &String)
        ensures
            r@ == self.project(),
    {
        &self.project_id
    }
}

/// An API key and the consumer it identifies.
pub struct KeyedConsumer {
    pub key: String,
    pub consumer: DmtrConsumer,
}

impl Keyed for KeyedConsumer {
    open spec fn key_spec(&self) -> Seq<char> {
        self.key@
    }

    fn key(&self) -> (r: &String) {
        &self.key
    }
}

/// The API key of the one consumer the authentication plugin knows.
pub const KNOWN_API_KEY: &'static str = "dmtr_kupo1d988zmt0g4skjdt6xdxkg5zp23f55ttpxfmsemy6fa";

/// The project of that consumer.
pub const KNOWN_PROJECT_ID: &'static str = "prj-xxxxx-xxxxx";

/// Authenticates requests by their `dmtr-api-key` header.
pub struct AuthDmtrPlugin {
    consumers: Table<KeyedConsumer>,
}

impl AuthDmtrPlugin {
    /// The project of the consumer whose API key is `key`.
    pub closed spec fn project_of(&self, key: Seq<char>) -> Option<Seq<char>> {
        match self.consumers.lookup(key) {
            Some(entry) => Some(entry.consumer.project()),
            None => None,
        }
    }

    /// The plugin with its one known consumer.
    pub fn new() -> (p: Self)
        ensures
            forall|key: Seq<char>|
                #[trigger] p.project_of(key) == if key == KNOWN_API_KEY@ {
                    Some(KNOWN_PROJECT_ID@)
                } else {
                    None::<Seq<char>>
                },
    {
        let mut consumers = Table::new();
        consumers.insert(
            KeyedConsumer {
                key: KNOWN_API_KEY.to_owned(),
                consumer: DmtrConsumer { project_id: KNOWN_PROJECT_ID.to_owned() },
            },
        );
        AuthDmtrPlugin { consumers }
    }

    /// The project of the consumer that `dmtr_key` identifies; `None` means
    /// the request is unauthorized.
    pub fn authorize(&self, dmtr_key: &str) -> (r: Option<&String>)
        ensures
            r.deep_view() == self.project_of(dmtr_key@),
    {
        match self.consumers.get(dmtr_key) {
            Some(entry) => Some(entry.consumer.project_id()),
            None => None,
        }
    }
}

/// The pattern a host is searched with for an API key: `dmtr_` and key
/// characters, then a `.` and more text.
pub const HOST_KEY_PATTERN: &'static str = "(dmtr_[\\w\\d-]+)\\.[\\w+].+";

/// Copies an API key found in the request's host into its `dmtr-api-key`
/// header.
pub struct HostKeyHeaderPlugin {
    regex: Pattern,
}

impl HostKeyHeaderPlugin {
    #[verifier::type_invariant]
    spec fn compiled_from_host_key_pattern(self) -> bool {
        self.regex.source() == HOST_KEY_PATTERN@
    }

    /// The plugin; `None` when the regex engine refuses its pattern.
    pub fn new() -> (r: Option<Self>)
        ensures
            r is Some <==> regex_accepts(HOST_KEY_PATTERN@),
    {
        match Pattern::compile(HOST_KEY_PATTERN) {
            Some(regex) => Some(HostKeyHeaderPlugin { regex }),
            None => None,
        }
    }

    /// The API key that `host` carries, if any.
    pub fn key_from_host(&self, host: &str) -> (r: Option<String>)
        ensures
            r.deep_view() == group(regex_captures(HOST_KEY_PATTERN@, host@), 1),
    {
        proof {
            use_type_invariant(self);
        }
        let caps = self.regex.captures(host);
        match take_group(&caps, 1) {
            Some(k) => Some(k.clone()),
            None => None,
        }
    }
}

} // verus!
