use vstd::prelude::*;

verus! {

/// Length in bytes of a network identifier.
pub const NETWORK_ID_LEN: usize = 32;

/// The BLAKE3 hash of the UTF-8 encoding of `name`.
pub uninterp spec fn network_hash_of(name: Seq<char>) -> Seq<u8>;

/// Relies on p2panda_core::Hash::new: the BLAKE3 hash of the name's UTF-8 bytes,
/// 32 bytes that depend on the name alone.
#[verifier::external_body]
fn hash_name(name: &str) -> (r: Vec<u8>)
    ensures
        r@ == network_hash_of(name@),
        r@.len() == NETWORK_ID_LEN,
{
    p2panda_core::Hash::new(name).as_bytes().to_vec()
}

/// The serialisation of the URL that `s` spells, or `None` if it spells none.
pub uninterp spec fn url_parse(s: Seq<char>) -> Option<Seq<char>>;

/// Relies on url::Url::parse: whether `s` is an absolute URL, and its serialisation,
/// which depend on `s` alone.
#[verifier::external_body]
fn parse_url(s: &str) -> (r: Option<String>)
    ensures
        match r {
            Some(u) => url_parse(s@) == Some(u@),
            None => url_parse(s@) is None,
        },
{
    match url::Url::parse(s) {
        Ok(u) => Some(u.as_str().to_string()),
        Err(_) => None,
    }
}

/// Derives the 32-byte identifier of the network called `name`. The result depends on
/// the name alone: the same name always gives the same identifier.
pub fn network_identifier(name: &str) -> (r: Vec<u8>)
    ensures
        r@ == network_hash_of(name@),
        r@.len() == NETWORK_ID_LEN,
{
    hash_name(name)
}

/// Why a session could not be configured.
#[derive(Clone, Copy, Debug, PartialEq, Eq, Structural)]
pub enum ConfigError {
    /// The network name is empty.
    EmptyNetworkName,
    /// The relay URL is not an absolute URL.
    InvalidRelayUrl,
}

/// The relay server a session connects through.
pub struct RelayEndpoint {
    /// Serialised URL of the relay.
    pub url: String,
    /// Whether the relay is reached without TLS.
    pub plaintext: bool,
    /// Priority of the relay among the session's relays.
    pub priority: u16,
}

/// Everything a bootstrap-only session is built from, besides the identity.
pub struct SessionConfig {
    pub network_name: String,
    pub network_id: Vec<u8>,
    pub relay: RelayEndpoint,
    /// Whether local-network discovery is attached.
    pub discovery: bool,
    /// The session maintains connectivity only and subscribes to no topic.
    pub bootstrap_only: bool,
}

/// The outcome of configuring a session for network `name` through the relay at `url`:
/// the network identifier and the relay's serialised URL, or the first error found.
pub open spec fn session_outcome(name: Seq<char>, url: Seq<char>) -> Result<
    (Seq<u8>, Seq<char>),
    ConfigError,
> {
    if name.len() == 0 {
        Err(ConfigError::EmptyNetworkName)
    } else {
        match url_parse(url) {
            Some(u) => Ok((network_hash_of(name), u)),
            None => Err(ConfigError::InvalidRelayUrl),
        }
    }
}

/// Validates the inputs of a session and derives its configuration. It does no I/O, so a
/// bad network name or relay URL is reported before any connection is attempted.
pub fn configure_session(network_name: &str, relay_url: &str, discovery_enabled: bool) -> (r:
    Result<SessionConfig, ConfigError>)
    ensures
        match r {
            Ok(c) => {
                &&& session_outcome(network_name@, relay_url@) == Ok::<
                    (Seq<u8>, Seq<char>),
                    ConfigError,
                >((c.network_id@, c.relay.url@))
                &&& c.network_name@ == network_name@
                &&& !c.relay.plaintext
                &&& c.relay.priority == 0
                &&& c.discovery == discovery_enabled
                &&& c.bootstrap_only
            },
            Err(e) => session_outcome(network_name@, relay_url@) == Err::<
                (Seq<u8>, Seq<char>),
                ConfigError,
            >(e),
        },
{
    if network_name.is_empty() {
        return Err(ConfigError::EmptyNetworkName);
    }
    let url = match parse_url(relay_url) {
        Some(u) => u,
        None => {
            return Err(ConfigError::InvalidRelayUrl);
        },
    };
    let network_id = network_identifier(network_name);
    Ok(
        SessionConfig {
            network_name: network_name.to_string(),
            network_id,
            relay: RelayEndpoint { url, plaintext: false, priority: 0 },
            discovery: discovery_enabled,
            bootstrap_only: true,
        },
    )
}

/// Two sessions configured for the same network name carry the same network identifier,
/// whatever relays they use.
pub proof fn lemma_same_name_same_network(name: Seq<char>, url_a: Seq<char>, url_b: Seq<char>)
    requires
        session_outcome(name, url_a) is Ok,
        session_outcome(name, url_b) is Ok,
    ensures
        session_outcome(name, url_a)->Ok_0.0 == session_outcome(name, url_b)->Ok_0.0,
        session_outcome(name, url_a)->Ok_0.0 == network_hash_of(name),
{
}

/// Whether a session can be configured depends on its own network name and relay alone:
/// two sessions for the same network through different relays succeed or fail each on
/// its own relay URL.
pub proof fn lemma_sessions_independent(name: Seq<char>, url_a: Seq<char>, url_b: Seq<char>)
    requires
        name.len() > 0,
    ensures
        session_outcome(name, url_a) is Ok <==> url_parse(url_a) is Some,
        session_outcome(name, url_b) is Ok <==> url_parse(url_b) is Some,
{
}

} // verus!
