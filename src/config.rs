use vstd::prelude::*;

verus! {

/// Remote locations of the files and tools a node uses.
pub struct NodePaths {
    pub funded_identity: String,
    pub unfunded_identity: String,
    pub vote_keypair: String,
    pub ledger: String,
    /// A glob that must match exactly one tower file.
    pub tower: String,
    pub solana_cli_path: String,
    pub firedancer_config: Option<String>,
    pub fdctl_path: Option<String>,
}

/// One host of a validator pair.
pub struct NodeConfig {
    pub label: String,
    pub host: String,
    pub port: u16,
    pub user: String,
    pub paths: NodePaths,
}

/// A node as a configuration document gives it, its port not yet checked.
pub struct RawNodeConfig {
    pub label: String,
    pub host: String,
    pub port: u64,
    pub user: String,
    pub paths: NodePaths,
}

impl NodeConfig {
    /// Loads a node from a configuration document: refused unless its port lies in
    /// 1..=65535.
    pub fn from_raw(raw: RawNodeConfig) -> (r: Result<NodeConfig, ConfigError>)
        ensures
            port_ok(raw.port) <==> r is Ok,
            r matches Ok(n) ==> n.port as u64 == raw.port && n.label == raw.label && n.host
                == raw.host && n.user == raw.user && n.paths == raw.paths,
            r matches Err(e) ==> e == (ConfigError::PortOutOfRange { port: raw.port }),
    {
        match check_port(raw.port) {
            Ok(port) => Ok(
                NodeConfig { label: raw.label, host: raw.host, port, user: raw.user, paths: raw.paths },
            ),
            Err(e) => Err(e),
        }
    }
}

/// Two hosts that take turns running one on-chain validator identity.
pub struct ValidatorPair {
    pub vote_pubkey: String,
    pub identity_pubkey: String,
    pub rpc: String,
    pub local_ssh_key_path: String,
    pub nodes: Vec<NodeConfig>,
}

pub struct TelegramConfig {
    pub bot_token: String,
    pub chat_id: String,
}

pub struct AlertConfig {
    pub enabled: bool,
    pub delinquency_threshold_seconds: u64,
    pub telegram: Option<TelegramConfig>,
}

pub struct Config {
    pub version: String,
    pub ssh_key_path: String,
    pub validators: Vec<ValidatorPair>,
    pub alerts: Option<AlertConfig>,
}

/// Why a configuration was rejected; `pair` and `node` are positions in it.
#[derive(Clone, Copy, Debug, PartialEq, Eq, Structural)]
pub enum ConfigError {
    PortOutOfRange { port: u64 },
    VotePubkeyLength { pair: usize },
    IdentityPubkeyLength { pair: usize },
    NodeCount { pair: usize },
    EmptyPath { pair: usize, node: usize },
}

/// A base58 public key is 32 to 44 characters long.
pub open spec fn pubkey_len_ok(k: Seq<char>) -> bool {
    32 <= k.len() <= 44
}

pub open spec fn port_ok(port: u64) -> bool {
    1 <= port <= 65535
}

pub open spec fn paths_ok(p: NodePaths) -> bool {
    &&& p.funded_identity@.len() > 0
    &&& p.unfunded_identity@.len() > 0
    &&& p.vote_keypair@.len() > 0
    &&& p.ledger@.len() > 0
    &&& p.tower@.len() > 0
    &&& p.solana_cli_path@.len() > 0
}

/// The first fault of node `k` of pair `i`.
pub open spec fn node_error(n: NodeConfig, i: int, k: int) -> Option<ConfigError> {
    if !port_ok(n.port as u64) {
        Some(ConfigError::PortOutOfRange { port: n.port as u64 })
    } else if !paths_ok(n.paths) {
        Some(ConfigError::EmptyPath { pair: i as usize, node: k as usize })
    } else {
        None
    }
}

/// The first fault of pair `i`.
pub open spec fn pair_error(p: ValidatorPair, i: int) -> Option<ConfigError> {
    if !pubkey_len_ok(p.vote_pubkey@) {
        Some(ConfigError::VotePubkeyLength { pair: i as usize })
    } else if !pubkey_len_ok(p.identity_pubkey@) {
        Some(ConfigError::IdentityPubkeyLength { pair: i as usize })
    } else if p.nodes@.len() != 2 {
        Some(ConfigError::NodeCount { pair: i as usize })
    } else if node_error(p.nodes@[0], i, 0) is Some {
        node_error(p.nodes@[0], i, 0)
    } else {
        node_error(p.nodes@[1], i, 1)
    }
}

/// The first fault among the pairs from position `from` on.
pub open spec fn first_config_error(ps: Seq<ValidatorPair>, from: int) -> Option<ConfigError>
    decreases ps.len() - from,
{
    if from < 0 || from >= ps.len() {
        None
    } else if pair_error(ps[from], from) is Some {
        pair_error(ps[from], from)
    } else {
        first_config_error(ps, from + 1)
    }
}

/// A port number read from a configuration document: kept when it lies in 1..=65535.
pub fn check_port(raw: u64) -> (r: Result<u16, ConfigError>)
    ensures
        port_ok(raw) <==> r is Ok,
        r matches Ok(p) ==> p as u64 == raw,
        r matches Err(e) ==> e == (ConfigError::PortOutOfRange { port: raw }),
{
    if raw >= 1 && raw <= 65535 {
        Ok(raw as u16)
    } else {
        Err(ConfigError::PortOutOfRange { port: raw })
    }
}

fn filled(s: &String) -> (r: bool)
    ensures
        r == (s@.len() > 0),
{
    !s.as_str().is_empty()
}

fn pubkey_length_fits(s: &String) -> (r: bool)
    ensures
        r == pubkey_len_ok(s@),
{
    let n = s.as_str().unicode_len();
    32 <= n && n <= 44
}

fn node_fault(n: &NodeConfig, i: usize, k: usize) -> (r: Option<ConfigError>)
    ensures
        r == node_error(*n, i as int, k as int),
{
    if n.port == 0 {
        return Some(ConfigError::PortOutOfRange { port: n.port as u64 });
    }
    let p = &n.paths;
    if filled(&p.funded_identity) && filled(&p.unfunded_identity) && filled(&p.vote_keypair)
        && filled(&p.ledger) && filled(&p.tower) && filled(&p.solana_cli_path) {
        None
    } else {
        Some(ConfigError::EmptyPath { pair: i, node: k })
    }
}

fn pair_fault(p: &ValidatorPair, i: usize) -> (r: Option<ConfigError>)
    ensures
        r == pair_error(*p, i as int),
{
    if !pubkey_length_fits(&p.vote_pubkey) {
        return Some(ConfigError::VotePubkeyLength { pair: i });
    }
    if !pubkey_length_fits(&p.identity_pubkey) {
        return Some(ConfigError::IdentityPubkeyLength { pair: i });
    }
    if p.nodes.len() != 2 {
        return Some(ConfigError::NodeCount { pair: i });
    }
    let first = node_fault(&p.nodes[0], i, 0);
    if first.is_some() {
        return first;
    }
    node_fault(&p.nodes[1], i, 1)
}

/// Checks a loaded configuration: public keys of 32 to 44 characters, exactly two nodes
/// per pair, ports in 1..=65535 and no empty path. Returns the first fault, pair by pair.
pub fn validate_config(cfg: &Config) -> (r: Result<(), ConfigError>)
    ensures
        r is Ok <==> first_config_error(cfg.validators@, 0) is None,
        r matches Err(e) ==> first_config_error(cfg.validators@, 0) == Some(e),
{
    let mut i: usize = 0;
    while i < cfg.validators.len()
        invariant
            i <= cfg.validators.len(),
            first_config_error(cfg.validators@, 0) == first_config_error(cfg.validators@, i as int),
        decreases cfg.validators.len() - i,
    {
        let fault = pair_fault(&cfg.validators[i], i);
        if let Some(e) = fault {
            return Err(e);
        }
        i = i + 1;
    }
    Ok(())
}

} // verus!
