//! Networks, system chains and the settings of the monitor.
use crate::text::pow10;
use vstd::hash_map::StringHashMap;
use vstd::prelude::*;

verus! {

/// Network type (Polkadot or Kusama ecosystem).
#[derive(Debug, Clone, Copy, PartialEq, Eq, Hash, Structural)]
pub enum Network {
    Polkadot,
    Kusama,
}

impl Network {
    /// The number of decimals of the network's token.
    pub open spec fn spec_decimals(self) -> u32 {
        match self {
            Network::Polkadot => 10,
            Network::Kusama => 12,
        }
    }

    /// The balance that is never bonded: one DOT, or a tenth of a KSM.
    pub open spec fn spec_reserve(self) -> u128 {
        match self {
            Network::Polkadot => 10_000_000_000,
            Network::Kusama => 100_000_000_000,
        }
    }

    /// The symbol of the network's token.
    pub open spec fn spec_symbol(self) -> Seq<char> {
        match self {
            Network::Polkadot => "DOT"@,
            Network::Kusama => "KSM"@,
        }
    }

    /// The name of the variant.
    pub open spec fn spec_name(self) -> Seq<char> {
        match self {
            Network::Polkadot => "Polkadot"@,
            Network::Kusama => "Kusama"@,
        }
    }

    /// Get the token decimals for this network.
    pub fn decimals(&self) -> (r: u32)
        ensures
            r == self.spec_decimals(),
    {
        match self {
            Network::Polkadot => 10,
            Network::Kusama => 12,
        }
    }

    /// Get the reserve amount to keep (1 DOT or 0.1 KSM).
    pub fn reserve_amount(&self) -> (r: u128)
        ensures
            r == self.spec_reserve(),
    {
        match self {
            Network::Polkadot => 10_000_000_000,
            Network::Kusama => 100_000_000_000,
        }
    }

    /// Get the token symbol.
    pub fn symbol(&self) -> (r: &'static str)
        ensures
            r@ == self.spec_symbol(),
    {
        match self {
            Network::Polkadot => "DOT",
            Network::Kusama => "KSM",
        }
    }

    /// The name of the network, as it is shown in messages.
    pub fn name(&self) -> (r: &'static str)
        ensures
            r@ == self.spec_name(),
    {
        match self {
            Network::Polkadot => "Polkadot",
            Network::Kusama => "Kusama",
        }
    }
}

/// Chain identifier for system chains.
#[derive(Debug, Clone, Copy, PartialEq, Eq, Hash, Structural)]
pub enum SystemChain {
    AssetHub,
    BridgeHub,
    Collectives,
    Coretime,
    People,
    Encointer,
}

/// Whether `chain` runs on `network`: Collectives only on Polkadot, Encointer
/// only on Kusama, every other chain on both.
pub open spec fn runs_on(chain: SystemChain, network: Network) -> bool {
    match chain {
        SystemChain::Collectives => network == Network::Polkadot,
        SystemChain::Encointer => network == Network::Kusama,
        _ => true,
    }
}

impl SystemChain {
    /// The name of the chain, as it is shown in messages.
    pub open spec fn spec_label(self) -> Seq<char> {
        match self {
            SystemChain::AssetHub => "Asset Hub"@,
            SystemChain::BridgeHub => "Bridge Hub"@,
            SystemChain::Collectives => "Collectives"@,
            SystemChain::Coretime => "Coretime"@,
            SystemChain::People => "People"@,
            SystemChain::Encointer => "Encointer"@,
        }
    }

    /// The token symbol, a space and the chain's name.
    pub open spec fn spec_display_name(self, network: Network) -> Seq<char> {
        network.spec_symbol() + " "@ + self.spec_label()
    }

    /// Get the networks this chain belongs to.
    pub fn valid_networks(&self) -> (r: Vec<Network>)
        ensures
            forall|n: Network| #[trigger] r@.contains(n) <==> runs_on(*self, n),
            r@.no_duplicates(),
            r@.len() > 0 && r@[0] == (if runs_on(*self, Network::Polkadot) {
                Network::Polkadot
            } else {
                Network::Kusama
            }),
    {
        let r = match self {
            SystemChain::AssetHub => vec![Network::Polkadot, Network::Kusama],
            SystemChain::BridgeHub => vec![Network::Polkadot, Network::Kusama],
            SystemChain::Collectives => vec![Network::Polkadot],
            SystemChain::Coretime => vec![Network::Polkadot, Network::Kusama],
            SystemChain::People => vec![Network::Polkadot, Network::Kusama],
            SystemChain::Encointer => vec![Network::Kusama],
        };
        proof {
            if r@.len() == 2 {
                assert(r@[0] == Network::Polkadot && r@[1] == Network::Kusama);
            } else {
                assert(r@.len() == 1);
                assert(r@[0] == r@[0]);
            }
        }
        r
    }

    /// Whether this chain runs on `network`.
    pub fn is_on(&self, network: Network) -> (r: bool)
        ensures
            r == runs_on(*self, network),
    {
        match self {
            SystemChain::Collectives => network == Network::Polkadot,
            SystemChain::Encointer => network == Network::Kusama,
            _ => true,
        }
    }

    /// Get display name.
    pub fn display_name(&self, network: Network) -> (r: String)
        ensures
            r@ == self.spec_display_name(network),
    {
        let chain_name = match self {
            SystemChain::AssetHub => "Asset Hub",
            SystemChain::BridgeHub => "Bridge Hub",
            SystemChain::Collectives => "Collectives",
            SystemChain::Coretime => "Coretime",
            SystemChain::People => "People",
            SystemChain::Encointer => "Encointer",
        };
        let mut r = network.symbol().to_string();
        r.append(" ");
        r.append(chain_name);
        r
    }
}

/// The order in which the chains of the two networks are visited.
pub open spec fn spec_monitored_chains() -> Seq<(Network, SystemChain)> {
    seq![
        (Network::Polkadot, SystemChain::AssetHub),
        (Network::Polkadot, SystemChain::BridgeHub),
        (Network::Polkadot, SystemChain::Collectives),
        (Network::Polkadot, SystemChain::Coretime),
        (Network::Polkadot, SystemChain::People),
        (Network::Kusama, SystemChain::AssetHub),
        (Network::Kusama, SystemChain::BridgeHub),
        (Network::Kusama, SystemChain::Coretime),
        (Network::Kusama, SystemChain::People),
        (Network::Kusama, SystemChain::Encointer),
    ]
}

/// Every system chain of both networks, in the order in which they are visited.
pub fn monitored_chains() -> (r: Vec<(Network, SystemChain)>)
    ensures
        r@ == spec_monitored_chains(),
{
    let r = vec![
        (Network::Polkadot, SystemChain::AssetHub),
        (Network::Polkadot, SystemChain::BridgeHub),
        (Network::Polkadot, SystemChain::Collectives),
        (Network::Polkadot, SystemChain::Coretime),
        (Network::Polkadot, SystemChain::People),
        (Network::Kusama, SystemChain::AssetHub),
        (Network::Kusama, SystemChain::BridgeHub),
        (Network::Kusama, SystemChain::Coretime),
        (Network::Kusama, SystemChain::People),
        (Network::Kusama, SystemChain::Encointer),
    ];
    assert(r@ =~= spec_monitored_chains());
    r
}

/// Configuration for a single chain endpoint.
#[derive(Debug)]
pub struct ChainConfig {
    /// RPC WebSocket URL, where it is not the default one
    pub rpc_url: Option<String>,
    /// Whether to act on this chain without an operator
    pub enabled: bool,
}

impl Clone for ChainConfig {
    fn clone(&self) -> (r: ChainConfig)
        ensures
            r == *self,
    {
        let rpc_url = match &self.rpc_url {
            Some(url) => Some(url.clone()),
            None => None,
        };
        ChainConfig { rpc_url, enabled: self.enabled }
    }
}

/// Whether a chain that is configured without the setting is enabled.
pub fn default_enabled() -> (r: bool)
    ensures
        r == true,
{
    true
}

/// The check interval where none is configured: one hour, in seconds.
pub fn default_check_interval() -> (r: u64)
    ensures
        r == 60 * 60,
{
    3600
}

/// Main application configuration.
pub struct AppConfig {
    /// Collator account address for Polkadot chains (SS58 format)
    pub polkadot_collator_address: String,
    /// Collator account address for Kusama chains (SS58 format)
    pub kusama_collator_address: String,
    /// Seed of the proxy account, which signs on behalf of the collator
    pub proxy_seed: String,
    /// Slack webhook URL for notifications
    pub slack_webhook_url: Option<String>,
    /// Slack bot token, for messages that can be updated and deleted
    pub slack_bot_token: Option<String>,
    /// Slack channel that the bot token posts to
    pub slack_channel: Option<String>,
    /// Slack users to mention when an on-chain action is needed
    pub slack_user_ids_onchain: Vec<String>,
    /// Slack users to mention when operations need attention
    pub slack_user_ids_ops: Vec<String>,
    /// Check interval in seconds (for continuous monitoring mode)
    pub check_interval_secs: u64,
    /// Interval between two status summaries, in seconds
    pub summary_interval_secs: u64,
    /// Chain-specific configurations, keyed by network and chain,
    /// e.g. "polkadot_assethub"
    pub chains: StringHashMap<ChainConfig>,
}

/// The key of a network in the chain-specific configurations.
pub open spec fn network_key(network: Network) -> Seq<char> {
    match network {
        Network::Polkadot => "polkadot"@,
        Network::Kusama => "kusama"@,
    }
}

/// The key of a chain in the chain-specific configurations.
pub open spec fn system_chain_key(chain: SystemChain) -> Seq<char> {
    match chain {
        SystemChain::AssetHub => "assethub"@,
        SystemChain::BridgeHub => "bridgehub"@,
        SystemChain::Collectives => "collectives"@,
        SystemChain::Coretime => "coretime"@,
        SystemChain::People => "people"@,
        SystemChain::Encointer => "encointer"@,
    }
}

/// The key under which a chain of a network is configured.
pub open spec fn chain_key(network: Network, chain: SystemChain) -> Seq<char> {
    network_key(network) + "_"@ + system_chain_key(chain)
}

fn chain_key_text(network: Network, chain: SystemChain) -> (r: String)
    ensures
        r@ == chain_key(network, chain),
{
    let network_part = match network {
        Network::Polkadot => "polkadot",
        Network::Kusama => "kusama",
    };
    let chain_part = match chain {
        SystemChain::AssetHub => "assethub",
        SystemChain::BridgeHub => "bridgehub",
        SystemChain::Collectives => "collectives",
        SystemChain::Coretime => "coretime",
        SystemChain::People => "people",
        SystemChain::Encointer => "encointer",
    };
    let mut r = network_part.to_string();
    r.append("_");
    r.append(chain_part);
    r
}

impl AppConfig {
    /// What is configured for a chain, if anything is.
    pub open spec fn spec_chain_config(self, network: Network, chain: SystemChain) -> Option<
        ChainConfig,
    > {
        let key = chain_key(network, chain);
        if self.chains@.contains_key(key) {
            Some(self.chains@[key])
        } else {
            None
        }
    }

    /// The collator's address on a network.
    pub open spec fn spec_collator_address(self, network: Network) -> Seq<char> {
        match network {
            Network::Polkadot => self.polkadot_collator_address@,
            Network::Kusama => self.kusama_collator_address@,
        }
    }

    /// The endpoint that is configured for a chain, if one is.
    pub open spec fn configured_url(self, network: Network, chain: SystemChain) -> Option<
        Seq<char>,
    > {
        match self.spec_chain_config(network, chain) {
            Some(c) => match c.rpc_url {
                Some(url) => Some(url@),
                None => None,
            },
            None => None,
        }
    }

    /// The configured endpoint of a chain, and its default endpoint where none
    /// is configured.
    pub open spec fn spec_rpc_url(self, network: Network, chain: SystemChain) -> Seq<char> {
        match self.configured_url(network, chain) {
            Some(url) => url,
            None => spec_default_rpc_url(network, chain),
        }
    }

    /// A configuration with the addresses and the seed, and defaults for the rest:
    /// no Slack, an hour between two checks and between two summaries, and no
    /// chain-specific configurations.
    pub fn new(
        polkadot_collator_address: String,
        kusama_collator_address: String,
        proxy_seed: String,
    ) -> (r: AppConfig)
        ensures
            r.polkadot_collator_address == polkadot_collator_address,
            r.kusama_collator_address == kusama_collator_address,
            r.proxy_seed == proxy_seed,
            r.slack_webhook_url is None,
            r.slack_bot_token is None,
            r.slack_channel is None,
            r.slack_user_ids_onchain@.len() == 0,
            r.slack_user_ids_ops@.len() == 0,
            r.check_interval_secs == 60 * 60,
            r.summary_interval_secs == 60 * 60,
            r.chains@ == Map::<Seq<char>, ChainConfig>::empty(),
    {
        AppConfig {
            polkadot_collator_address,
            kusama_collator_address,
            proxy_seed,
            slack_webhook_url: None,
            slack_bot_token: None,
            slack_channel: None,
            slack_user_ids_onchain: Vec::new(),
            slack_user_ids_ops: Vec::new(),
            check_interval_secs: default_check_interval(),
            summary_interval_secs: default_check_interval(),
            chains: StringHashMap::new(),
        }
    }

    /// Configure a chain under a key such as "polkadot_assethub".
    pub fn set_chain(&mut self, key: String, config: ChainConfig)
        ensures
            final(self).chains@ == old(self).chains@.insert(key@, config),
            *final(self) == (AppConfig { chains: final(self).chains, ..*old(self) }),
    {
        self.chains.insert(key, config);
    }

    /// Get the collator address for a given network.
    pub fn collator_address(&self, network: Network) -> (r: &str)
        ensures
            r@ == self.spec_collator_address(network),
    {
        match network {
            Network::Polkadot => self.polkadot_collator_address.as_str(),
            Network::Kusama => self.kusama_collator_address.as_str(),
        }
    }

    /// Get chain config for a specific network and chain.
    pub fn chain_config(&self, network: Network, chain: SystemChain) -> (r: Option<&ChainConfig>)
        ensures
            match r {
                Some(c) => self.spec_chain_config(network, chain) == Some(*c),
                None => self.spec_chain_config(network, chain) is None,
            },
    {
        let key = chain_key_text(network, chain);
        self.chains.get(key.as_str())
    }

    /// The endpoint of a chain: the configured one, or else the default one.
    pub fn rpc_url(&self, network: Network, chain: SystemChain) -> (r: &str)
        requires
            self.configured_url(network, chain) is Some || runs_on(chain, network),
        ensures
            r@ == self.spec_rpc_url(network, chain),
    {
        if let Some(c) = self.chain_config(network, chain) {
            if let Some(url) = &c.rpc_url {
                return url.as_str();
            }
        }
        default_rpc_url(network, chain)
    }

    /// The endpoints of a chain, in the order in which they are tried.
    pub fn get_rpc_urls(&self, network: Network, chain: SystemChain) -> (r: Vec<String>)
        requires
            self.configured_url(network, chain) is Some || runs_on(chain, network),
        ensures
            r@.len() == 1,
            r@[0]@ == self.spec_rpc_url(network, chain),
    {
        let mut r: Vec<String> = Vec::new();
        r.push(self.rpc_url(network, chain).to_string());
        r
    }
}

/// The default endpoint of a chain.
pub open spec fn spec_default_rpc_url(network: Network, chain: SystemChain) -> Seq<char> {
    match (network, chain) {
        (Network::Polkadot, SystemChain::AssetHub) => "wss://rpc-asset-hub-polkadot.luckyfriday.io"@,
        (
            Network::Polkadot,
            SystemChain::BridgeHub,
        ) => "wss://rpc-bridge-hub-polkadot.luckyfriday.io"@,
        (
            Network::Polkadot,
            SystemChain::Collectives,
        ) => "wss://rpc-collectives-polkadot.luckyfriday.io"@,
        (Network::Polkadot, SystemChain::Coretime) => "wss://rpc-coretime-polkadot.luckyfriday.io"@,
        (Network::Polkadot, SystemChain::People) => "wss://rpc-people-polkadot.luckyfriday.io"@,
        (Network::Kusama, SystemChain::AssetHub) => "wss://rpc-asset-hub-kusama.luckyfriday.io"@,
        (Network::Kusama, SystemChain::BridgeHub) => "wss://rpc-bridge-hub-kusama.luckyfriday.io"@,
        (Network::Kusama, SystemChain::Coretime) => "wss://rpc-coretime-kusama.luckyfriday.io"@,
        (Network::Kusama, SystemChain::People) => "wss://rpc-people-kusama.luckyfriday.io"@,
        (Network::Kusama, SystemChain::Encointer) => "wss://rpc-encointer-kusama.luckyfriday.io"@,
        _ => Seq::empty(),
    }
}

/// Default RPC endpoints for system chains (LuckyFriday endpoints).
pub fn default_rpc_url(network: Network, chain: SystemChain) -> (r: &'static str)
    requires
        runs_on(chain, network),
    ensures
        r@ == spec_default_rpc_url(network, chain),
{
    match (network, chain) {
        (Network::Polkadot, SystemChain::AssetHub) => "wss://rpc-asset-hub-polkadot.luckyfriday.io",
        (
            Network::Polkadot,
            SystemChain::BridgeHub,
        ) => "wss://rpc-bridge-hub-polkadot.luckyfriday.io",
        (
            Network::Polkadot,
            SystemChain::Collectives,
        ) => "wss://rpc-collectives-polkadot.luckyfriday.io",
        (Network::Polkadot, SystemChain::Coretime) => "wss://rpc-coretime-polkadot.luckyfriday.io",
        (Network::Polkadot, _) => "wss://rpc-people-polkadot.luckyfriday.io",
        (Network::Kusama, SystemChain::AssetHub) => "wss://rpc-asset-hub-kusama.luckyfriday.io",
        (Network::Kusama, SystemChain::BridgeHub) => "wss://rpc-bridge-hub-kusama.luckyfriday.io",
        (Network::Kusama, SystemChain::Coretime) => "wss://rpc-coretime-kusama.luckyfriday.io",
        (Network::Kusama, SystemChain::People) => "wss://rpc-people-kusama.luckyfriday.io",
        (Network::Kusama, _) => "wss://rpc-encointer-kusama.luckyfriday.io",
    }
}

/// Whether a chain lets a proxy register a collator: every chain but BridgeHub.
pub open spec fn supports_proxy(chain: SystemChain) -> bool {
    chain != SystemChain::BridgeHub
}

/// Check if a chain supports proxy accounts for collator registration.
/// BridgeHub does not, so only its status is checked.
pub fn chain_supports_proxy(chain: SystemChain) -> (r: bool)
    ensures
        r == supports_proxy(chain),
{
    match chain {
        SystemChain::BridgeHub => false,
        _ => true,
    }
}

/// The chains that are visited are exactly those that run on their network,
/// each of them once.
pub proof fn law_every_chain_is_monitored_once(network: Network, chain: SystemChain)
    ensures
        spec_monitored_chains().contains((network, chain)) <==> runs_on(chain, network),
        spec_monitored_chains().no_duplicates(),
{
    let all = spec_monitored_chains();
    assert(all[0] == (Network::Polkadot, SystemChain::AssetHub));
    assert(all[1] == (Network::Polkadot, SystemChain::BridgeHub));
    assert(all[2] == (Network::Polkadot, SystemChain::Collectives));
    assert(all[3] == (Network::Polkadot, SystemChain::Coretime));
    assert(all[4] == (Network::Polkadot, SystemChain::People));
    assert(all[5] == (Network::Kusama, SystemChain::AssetHub));
    assert(all[6] == (Network::Kusama, SystemChain::BridgeHub));
    assert(all[7] == (Network::Kusama, SystemChain::Coretime));
    assert(all[8] == (Network::Kusama, SystemChain::People));
    assert(all[9] == (Network::Kusama, SystemChain::Encointer));
}

/// The reserve is one whole token on Polkadot and a tenth of one on Kusama.
pub proof fn law_reserve_is_one_dot_or_a_tenth_of_a_ksm()
    ensures
        Network::Polkadot.spec_reserve() == pow10(Network::Polkadot.spec_decimals() as nat),
        Network::Kusama.spec_reserve() * 10 == pow10(Network::Kusama.spec_decimals() as nat),
{
    reveal_with_fuel(pow10, 13);
}

/// Two chains with the same display name are the same chain on the same network.
pub proof fn law_display_names_differ(n1: Network, c1: SystemChain, n2: Network, c2: SystemChain)
    requires
        c1.spec_display_name(n1) == c2.spec_display_name(n2),
    ensures
        n1 == n2,
        c1 == c2,
{
    reveal_strlit("DOT");
    reveal_strlit("KSM");
    reveal_strlit(" ");
    reveal_strlit("Asset Hub");
    reveal_strlit("Bridge Hub");
    reveal_strlit("Collectives");
    reveal_strlit("Coretime");
    reveal_strlit("People");
    reveal_strlit("Encointer");
    let a = c1.spec_display_name(n1);
    let b = c2.spec_display_name(n2);
    assert(a[0] == b[0]);
    assert(a[4] == b[4]);
    assert(a[5] == b[5]);
    assert(a[6] == b[6]);
}

/// No two chains have the same default endpoint.
pub proof fn law_default_endpoints_differ(
    n1: Network,
    c1: SystemChain,
    n2: Network,
    c2: SystemChain,
)
    requires
        runs_on(c1, n1),
        runs_on(c2, n2),
        spec_default_rpc_url(n1, c1) == spec_default_rpc_url(n2, c2),
    ensures
        n1 == n2,
        c1 == c2,
{
    reveal_strlit("wss://rpc-asset-hub-polkadot.luckyfriday.io");
    reveal_strlit("wss://rpc-bridge-hub-polkadot.luckyfriday.io");
    reveal_strlit("wss://rpc-collectives-polkadot.luckyfriday.io");
    reveal_strlit("wss://rpc-coretime-polkadot.luckyfriday.io");
    reveal_strlit("wss://rpc-people-polkadot.luckyfriday.io");
    reveal_strlit("wss://rpc-asset-hub-kusama.luckyfriday.io");
    reveal_strlit("wss://rpc-bridge-hub-kusama.luckyfriday.io");
    reveal_strlit("wss://rpc-coretime-kusama.luckyfriday.io");
    reveal_strlit("wss://rpc-people-kusama.luckyfriday.io");
    reveal_strlit("wss://rpc-encointer-kusama.luckyfriday.io");
    let a = spec_default_rpc_url(n1, c1);
    let b = spec_default_rpc_url(n2, c2);
    assert(a.len() == b.len());
    assert(a[10] == b[10]);
    assert(a[12] == b[12]);
}

/// Two chains that are configured under the same key are the same chain on the
/// same network.
pub proof fn law_chain_keys_differ(n1: Network, c1: SystemChain, n2: Network, c2: SystemChain)
    requires
        chain_key(n1, c1) == chain_key(n2, c2),
    ensures
        n1 == n2,
        c1 == c2,
{
    reveal_strlit("polkadot");
    reveal_strlit("kusama");
    reveal_strlit("_");
    reveal_strlit("assethub");
    reveal_strlit("bridgehub");
    reveal_strlit("collectives");
    reveal_strlit("coretime");
    reveal_strlit("people");
    reveal_strlit("encointer");
    let a = chain_key(n1, c1);
    let b = chain_key(n2, c2);
    assert(a[0] == b[0]);
    let at: int = network_key(n1).len() + 1int;
    assert(a[at] == b[at]);
    assert(a[at + 2] == b[at + 2]);
}

/// The token of Polkadot is DOT, with ten digits behind the point, and that of
/// Kusama is KSM, with twelve; a tenth of the tokens that make up the reserve is
/// 0.1 DOT or 0.01 KSM.
pub proof fn law_tokens_of_the_networks(network: Network)
    ensures
        network is Polkadot <==> network.spec_symbol() == "DOT"@,
        network is Kusama <==> network.spec_symbol() == "KSM"@,
        network.spec_decimals() == (if network is Polkadot {
            10
        } else {
            12int
        }),
        network.spec_reserve() == (if network is Polkadot {
            10_000_000_000
        } else {
            100_000_000_000int
        }),
        network.spec_name() == (if network is Polkadot {
            "Polkadot"@
        } else {
            "Kusama"@
        }),
{
    reveal_strlit("DOT");
    reveal_strlit("KSM");
    assert("DOT"@[0] == 'D' && "KSM"@[0] == 'K');
}

/// Every chain but Collectives and Encointer runs on both networks; Collectives
/// runs on Polkadot alone and Encointer on Kusama alone.
pub proof fn law_chains_of_the_networks(chain: SystemChain)
    ensures
        runs_on(chain, Network::Polkadot) <==> !(chain is Encointer),
        runs_on(chain, Network::Kusama) <==> !(chain is Collectives),
        supports_proxy(chain) <==> !(chain is BridgeHub),
{
}

/// The place of a chain among the chains of its network.
pub open spec fn chain_place(chain: SystemChain) -> int {
    match chain {
        SystemChain::AssetHub => 0,
        SystemChain::BridgeHub => 1,
        SystemChain::Collectives => 2,
        SystemChain::Coretime => 3,
        SystemChain::People => 4,
        SystemChain::Encointer => 5,
    }
}

/// The chains of Polkadot are visited before those of Kusama, and the chains of a
/// network in the order of their places.
pub proof fn law_chains_are_visited_in_order(i: int, j: int)
    requires
        0 <= i < j < spec_monitored_chains().len(),
    ensures
        ({
            let (n1, c1) = spec_monitored_chains()[i];
            let (n2, c2) = spec_monitored_chains()[j];
            (n1 is Polkadot && n2 is Kusama) || (n1 == n2 && chain_place(c1) < chain_place(c2))
        }),
{
}

/// A chain is shown by its network's symbol and its own name, and configured under
/// its network's name and its own one in lower case.
pub proof fn law_names_of_the_chains(network: Network, chain: SystemChain)
    ensures
        ({
            let (label, key) = match chain {
                SystemChain::AssetHub => ("Asset Hub"@, "assethub"@),
                SystemChain::BridgeHub => ("Bridge Hub"@, "bridgehub"@),
                SystemChain::Collectives => ("Collectives"@, "collectives"@),
                SystemChain::Coretime => ("Coretime"@, "coretime"@),
                SystemChain::People => ("People"@, "people"@),
                SystemChain::Encointer => ("Encointer"@, "encointer"@),
            };
            let (symbol, name) = if network is Polkadot {
                ("DOT "@, "polkadot_"@)
            } else {
                ("KSM "@, "kusama_"@)
            };
            chain.spec_display_name(network) == symbol + label && chain_key(network, chain) == name
                + key
        }),
{
    reveal_strlit("DOT");
    reveal_strlit("KSM");
    reveal_strlit(" ");
    reveal_strlit("DOT ");
    reveal_strlit("KSM ");
    reveal_strlit("polkadot");
    reveal_strlit("kusama");
    reveal_strlit("_");
    reveal_strlit("polkadot_");
    reveal_strlit("kusama_");
    assert("DOT"@ + " "@ =~= "DOT "@);
    assert("KSM"@ + " "@ =~= "KSM "@);
    assert("polkadot"@ + "_"@ =~= "polkadot_"@);
    assert("kusama"@ + "_"@ =~= "kusama_"@);
}

/// The default endpoint of a chain is the secure socket of a host that is named
/// after the chain and its network.
#[verifier::rlimit(50)]
pub proof fn law_default_endpoints_are_named_after_their_chains(network: Network, chain: SystemChain)
    requires
        runs_on(chain, network),
    ensures
        ({
            let slug = match chain {
                SystemChain::AssetHub => "asset-hub"@,
                SystemChain::BridgeHub => "bridge-hub"@,
                SystemChain::Collectives => "collectives"@,
                SystemChain::Coretime => "coretime"@,
                SystemChain::People => "people"@,
                SystemChain::Encointer => "encointer"@,
            };
            let host = if network is Polkadot {
                "-polkadot.luckyfriday.io"@
            } else {
                "-kusama.luckyfriday.io"@
            };
            spec_default_rpc_url(network, chain) == "wss://rpc-"@ + slug + host
        }),
{
    reveal_strlit("wss://rpc-");
    reveal_strlit("asset-hub");
    reveal_strlit("bridge-hub");
    reveal_strlit("collectives");
    reveal_strlit("coretime");
    reveal_strlit("people");
    reveal_strlit("encointer");
    reveal_strlit("-polkadot.luckyfriday.io");
    reveal_strlit("-kusama.luckyfriday.io");
    reveal_strlit("wss://rpc-asset-hub-polkadot.luckyfriday.io");
    reveal_strlit("wss://rpc-bridge-hub-polkadot.luckyfriday.io");
    reveal_strlit("wss://rpc-collectives-polkadot.luckyfriday.io");
    reveal_strlit("wss://rpc-coretime-polkadot.luckyfriday.io");
    reveal_strlit("wss://rpc-people-polkadot.luckyfriday.io");
    reveal_strlit("wss://rpc-asset-hub-kusama.luckyfriday.io");
    reveal_strlit("wss://rpc-bridge-hub-kusama.luckyfriday.io");
    reveal_strlit("wss://rpc-coretime-kusama.luckyfriday.io");
    reveal_strlit("wss://rpc-people-kusama.luckyfriday.io");
    reveal_strlit("wss://rpc-encointer-kusama.luckyfriday.io");
    let url = spec_default_rpc_url(network, chain);
    match (network, chain) {
        (Network::Polkadot, SystemChain::AssetHub) => assert(url =~= "wss://rpc-"@ + "asset-hub"@
            + "-polkadot.luckyfriday.io"@),
        (Network::Polkadot, SystemChain::BridgeHub) => assert(url =~= "wss://rpc-"@ + "bridge-hub"@
            + "-polkadot.luckyfriday.io"@),
        (Network::Polkadot, SystemChain::Collectives) => assert(url =~= "wss://rpc-"@
            + "collectives"@ + "-polkadot.luckyfriday.io"@),
        (Network::Polkadot, SystemChain::Coretime) => assert(url =~= "wss://rpc-"@ + "coretime"@
            + "-polkadot.luckyfriday.io"@),
        (Network::Polkadot, _) => assert(url =~= "wss://rpc-"@ + "people"@
            + "-polkadot.luckyfriday.io"@),
        (Network::Kusama, SystemChain::AssetHub) => assert(url =~= "wss://rpc-"@ + "asset-hub"@
            + "-kusama.luckyfriday.io"@),
        (Network::Kusama, SystemChain::BridgeHub) => assert(url =~= "wss://rpc-"@ + "bridge-hub"@
            + "-kusama.luckyfriday.io"@),
        (Network::Kusama, SystemChain::Coretime) => assert(url =~= "wss://rpc-"@ + "coretime"@
            + "-kusama.luckyfriday.io"@),
        (Network::Kusama, SystemChain::People) => assert(url =~= "wss://rpc-"@ + "people"@
            + "-kusama.luckyfriday.io"@),
        (Network::Kusama, _) => assert(url =~= "wss://rpc-"@ + "encointer"@
            + "-kusama.luckyfriday.io"@),
    }
}

/// What is configured for a chain is what stands under its key, and nothing else.
/// The endpoint that is configured there is used as it is, whether or not the chain
/// is enabled; without one it is the default one. The address is the network's.
pub proof fn law_settings_of_a_chain(config: AppConfig, network: Network, chain: SystemChain)
    ensures
        ({
            let key = chain_key(network, chain);
            let url = config.spec_rpc_url(network, chain);
            &&& config.chains@.contains_key(key) ==> config.spec_chain_config(network, chain) == Some(
                config.chains@[key],
            )
            &&& !config.chains@.contains_key(key) ==> config.spec_chain_config(network, chain)
                is None
            &&& if config.chains@.contains_key(key) && config.chains@[key].rpc_url is Some {
                config.configured_url(network, chain) == Some(url) && url
                    == config.chains@[key].rpc_url->0@
            } else {
                config.configured_url(network, chain) is None && url == spec_default_rpc_url(
                    network,
                    chain,
                )
            }
        }),
        config.spec_collator_address(Network::Polkadot) == config.polkadot_collator_address@,
        config.spec_collator_address(Network::Kusama) == config.kusama_collator_address@,
{
}

} // verus!
