use collator_monitor::config::{
    chain_supports_proxy, default_check_interval, default_enabled, default_rpc_url,
    monitored_chains, AppConfig, ChainConfig, Network, SystemChain,
};

fn config() -> AppConfig {
    AppConfig::new("1Dot".to_string(), "CKsm".to_string(), "//Alice".to_string())
}

#[test]
fn network_constants() {
    assert_eq!(Network::Polkadot.decimals(), 10);
    assert_eq!(Network::Kusama.decimals(), 12);
    assert_eq!(Network::Polkadot.reserve_amount(), 10_000_000_000);
    assert_eq!(Network::Kusama.reserve_amount(), 100_000_000_000);
    assert_eq!(Network::Polkadot.symbol(), "DOT");
    assert_eq!(Network::Kusama.symbol(), "KSM");
}

#[test]
fn chains_run_on_their_networks() {
    assert_eq!(
        SystemChain::AssetHub.valid_networks(),
        vec![Network::Polkadot, Network::Kusama]
    );
    assert_eq!(SystemChain::Collectives.valid_networks(), vec![Network::Polkadot]);
    assert_eq!(SystemChain::Encointer.valid_networks(), vec![Network::Kusama]);
    assert!(SystemChain::People.is_on(Network::Kusama));
    assert!(!SystemChain::Encointer.is_on(Network::Polkadot));
}

#[test]
fn display_names() {
    assert_eq!(SystemChain::AssetHub.display_name(Network::Polkadot), "DOT Asset Hub");
    assert_eq!(SystemChain::BridgeHub.display_name(Network::Kusama), "KSM Bridge Hub");
    assert_eq!(SystemChain::Encointer.display_name(Network::Kusama), "KSM Encointer");
}

#[test]
fn ten_chains_are_monitored_in_order() {
    let chains = monitored_chains();
    assert_eq!(chains.len(), 10);
    assert_eq!(chains[0], (Network::Polkadot, SystemChain::AssetHub));
    assert_eq!(chains[2], (Network::Polkadot, SystemChain::Collectives));
    assert_eq!(chains[5], (Network::Kusama, SystemChain::AssetHub));
    assert_eq!(chains[9], (Network::Kusama, SystemChain::Encointer));
    for (network, chain) in chains {
        assert!(chain.is_on(network));
    }
}

#[test]
fn default_endpoints() {
    assert_eq!(
        default_rpc_url(Network::Polkadot, SystemChain::Collectives),
        "wss://rpc-collectives-polkadot.luckyfriday.io"
    );
    assert_eq!(
        default_rpc_url(Network::Kusama, SystemChain::BridgeHub),
        "wss://rpc-bridge-hub-kusama.luckyfriday.io"
    );
}

#[test]
fn only_bridge_hub_has_no_proxy() {
    assert!(!chain_supports_proxy(SystemChain::BridgeHub));
    assert!(chain_supports_proxy(SystemChain::AssetHub));
    assert!(chain_supports_proxy(SystemChain::Encointer));
}

#[test]
fn defaults_of_the_configuration() {
    assert!(default_enabled());
    assert_eq!(default_check_interval(), 3600);
    let c = config();
    assert_eq!(c.check_interval_secs, 3600);
    assert_eq!(c.summary_interval_secs, 3600);
    assert!(c.slack_webhook_url.is_none());
}

#[test]
fn addresses_by_network() {
    let c = config();
    assert_eq!(c.collator_address(Network::Polkadot), "1Dot");
    assert_eq!(c.collator_address(Network::Kusama), "CKsm");
}

#[test]
fn configured_endpoint_replaces_the_default() {
    let mut c = config();
    assert!(c.chain_config(Network::Polkadot, SystemChain::AssetHub).is_none());
    assert_eq!(
        c.rpc_url(Network::Polkadot, SystemChain::AssetHub),
        "wss://rpc-asset-hub-polkadot.luckyfriday.io"
    );
    c.set_chain(
        "polkadot_assethub".to_string(),
        ChainConfig { rpc_url: Some("wss://example".to_string()), enabled: false },
    );
    let chain = c.chain_config(Network::Polkadot, SystemChain::AssetHub).unwrap();
    assert_eq!(chain.rpc_url.as_deref(), Some("wss://example"));
    assert!(!chain.enabled);
    assert_eq!(c.rpc_url(Network::Polkadot, SystemChain::AssetHub), "wss://example");
    assert_eq!(
        c.get_rpc_urls(Network::Polkadot, SystemChain::AssetHub),
        vec!["wss://example".to_string()]
    );
    assert!(c.chain_config(Network::Kusama, SystemChain::AssetHub).is_none());
}

#[test]
fn display_names_are_distinct() {
    let names: Vec<String> =
        monitored_chains().iter().map(|(n, c)| c.display_name(*n)).collect();
    for i in 0..names.len() {
        for j in 0..i {
            assert_ne!(names[i], names[j]);
        }
    }
}

#[test]
fn default_endpoints_are_distinct() {
    let urls: Vec<&str> =
        monitored_chains().iter().map(|(n, c)| default_rpc_url(*n, *c)).collect();
    for i in 0..urls.len() {
        for j in 0..i {
            assert_ne!(urls[i], urls[j]);
        }
    }
}

#[test]
fn chain_without_an_endpoint_keeps_the_default() {
    let mut c = config();
    c.set_chain("polkadot_bridgehub".to_string(), ChainConfig { rpc_url: None, enabled: true });
    assert!(c.chain_config(Network::Polkadot, SystemChain::BridgeHub).unwrap().enabled);
    assert_eq!(
        c.rpc_url(Network::Polkadot, SystemChain::BridgeHub),
        "wss://rpc-bridge-hub-polkadot.luckyfriday.io"
    );
    let copy = c.chain_config(Network::Polkadot, SystemChain::BridgeHub).unwrap().clone();
    assert!(copy.rpc_url.is_none());
}
