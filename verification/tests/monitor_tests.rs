use collator_monitor::account::AccountId32;
use collator_monitor::block_tracker::LastBlockInfo;
use collator_monitor::bonds::{
    find_highest_deposit, find_lowest_bond, find_lowest_deposit, find_rank, rank_candidates,
};
use collator_monitor::chain_client::{ChainClient, CollatorStatus};
use collator_monitor::config::{AppConfig, ChainConfig, Network, SystemChain};
use collator_monitor::decode::CandidateInfo;
use collator_monitor::monitor::{
    decide, format_balance, get_chain_slot_info, monitor_chain_internal, operator_call_data,
    registration_call_info,    report_of, status_message, ChainFacts, ChainPlan, CollatorMonitor, Decision, MonitorResult,
    MonitorStatus, MonitorStep, RegistrationProgress, RegistrationStep,
};
use collator_monitor::report::{
    has_errors, network_heading, print_results, run_status, unreachable_line, ReportPart,
};
use collator_monitor::seed::SeedError;
use collator_monitor::watch::{summary_is_due, Watch, WatchAction, WatchPhase};

const DOT: u128 = 10_000_000_000;
const KSM: u128 = 1_000_000_000_000;
const ME: AccountId32 = AccountId32([1; 32]);

fn config() -> AppConfig {
    let mut c = AppConfig::new("1Dot".to_string(), "CKsm".to_string(), "//Alice".to_string());
    c.slack_webhook_url = Some("https://hook".to_string());
    c
}

fn candidate(seed: u8, deposit: u128) -> CandidateInfo {
    CandidateInfo { who: AccountId32([seed; 32]), deposit }
}

fn people() -> ChainClient {
    ChainClient::new(Network::Polkadot, SystemChain::People)
}

fn no_collator(free: u128, bond: u128, candidates: &Vec<CandidateInfo>) -> Decision {
    decide(Network::Polkadot, false, CollatorStatus::NotCollator, free, bond, candidates)
}

fn facts(free_balance: u128, candidacy_bond: u128, candidates: Vec<CandidateInfo>) -> ChainFacts {
    ChainFacts { free_balance, candidacy_bond, candidates }
}

#[test]
fn balances_without_needless_digits() {
    assert_eq!(format_balance(2 * DOT, 10, "DOT"), "2 DOT");
    assert_eq!(format_balance(15_000_000_000, 10, "DOT"), "1.5 DOT");
    assert_eq!(format_balance(12_345_678_901, 10, "DOT"), "1.2345 DOT");
    assert_eq!(format_balance(10_000_000_001, 10, "DOT"), "1.0000 DOT");
    assert_eq!(format_balance(0, 10, "DOT"), "0 DOT");
    assert_eq!(format_balance(7, 0, "X"), "7 X");
}

#[test]
fn invulnerable_collators_are_left_alone() {
    let d = decide(Network::Kusama, false, CollatorStatus::Invulnerable, 100 * KSM, 1, &vec![]);
    assert_eq!(d, Decision::Nothing);
}

#[test]
fn bonds_are_raised_by_what_is_available() {
    let status = CollatorStatus::Candidate { deposit: 100 * DOT };
    let d = |read_only, free| decide(Network::Polkadot, read_only, status, free, DOT, &vec![]);
    assert_eq!(
        d(false, 6 * DOT),
        Decision::RaiseBond { old_bond: 100 * DOT, new_bond: 105 * DOT }
    );
    assert_eq!(
        d(true, 6 * DOT),
        Decision::AskForBond { old_bond: 100 * DOT, new_bond: 105 * DOT }
    );
    assert_eq!(d(false, DOT + 999_999_999), Decision::Nothing);
    assert_eq!(
        d(false, DOT + 1_000_000_000),
        Decision::RaiseBond { old_bond: 100 * DOT, new_bond: 100 * DOT + 1_000_000_000 }
    );
    assert_eq!(d(false, 0), Decision::Nothing);
}

#[test]
fn least_increase_on_kusama() {
    let status = CollatorStatus::Candidate { deposit: 1 };
    let d = |free| decide(Network::Kusama, false, status, free, 1, &vec![]);
    assert_eq!(d(100_000_000_000 + 9_999_999_999), Decision::Nothing);
    assert_eq!(
        d(100_000_000_000 + 10_000_000_000),
        Decision::RaiseBond { old_bond: 1, new_bond: 10_000_000_001 }
    );
}

#[test]
fn bonds_end_at_the_largest_number() {
    let status = CollatorStatus::Candidate { deposit: u128::MAX - 5 };
    let d = decide(Network::Polkadot, false, status, 3 * DOT, 1, &vec![]);
    assert_eq!(d, Decision::RaiseBond { old_bond: u128::MAX - 5, new_bond: u128::MAX });
}

#[test]
fn registration_needs_the_candidacy_bond() {
    assert_eq!(
        no_collator(5 * DOT, 5 * DOT, &vec![]),
        Decision::InsufficientFunds { available: 4 * DOT, required: 5 * DOT }
    );
    assert_eq!(
        no_collator(6 * DOT, 5 * DOT, &vec![]),
        Decision::Register { bond: 5 * DOT, candidacy_bond: 5 * DOT }
    );
}

#[test]
fn registration_has_to_beat_the_lowest_candidate() {
    let candidates = vec![candidate(2, 9 * DOT), candidate(3, 7 * DOT), candidate(4, 0)];
    assert_eq!(
        no_collator(8 * DOT, DOT, &candidates),
        Decision::CannotCompete { available: 7 * DOT, lowest_candidate: 7 * DOT, needed: 1 }
    );
    assert_eq!(
        no_collator(6 * DOT, DOT, &candidates),
        Decision::CannotCompete {
            available: 5 * DOT,
            lowest_candidate: 7 * DOT,
            needed: 2 * DOT + 1
        }
    );
    assert_eq!(
        no_collator(8 * DOT + 1, DOT, &candidates),
        Decision::Register { bond: 7 * DOT + 1, candidacy_bond: DOT }
    );
    let d = decide(
        Network::Polkadot,
        true,
        CollatorStatus::NotCollator,
        8 * DOT + 1,
        DOT,
        &candidates,
    );
    assert_eq!(d, Decision::AskForRegistration { bond: 7 * DOT + 1 });
}

#[test]
fn chains_are_planned() {
    let mut c = config();
    c.set_chain(
        "kusama_people".to_string(),
        ChainConfig { rpc_url: Some("wss://people".to_string()), enabled: false },
    );
    let m = CollatorMonitor::new(c).unwrap();
    match m.monitor_chain(Network::Polkadot, SystemChain::AssetHub) {
        ChainPlan::Check { read_only, rpc_url, collator_address } => {
            assert!(!read_only);
            assert_eq!(rpc_url, "wss://rpc-asset-hub-polkadot.luckyfriday.io");
            assert_eq!(collator_address, "1Dot");
        }
        other => panic!("{:?}", other),
    }
    match m.monitor_chain(Network::Kusama, SystemChain::People) {
        ChainPlan::Check { read_only, rpc_url, collator_address } => {
            assert!(read_only);
            assert_eq!(rpc_url, "wss://people");
            assert_eq!(collator_address, "CKsm");
        }
        other => panic!("{:?}", other),
    }
    match m.monitor_chain(Network::Kusama, SystemChain::BridgeHub) {
        ChainPlan::Check { read_only, .. } => assert!(read_only),
        other => panic!("{:?}", other),
    }
    match m.monitor_chain(Network::Polkadot, SystemChain::Encointer) {
        ChainPlan::Skip { reason } => assert_eq!(reason, "Chain not available on Polkadot"),
        other => panic!("{:?}", other),
    }
}

#[test]
fn monitor_needs_a_seed() {
    let mut c = config();
    c.proxy_seed = "0x12".to_string();
    assert!(matches!(CollatorMonitor::new(c), Err(SeedError::HexLength(1))));
    let m = CollatorMonitor::new(config()).unwrap();
    assert_eq!(
        m.proxy_signer().public_key().0,
        subxt_signer::sr25519::dev::alice().public_key().0
    );
    assert_eq!(m.summary_interval_secs(), 3600);
    assert_eq!(m.config().polkadot_collator_address, "1Dot");
    assert!(!m.slack().has_bot_token());
}

#[test]
fn facts_are_read_where_needed() {
    let step = monitor_chain_internal(&people(), false, &ME, CollatorStatus::NotCollator, None);
    assert!(matches!(step, MonitorStep::ReadFacts));
    let step = monitor_chain_internal(&people(), false, &ME, CollatorStatus::Invulnerable, None);
    match step {
        MonitorStep::Report { decision, calls, status } => {
            assert_eq!(decision, Decision::Nothing);
            assert!(calls.is_empty());
            assert!(matches!(
                status,
                MonitorStatus::AlreadyCollator(CollatorStatus::Invulnerable)
            ));
        }
        other => panic!("{:?}", other),
    }
}

#[test]
fn registration_is_submitted() {
    let f = facts(6 * DOT, 2 * DOT, vec![]);
    match monitor_chain_internal(&people(), false, &ME, CollatorStatus::NotCollator, Some(&f)) {
        MonitorStep::Register { bond, call, bond_call } => {
            assert_eq!(bond, 5 * DOT);
            assert_eq!((call.pallet, call.name), ("Proxy", "proxy"));
            assert_eq!(bond_call.unwrap().name, "proxy");
        }
        other => panic!("{:?}", other),
    }
    let f = facts(6 * DOT, 5 * DOT, vec![]);
    match monitor_chain_internal(&people(), false, &ME, CollatorStatus::NotCollator, Some(&f)) {
        MonitorStep::Register { bond_call, .. } => assert!(bond_call.is_none()),
        other => panic!("{:?}", other),
    }
}

#[test]
fn higher_bond_is_submitted() {
    let f = facts(6 * DOT, DOT, vec![]);
    let status = CollatorStatus::Candidate { deposit: DOT };
    match monitor_chain_internal(&people(), false, &ME, status, Some(&f)) {
        MonitorStep::RaiseBond { old_bond, new_bond, call } => {
            assert_eq!((old_bond, new_bond), (DOT, 6 * DOT));
            assert_eq!((call.pallet, call.name), ("Proxy", "proxy"));
        }
        other => panic!("{:?}", other),
    }
}

#[test]
fn operator_gets_the_calls() {
    let f = facts(6 * DOT, DOT, vec![]);
    let hub = ChainClient::new(Network::Polkadot, SystemChain::BridgeHub);
    match monitor_chain_internal(&hub, true, &ME, CollatorStatus::NotCollator, Some(&f)) {
        MonitorStep::Report { decision, calls, status } => {
            assert_eq!(decision, Decision::AskForRegistration { bond: 5 * DOT });
            assert_eq!(calls.len(), 2);
            assert_eq!(calls[0].name, "register_as_candidate");
            assert_eq!(calls[1].args[0].as_u128(), Some(5 * DOT));
            match status {
                MonitorStatus::ManualActionRequired { reason, current_status } => {
                    assert_eq!(reason, "No proxy support - registration required");
                    assert_eq!(current_status, CollatorStatus::NotCollator);
                }
                other => panic!("{:?}", other),
            }
        }
        other => panic!("{:?}", other),
    }
    let status = CollatorStatus::Candidate { deposit: DOT };
    match monitor_chain_internal(&people(), true, &ME, status, Some(&f)) {
        MonitorStep::Report { calls, status, .. } => {
            assert_eq!(calls.len(), 1);
            assert_eq!(calls[0].args[0].as_u128(), Some(6 * DOT));
            match status {
                MonitorStatus::ManualActionRequired { reason, .. } => {
                    assert_eq!(reason, "Chain disabled - bond update required");
                }
                other => panic!("{:?}", other),
            }
        }
        other => panic!("{:?}", other),
    }
    assert_eq!(
        registration_call_info("0x01", "0x02"),
        "1. Register: 0x01\n2. Update bond: 0x02"
    );
}

#[test]
fn reports_without_a_submission() {
    let d = Decision::InsufficientFunds { available: 1, required: 2 };
    assert!(matches!(
        report_of(SystemChain::People, CollatorStatus::NotCollator, d),
        Some(MonitorStatus::InsufficientFunds { available: 1, required: 2 })
    ));
    let d = Decision::CannotCompete { available: 1, lowest_candidate: 2, needed: 2 };
    assert!(matches!(
        report_of(SystemChain::People, CollatorStatus::NotCollator, d),
        Some(MonitorStatus::CannotCompete { available: 1, lowest_candidate: 2, needed: 2 })
    ));
    let d = Decision::Register { bond: 1, candidacy_bond: 1 };
    assert!(report_of(SystemChain::People, CollatorStatus::NotCollator, d).is_none());
}

#[test]
fn decisions_are_announced() {
    let mut m = CollatorMonitor::new(config()).unwrap();
    let client = people();
    let d = Decision::InsufficientFunds { available: DOT, required: 2 * DOT };
    let text = m.announce(&client, &ME, d, "", 0).unwrap();
    assert!(text.starts_with("⚠️ *Insufficient funds* on *DOT People*\n\nCollator: `"));
    assert!(text.contains(&ME.address()));
    assert!(text.contains("Available: 1.0000 DOT\nRequired: 2.0000 DOT"));
    assert!(m.announce(&client, &ME, d, "", 1).is_none());
    let d = Decision::AskForBond { old_bond: DOT, new_bond: 3 * DOT };
    let text = m.announce(&client, &ME, d, "0xabcd", 0).unwrap();
    assert!(text.contains("*Action needed:* Bond can be increased from 1 DOT to 3 DOT\n\n"));
    assert!(text.contains("```0xabcd```"));
    let other = ChainClient::new(Network::Polkadot, SystemChain::AssetHub);
    let d = Decision::AskForRegistration { bond: 3 * DOT };
    let text = m.announce(&other, &ME, d, "calls", 0).unwrap();
    assert!(text.contains("*Action needed:* Registration required with bond 3 DOT\n\n"));
    let d = Decision::CannotCompete { available: DOT, lowest_candidate: DOT, needed: 1 };
    let text = m.announce(&client, &ME, d, "", 0).unwrap();
    assert!(text.starts_with("⚠️ *Cannot Compete* on *DOT People*"));
    assert!(m.announce(&client, &ME, Decision::Nothing, "", 0).is_none());
}

#[test]
fn success_is_told() {
    let mut m = CollatorMonitor::new(config()).unwrap();
    let (status, text) = m.bond_raised(&people(), &ME, DOT, 2 * DOT, "0x1".to_string());
    assert!(matches!(status, MonitorStatus::UpdatedBond { .. }));
    assert!(text.starts_with("📈 *Bond updated* on *DOT People*"));
    let (status, text) = m.registered(&people(), &ME, 2 * DOT, "0x2".to_string());
    match status {
        MonitorStatus::RegisteredAsCandidate { bond, tx_hash } => {
            assert_eq!((bond, tx_hash.as_str()), (2 * DOT, "0x2"));
        }
        other => panic!("{:?}", other),
    }
    assert!(text.ends_with("Bond: 2.0000 DOT"));
}

#[test]
fn issues_are_settled() {
    let mut m = CollatorMonitor::new(config()).unwrap();
    let n = Network::Polkadot;
    let c = SystemChain::People;
    let healthy = MonitorStatus::AlreadyCollator(CollatorStatus::Candidate { deposit: 3 * DOT });
    assert!(m.settle(n, c, &healthy).is_none());
    let d = Decision::InsufficientFunds { available: 1, required: 2 };
    assert!(m.announce(&people(), &ME, d, "", 0).is_some());
    let still = MonitorStatus::InsufficientFunds { available: 1, required: 2 };
    assert!(m.settle(n, c, &still).is_none());
    assert_eq!(
        m.settle(n, c, &healthy).unwrap(),
        "✅ *Issue Resolved* on *DOT People*\n\nCollator: `1Dot`\n\
         Current status: Candidate (bond: 3 DOT)"
    );
    assert!(m.settle(n, c, &healthy).is_none());
    assert_eq!(status_message(n, CollatorStatus::Invulnerable), "Invulnerable");
    assert_eq!(status_message(n, CollatorStatus::NotCollator), "Not a collator");
}

#[test]
fn failures_are_told_once() {
    let mut m = CollatorMonitor::new(config()).unwrap();
    let (status, text) = m.failed(Network::Kusama, SystemChain::People, "boom".to_string(), 0);
    assert!(matches!(status, MonitorStatus::Error(e) if e == "boom"));
    assert_eq!(text.unwrap(), "❌ *Error* on *KSM People*\n\n`boom`");
    let (_, text) = m.failed(Network::Kusama, SystemChain::People, "boom".to_string(), 1);
    assert!(text.is_none());
}

#[test]
fn bonds_of_a_list() {
    let list = vec![candidate(2, 5), candidate(3, 0), candidate(4, 9)];
    assert_eq!(find_lowest_bond(&list), Some(5));
    assert_eq!(find_lowest_deposit(&list), Some(0));
    assert_eq!(find_highest_deposit(&list), Some(9));
    assert_eq!(find_lowest_bond(&vec![candidate(3, 0)]), None);
    assert_eq!(find_highest_deposit(&vec![]), None);
}

#[test]
fn ranks_are_stable() {
    let list = vec![
        candidate(2, 5),
        candidate(3, 0),
        candidate(4, 9),
        candidate(5, 5),
        candidate(6, 7),
    ];
    let order: Vec<u8> = rank_candidates(&list).iter().map(|c| c.who.0[0]).collect();
    assert_eq!(order, vec![4, 6, 2, 5]);
    assert_eq!(find_rank(&list, &AccountId32([5; 32])), Some(4));
    assert_eq!(find_rank(&list, &AccountId32([4; 32])), Some(1));
    assert_eq!(find_rank(&list, &AccountId32([3; 32])), None);
}

#[test]
fn slot_information() {
    let list = vec![candidate(2, 5), candidate(1, 9), candidate(4, 12)];
    let mut info = LastBlockInfo::new(0);
    info.last_authored = Some(10);
    let slot = get_chain_slot_info(
        Network::Kusama,
        SystemChain::Coretime,
        CollatorStatus::Candidate { deposit: 9 },
        &ME,
        &list,
        Some(4),
        Some(&info),
        25,
    );
    assert_eq!(slot.chain_name, "KSM Coretime");
    assert!(slot.is_candidate && !slot.is_invulnerable);
    assert_eq!(slot.position, Some(2));
    assert_eq!(slot.max_candidates, Some(4));
    assert_eq!(slot.total_candidates, 3);
    assert_eq!(slot.your_bond, Some(9));
    assert_eq!(slot.lowest_bond, Some(5));
    assert_eq!(slot.distance_from_last, Some(4));
    assert_eq!(slot.last_block_time, Some(15));
    assert_eq!(slot.token_symbol, "KSM");
    assert_eq!(slot.decimals, 12);
    let slot = get_chain_slot_info(
        Network::Kusama,
        SystemChain::Coretime,
        CollatorStatus::NotCollator,
        &ME,
        &list,
        None,
        Some(&info),
        25,
    );
    assert_eq!(slot.last_block_time, None);
    assert_eq!(slot.position, None);
}

#[test]
fn results_are_listed() {
    let results = vec![
        MonitorResult {
            chain_name: "A".to_string(),
            status: MonitorStatus::AlreadyCollator(CollatorStatus::Candidate { deposit: 5 }),
        },
        MonitorResult {
            chain_name: "B".to_string(),
            status: MonitorStatus::RegisteredAsCandidate { bond: 6, tx_hash: "0x1".to_string() },
        },
        MonitorResult {
            chain_name: "C".to_string(),
            status: MonitorStatus::UpdatedBond {
                old_bond: 1,
                new_bond: 2,
                tx_hash: "0x2".to_string(),
            },
        },
        MonitorResult {
            chain_name: "D".to_string(),
            status: MonitorStatus::InsufficientFunds { available: 1, required: 2 },
        },
        MonitorResult {
            chain_name: "E".to_string(),
            status: MonitorStatus::CannotCompete { available: 1, lowest_candidate: 2, needed: 2 },
        },
        MonitorResult {
            chain_name: "F".to_string(),
            status: MonitorStatus::ManualActionRequired {
                reason: "why".to_string(),
                current_status: CollatorStatus::NotCollator,
            },
        },
        MonitorResult { chain_name: "G".to_string(), status: MonitorStatus::Error("e".to_string()) },
        MonitorResult {
            chain_name: "H".to_string(),
            status: MonitorStatus::Skipped("s".to_string()),
        },
    ];
    assert_eq!(
        print_results(&results),
        "\n=== Monitoring Results ===\n\n  A: ✓ Already collator: Candidate { deposit: 5 }\n  \
         B: ✓ Registered with bond 6 (tx: 0x1)\n  C: ✓ Updated bond 1 → 2 (tx: 0x2)\n  \
         D: ✗ Insufficient funds: have 1, need 2\n  \
         E: ✗ Cannot compete: have 1, lowest candidate 2, need 2 more\n  \
         F: 🔧 Manual action required: why (current: NotCollator)\n  G: ✗ Error: e\n  \
         H: - Skipped: s\n\n"
    );
    assert!(has_errors(&results));
    assert!(!has_errors(&vec![]));
}

#[test]
fn summaries_fall_due() {
    let second = 1_000_000_000;
    assert!(!summary_is_due(0, 3600 * second - 1, 3600));
    assert!(summary_is_due(0, 3600 * second, 3600));
    assert!(summary_is_due(5, 5, 0));
}

fn shown(parts: &[ReportPart]) -> String {
    let mut text = String::new();
    for part in parts {
        match part {
            ReportPart::Text(s) => text.push_str(s),
            ReportPart::Amount(n) => text.push_str(&n.to_string()),
        }
    }
    text
}

#[test]
fn standing_is_shown() {
    let inv = vec![AccountId32([8; 32])];
    let list = vec![candidate(1, 3 * DOT), candidate(2, 9 * DOT)];
    let status = CollatorStatus::Candidate { deposit: 3 * DOT };
    let parts = run_status(
        Network::Polkadot,
        SystemChain::BridgeHub,
        &ME,
        status,
        6 * DOT,
        DOT,
        &inv,
        &list,
    );
    let expected = format!(
        "  DOT Bridge Hub [READ-ONLY - no proxy support]:\n    \
         Your Status: Candidate {{ deposit: 30000000000 }}\n    Your Balance: 60000000000 DOT\n    \
         Bond Requirements:\n      - Minimum to register: 10000000000 DOT\n      \
         - To beat lowest candidate: 30000000001 DOT\n      \
         - To be top candidate: 90000000001 DOT\n    \
         Your Available for Bond: 50000000000 DOT (after 1 DOT reserve)\n    \
         ✓ Can beat lowest candidate\n    \
         ✗ Need 40000000001 more DOT to be top candidate\n    Invulnerables (1):\n      - {}\n    \
         Candidates (2):\n      - {} (bond: 30000000000 DOT) <-- YOU\n      \
         - {} (bond: 90000000000 DOT)\n\n",
        AccountId32([8; 32]).address(),
        ME.address(),
        AccountId32([2; 32]).address()
    );
    assert_eq!(shown(&parts), expected);
}

#[test]
fn standing_without_candidates() {
    let parts = run_status(
        Network::Kusama,
        SystemChain::Encointer,
        &ME,
        CollatorStatus::Invulnerable,
        5,
        7,
        &vec![ME],
        &vec![],
    );
    let text = shown(&parts);
    assert!(text.starts_with("  KSM Encointer:\n    Your Status: Invulnerable\n"));
    assert!(text.contains("Your Available for Bond: 0 KSM (after 0.1 KSM reserve)\n"));
    assert!(text.contains(" <-- YOU\n    Candidates (0):\n\n"));
    assert_eq!(
        network_heading(Network::Kusama, "CKsm"),
        "\n=== Kusama System Chains ===\nLooking for collator: CKsm\n\n"
    );
}

#[test]
fn unreachable_chains_have_a_line() {
    assert_eq!(
        unreachable_line(Network::Kusama, SystemChain::People, "no route"),
        "  KSM People: Error - no route"
    );
}

#[test]
fn refused_registration_is_an_error() {
    let mut m = CollatorMonitor::new(config()).unwrap();
    let second = people().update_bond_via_proxy(&ME, 5);
    let progress = RegistrationProgress::Registered {
        answer: Err("refused".to_string()),
        bond_call: Some(second),
    };
    match m.attempt_registration(&people(), &ME, 5, progress) {
        RegistrationStep::Refused { error } => assert_eq!(error, "refused"),
        other => panic!("{:?}", other),
    }
}

#[test]
fn accepted_registration_stands_whatever_the_bond() {
    for answer in [Ok("0x2".to_string()), Err("no".to_string())] {
        let mut m = CollatorMonitor::new(config()).unwrap();
        let second = people().update_bond_via_proxy(&ME, 2 * DOT);
        let progress = RegistrationProgress::Registered {
            answer: Ok("0x1".to_string()),
            bond_call: Some(second),
        };
        let tx_hash = match m.attempt_registration(&people(), &ME, 2 * DOT, progress) {
            RegistrationStep::RaiseBond { call, tx_hash } => {
                assert_eq!((call.pallet, call.name), ("Proxy", "proxy"));
                tx_hash
            }
            other => panic!("{:?}", other),
        };
        let progress = RegistrationProgress::BondRaised { tx_hash, answer };
        match m.attempt_registration(&people(), &ME, 2 * DOT, progress) {
            RegistrationStep::Done { status, text } => {
                assert!(matches!(
                    status,
                    MonitorStatus::RegisteredAsCandidate { bond, tx_hash }
                        if bond == 2 * DOT && tx_hash == "0x1"
                ));
                assert!(text.starts_with("✅ *Registered as candidate* on *DOT People*"));
            }
            other => panic!("{:?}", other),
        }
    }
}

#[test]
fn registration_without_a_second_call_is_done() {
    let mut m = CollatorMonitor::new(config()).unwrap();
    let progress =
        RegistrationProgress::Registered { answer: Ok("0x1".to_string()), bond_call: None };
    assert!(matches!(
        m.attempt_registration(&people(), &ME, DOT, progress),
        RegistrationStep::Done { .. }
    ));
}

#[test]
fn watch_checks_and_pauses_by_turns() {
    let second = 1_000_000_000;
    let mut w = Watch::new(60, 100);
    assert_eq!(w.phase, WatchPhase::New);
    assert_eq!(w.advance(10 * second), WatchAction::SendSummary);
    assert_eq!(w.last_summary, 10 * second);
    assert_eq!(w.advance(12 * second), WatchAction::CheckAll);
    assert_eq!(w.last_summary, 10 * second);
    assert_eq!(w.advance(20 * second), WatchAction::Pause { seconds: 60 });
    assert_eq!(w.advance(80 * second), WatchAction::CheckAll);
    assert_eq!(w.advance(110 * second), WatchAction::SendSummary);
    assert_eq!(w.last_summary, 10 * second);
    assert_eq!(w.advance(115 * second), WatchAction::Pause { seconds: 60 });
    assert_eq!(w.last_summary, 115 * second);
    assert_eq!(w.advance(175 * second), WatchAction::CheckAll);
}

#[test]
fn operators_get_the_calls_of_their_decision() {
    let calls = vec!["0x01".to_string(), "0x02".to_string()];
    let register = Decision::AskForRegistration { bond: 1 };
    let raise = Decision::AskForBond { old_bond: 1, new_bond: 2 };
    assert_eq!(operator_call_data(register, &calls), "1. Register: 0x01\n2. Update bond: 0x02");
    assert_eq!(operator_call_data(raise, &vec!["0x03".to_string()]), "0x03");
    assert_eq!(operator_call_data(raise, &calls), "");
    assert_eq!(operator_call_data(register, &vec![]), "");
    assert_eq!(operator_call_data(Decision::Nothing, &calls), "");
}

#[test]
fn disabled_chain_without_an_endpoint_is_read_only() {
    let mut c = config();
    c.set_chain("kusama_people".to_string(), ChainConfig { rpc_url: None, enabled: false });
    let m = CollatorMonitor::new(c).unwrap();
    match m.monitor_chain(Network::Kusama, SystemChain::People) {
        ChainPlan::Check { read_only, rpc_url, .. } => {
            assert!(read_only);
            assert_eq!(rpc_url, "wss://rpc-people-kusama.luckyfriday.io");
        }
        other => panic!("{:?}", other),
    }
}
