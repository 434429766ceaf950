use collator_monitor::account::AccountId32;
use collator_monitor::block_tracker::{
    check_is_due, current_slot_query, format_balance, get_block_author_typed,
    get_collator_status_typed, is_invulnerable, is_own_block, key_owner, key_owner_query,
    overdue_time, run_chain_tracker, status_change_message, subscan_base_for_chain,
    unreachable_message, BlockTracker, LastBlockInfo, TrackedCollatorStatus, TrackerAction,
    TrackerEvent,
};
use collator_monitor::chain_client::ChainClient;
use collator_monitor::config::{Network, SystemChain};
use collator_monitor::value::{Composite, Primitive, Value, ValueDef};

const SECOND: u64 = 1_000_000_000;
const MINUTE: u64 = 60 * SECOND;

fn number(n: u128) -> Value<()> {
    Value { value: ValueDef::Primitive(Primitive::U128(n)), context: () }
}

fn unnamed(items: Vec<Value<()>>) -> Value<()> {
    Value { value: ValueDef::Composite(Composite::Unnamed(items)), context: () }
}

fn account_value(seed: u8) -> Value<()> {
    unnamed((0..32).map(|_| number(seed as u128)).collect())
}

fn candidate_value(seed: u8, deposit: u128) -> Value<()> {
    let fields = vec![
        ("who".to_string(), account_value(seed)),
        ("deposit".to_string(), number(deposit)),
    ];
    Value { value: ValueDef::Composite(Composite::Named(fields)), context: () }
}

#[test]
fn new_block_info() {
    let info = LastBlockInfo::new(5);
    assert_eq!(info.last_authored, None);
    assert_eq!(info.tracking_since, 5);
    assert!(!info.is_connected);
    assert!(info.last_error.is_none());
    assert_eq!(info.time_since_last_block(9), None);
}

#[test]
fn blocks_are_recorded_per_chain() {
    let mut t = BlockTracker::new();
    assert!(t.get_last_block("a").is_none());
    t.record_authored_block("a", 3);
    assert!(t.get_last_block("a").is_none());
    t.track("a", 10);
    t.track("b", 11);
    t.mark_disconnected("a", "lost".to_string());
    let a = t.get_last_block("a").unwrap();
    assert!(!a.is_connected);
    assert_eq!(a.last_error.as_deref(), Some("lost"));
    t.record_authored_block("a", 20);
    let a = t.get_last_block("a").unwrap();
    assert!(a.is_connected);
    assert!(a.last_error.is_none());
    assert_eq!(a.tracking_since, 10);
    assert_eq!(a.time_since_last_block(25), Some(5));
    assert_eq!(a.time_since_last_block(15), Some(0));
    let b = t.get_last_block("b").unwrap();
    assert_eq!((b.tracking_since, b.last_authored), (11, None));
}

#[test]
fn connections_keep_the_last_block() {
    let mut t = BlockTracker::default();
    t.track("a", 1);
    t.record_authored_block("a", 2);
    t.mark_disconnected("a", "lost".to_string());
    assert_eq!(t.get_last_block("a").unwrap().last_authored, Some(2));
    t.mark_connected("a");
    let a = t.get_last_block("a").unwrap();
    assert!(a.is_connected);
    assert!(a.last_error.is_none());
    assert_eq!(a.last_authored, Some(2));
}

#[test]
fn shutdown_is_remembered() {
    let mut t = BlockTracker::new();
    assert!(!t.is_shutdown());
    t.shutdown();
    assert!(t.is_shutdown());
}

#[test]
fn statuses_are_remembered() {
    let mut t = BlockTracker::new();
    assert_eq!(t.update_collator_status("a", TrackedCollatorStatus::Invulnerable), None);
    assert_eq!(
        t.update_collator_status("a", TrackedCollatorStatus::Unknown),
        Some(TrackedCollatorStatus::Invulnerable)
    );
    assert_eq!(
        t.update_collator_status("a", TrackedCollatorStatus::NotCollator),
        Some(TrackedCollatorStatus::Unknown)
    );
}

#[test]
fn removal_is_alerted_once() {
    let mut t = BlockTracker::new();
    let n = Network::Polkadot;
    let c = SystemChain::AssetHub;
    let candidate = TrackedCollatorStatus::Candidate { deposit: 7 };
    assert!(t.check_collator_status("DOT Asset Hub", n, c, candidate, 1).is_none());
    let alert =
        t.check_collator_status("DOT Asset Hub", n, c, TrackedCollatorStatus::NotCollator, 42);
    assert_eq!(
        alert.unwrap(),
        "🚨 *COLLATOR REMOVED* on *DOT Asset Hub*\n\nOur collator was removed at block #42\n\
         Previous status: Candidate { deposit: 7 }\nCurrent status: Not a collator\n\n\
         Check the block for transactions that affected us:\n\
         https://assethub-polkadot.subscan.io/block/42"
    );
    assert!(t
        .check_collator_status("DOT Asset Hub", n, c, TrackedCollatorStatus::NotCollator, 43)
        .is_none());
}

#[test]
fn demotion_is_alerted() {
    let text = status_change_message(
        "KSM People",
        Network::Kusama,
        SystemChain::People,
        9,
        Some(TrackedCollatorStatus::Invulnerable),
        TrackedCollatorStatus::Candidate { deposit: 1_500_000_000_000 },
    );
    assert_eq!(
        text.unwrap(),
        "⚠️ *Status Change* on *KSM People*\n\nMoved from Invulnerable to Candidate at block #9\n\
         Bond: 1.5000 KSM\n\nBlock: https://people-kusama.subscan.io/block/9"
    );
}

#[test]
fn changes_for_the_better_are_not_alerted() {
    let say = |before, after| {
        status_change_message("x", Network::Kusama, SystemChain::People, 9, before, after)
    };
    let candidate = TrackedCollatorStatus::Candidate { deposit: 1 };
    let richer = TrackedCollatorStatus::Candidate { deposit: 2 };
    assert!(say(Some(TrackedCollatorStatus::NotCollator), candidate).is_none());
    assert!(say(Some(TrackedCollatorStatus::Unknown), TrackedCollatorStatus::NotCollator).is_none());
    assert!(say(Some(candidate), richer).is_none());
    assert!(say(Some(candidate), TrackedCollatorStatus::Invulnerable).is_none());
    assert!(say(None, TrackedCollatorStatus::NotCollator).is_none());
    assert!(say(
        Some(TrackedCollatorStatus::Invulnerable),
        TrackedCollatorStatus::NotCollator
    )
    .is_some());
}

#[test]
fn silence_is_reported_after_half_an_hour() {
    let mut info = LastBlockInfo::new(0);
    assert_eq!(overdue_time(Some(&info), 30 * MINUTE - 1), None);
    assert_eq!(overdue_time(Some(&info), 30 * MINUTE), Some(30 * MINUTE));
    info.last_authored = Some(10 * MINUTE);
    assert_eq!(overdue_time(Some(&info), 30 * MINUTE), None);
    assert_eq!(overdue_time(Some(&info), 45 * MINUTE), Some(35 * MINUTE));
    assert_eq!(overdue_time(None, 90 * MINUTE), None);
    assert!(!check_is_due(0, 30 * MINUTE - 1));
    assert!(check_is_due(0, 30 * MINUTE));
}

#[test]
fn own_blocks() {
    let me = AccountId32([1; 32]);
    assert!(is_own_block(Some(&me), &me));
    assert!(!is_own_block(Some(&AccountId32([2; 32])), &me));
    assert!(!is_own_block(None, &me));
}

#[test]
fn status_from_stored_lists() {
    let inv = unnamed(vec![account_value(1), account_value(2)]);
    let cands = unnamed(vec![candidate_value(3, 30), candidate_value(4, 40)]);
    let status = |seed: u8| get_collator_status_typed(Some(&inv), Some(&cands), &[seed; 32]);
    assert_eq!(status(2), TrackedCollatorStatus::Invulnerable);
    assert_eq!(status(4), TrackedCollatorStatus::Candidate { deposit: 40 });
    assert_eq!(status(5), TrackedCollatorStatus::NotCollator);
    assert_eq!(
        get_collator_status_typed(None, Some(&cands), &[3; 32]),
        TrackedCollatorStatus::Candidate { deposit: 30 }
    );
    let none: Option<&Value<()>> = None;
    assert_eq!(get_collator_status_typed(none, none, &[3; 32]), TrackedCollatorStatus::NotCollator);
    assert!(is_invulnerable(Some(&inv), &[1; 32]));
    assert!(!is_invulnerable(none, &[1; 32]));
}

#[test]
fn balances_with_four_digits() {
    assert_eq!(format_balance(15_000_000_000, Network::Polkadot), "1.5000");
    assert_eq!(format_balance(12_345_678_901, Network::Polkadot), "1.2345");
    assert_eq!(format_balance(999_999, Network::Polkadot), "0.0000");
    assert_eq!(format_balance(2_000_300_000_000, Network::Kusama), "2.0003");
}

#[test]
fn subscan_addresses() {
    assert_eq!(
        subscan_base_for_chain(Network::Kusama, SystemChain::Encointer),
        "https://encointer-kusama.subscan.io"
    );
    assert_eq!(
        subscan_base_for_chain(Network::Polkadot, SystemChain::Encointer),
        "https://polkadot.subscan.io"
    );
}

#[test]
fn tracker_tries_the_endpoints_in_order() {
    let ready = TrackerEvent::Ready { shutdown: false };
    assert_eq!(run_chain_tracker(2, ready), TrackerAction::Connect { endpoint: 0 });
    assert_eq!(
        run_chain_tracker(2, TrackerEvent::Tried { endpoint: 0, connected: false }),
        TrackerAction::Connect { endpoint: 1 }
    );
    assert_eq!(
        run_chain_tracker(2, TrackerEvent::Tried { endpoint: 1, connected: false }),
        TrackerAction::GiveUp { seconds: 30 }
    );
    assert_eq!(
        run_chain_tracker(2, TrackerEvent::Tried { endpoint: 1, connected: true }),
        TrackerAction::Subscribe
    );
    assert_eq!(run_chain_tracker(0, ready), TrackerAction::GiveUp { seconds: 30 });
    assert_eq!(unreachable_message(2), "All 2 RPC endpoints failed");
}

#[test]
fn tracker_follows_the_stream() {
    assert_eq!(
        run_chain_tracker(1, TrackerEvent::Subscribed { ok: true }),
        TrackerAction::Listen
    );
    assert_eq!(
        run_chain_tracker(1, TrackerEvent::Subscribed { ok: false }),
        TrackerAction::Retry { disconnected: false, seconds: 5 }
    );
    assert_eq!(
        run_chain_tracker(1, TrackerEvent::Received { shutdown: false, block: true }),
        TrackerAction::Inspect
    );
    assert_eq!(
        run_chain_tracker(1, TrackerEvent::Received { shutdown: false, block: false }),
        TrackerAction::Retry { disconnected: true, seconds: 10 }
    );
    assert_eq!(
        run_chain_tracker(1, TrackerEvent::Ended),
        TrackerAction::Retry { disconnected: false, seconds: 5 }
    );
}

#[test]
fn tracker_stops_when_asked() {
    assert_eq!(
        run_chain_tracker(1, TrackerEvent::Ready { shutdown: true }),
        TrackerAction::Stop
    );
    assert_eq!(
        run_chain_tracker(1, TrackerEvent::Received { shutdown: true, block: true }),
        TrackerAction::Stop
    );
}

#[test]
fn authors_are_the_owners_of_keys() {
    let keys = vec![AccountId32([1; 32]), AccountId32([2; 32])];
    let key = |n, c| get_block_author_typed(n, c, Some(3), Some(&keys));
    assert_eq!(key(Network::Polkadot, SystemChain::AssetHub), Some(AccountId32([2; 32])));
    assert_eq!(key(Network::Polkadot, SystemChain::Encointer), None);
    let q = current_slot_query();
    assert_eq!((q.pallet, q.entry, q.keys.len()), ("Aura", "CurrentSlot", 0));
    let q = key_owner_query(&keys[0]);
    assert_eq!((q.pallet, q.entry, q.keys.len()), ("Session", "KeyOwner", 1));
    match &q.keys[0].value {
        ValueDef::Composite(Composite::Unnamed(pair)) => {
            assert_eq!(pair.len(), 2);
            match &pair[0].value {
                ValueDef::Composite(Composite::Unnamed(id)) => {
                    let id: Vec<u8> = id.iter().map(|b| b.as_u128().unwrap() as u8).collect();
                    assert_eq!(id, b"aura".to_vec());
                }
                _ => panic!("no engine"),
            }
        }
        _ => panic!("no pair"),
    }
    assert_eq!(key_owner(Some(&[6u8; 33])), Some(AccountId32([6; 32])));
    assert_eq!(key_owner(None), None);
}

#[test]
fn tracked_status_texts() {
    assert_eq!(TrackedCollatorStatus::Unknown.debug_text(), "Unknown");
    assert_eq!(TrackedCollatorStatus::Invulnerable.debug_text(), "Invulnerable");
    assert_eq!(TrackedCollatorStatus::NotCollator.debug_text(), "NotCollator");
}

#[test]
fn tracker_and_monitor_see_the_same_status() {
    let client = ChainClient::new(Network::Kusama, SystemChain::Coretime);
    let bare_inv = || unnamed(vec![account_value(1)]);
    let bare_cands = || {
        unnamed(vec![candidate_value(2, 20), candidate_value(3, 30), candidate_value(2, 40)])
    };
    let stored = [
        (bare_inv(), bare_cands()),
        (unnamed(vec![bare_inv()]), unnamed(vec![bare_cands()])),
        (unnamed(vec![]), unnamed(vec![unnamed(vec![])])),
    ];
    for (inv, cands) in &stored {
        let invulnerables = client.get_invulnerables(Some(inv));
        let candidates = client.get_candidates(Some(cands));
        for seed in 1..5u8 {
            let account = AccountId32([seed; 32]);
            let monitored = client.get_collator_status(&account, &invulnerables, &candidates);
            let followed = get_collator_status_typed(Some(inv), Some(cands), &account.0);
            assert_eq!(monitored.debug_text(), followed.debug_text());
        }
    }
}

#[test]
fn tracking_begins_with_an_address() {
    let client = ChainClient::new(Network::Kusama, SystemChain::Coretime);
    let mut t = BlockTracker::new();
    let me = AccountId32([7; 32]);
    assert_eq!(t.begin(&client, &me.address(), 4).unwrap(), me);
    assert_eq!(t.get_last_block("KSM Coretime").unwrap().tracking_since, 4);
    assert!(t.begin(&client, "nonsense", 5).is_err());
    assert_eq!(t.get_last_block("KSM Coretime").unwrap().tracking_since, 5);
}

#[test]
fn bad_address_ends_the_tracker() {
    let begun = |valid_address, shutdown| {
        run_chain_tracker(2, TrackerEvent::Begun { valid_address, shutdown })
    };
    assert_eq!(begun(false, false), TrackerAction::Stop);
    assert_eq!(begun(true, true), TrackerAction::Stop);
    assert_eq!(begun(true, false), TrackerAction::Connect { endpoint: 0 });
    assert_eq!(
        run_chain_tracker(0, TrackerEvent::Begun { valid_address: true, shutdown: false }),
        TrackerAction::GiveUp { seconds: 30 }
    );
}

#[test]
fn own_blocks_are_recorded_before_the_silence_is_looked_at() {
    let me = AccountId32([1; 32]);
    let other = AccountId32([2; 32]);
    let mut t = BlockTracker::new();
    t.track("a", 0);
    let early = t.inspect_block("a", Some(&other), &me, 0, 10 * MINUTE);
    assert!(!early.authored);
    assert_eq!((early.last_check, early.silence), (0, None));
    let late = t.inspect_block("a", None, &me, 0, 31 * MINUTE);
    assert_eq!((late.last_check, late.silence), (31 * MINUTE, Some(31 * MINUTE)));
    let own = t.inspect_block("a", Some(&me), &me, 0, 40 * MINUTE);
    assert!(own.authored);
    assert_eq!((own.last_check, own.silence), (40 * MINUTE, None));
    assert_eq!(t.get_last_block("a").unwrap().last_authored, Some(40 * MINUTE));
    let unknown = t.inspect_block("b", Some(&me), &me, 0, 40 * MINUTE);
    assert_eq!((unknown.authored, unknown.silence), (true, None));
}
