use collator_monitor::account::{decode_address, AccountId32};
use collator_monitor::base58::may_be_decoded;
use collator_monitor::blocks::{
    find_slot, get_block_author, get_block_timestamp, get_last_authored_block_time, is_time_call,
    read_slot, scheduled_key, slot_author, AuthorSearch, DigestItem, Extrinsic, SearchStep,
};
use collator_monitor::calls::DynamicCall;
use collator_monitor::chain_client::{address_result, ChainClient, CollatorStatus, ReadError};
use collator_monitor::config::{Network, SystemChain};
use collator_monitor::decode::{CandidateInfo, ParseError};
use collator_monitor::error::CollatorError;
use collator_monitor::value::{Composite, Primitive, Value, ValueDef};

const ALICE: &str = "5GrwvaEF5zXb26Fz9rcQpDWS57CtERHpNehXCPcNoHGKutQY";

const ALICE_KEY: [u8; 32] = [
    0xd4, 0x35, 0x93, 0xc7, 0x15, 0xfd, 0xd3, 0x1c, 0x61, 0x14, 0x1a, 0xbd, 0x04, 0xa9, 0x9f, 0xd6,
    0x82, 0x2c, 0x85, 0x58, 0x85, 0x4c, 0xcd, 0xe3, 0x9a, 0x56, 0x84, 0xe7, 0xa5, 0x6d, 0xa2, 0x7d,
];

fn client() -> ChainClient {
    ChainClient::new(Network::Polkadot, SystemChain::People)
}

fn number(n: u128) -> Value<()> {
    Value { value: ValueDef::Primitive(Primitive::U128(n)), context: () }
}

fn unnamed(items: Vec<Value<()>>) -> Value<()> {
    Value { value: ValueDef::Composite(Composite::Unnamed(items)), context: () }
}

fn account_value(account: AccountId32) -> Value<()> {
    unnamed(account.0.iter().map(|b| number(*b as u128)).collect())
}

fn variant<'a>(v: &'a Value<()>, name: &str) -> &'a Vec<Value<()>> {
    match &v.value {
        ValueDef::Variant(w) => {
            assert_eq!(w.name, name);
            match &w.values {
                Composite::Unnamed(items) => items,
                Composite::Named(_) => panic!("named values"),
            }
        }
        _ => panic!("not a variant"),
    }
}

fn bytes(v: &Value<()>) -> Vec<u8> {
    match &v.value {
        ValueDef::Composite(Composite::Unnamed(items)) => {
            items.iter().map(|x| x.as_u128().unwrap() as u8).collect()
        }
        _ => panic!("not bytes"),
    }
}

fn inner_call<'a>(call: &'a DynamicCall, name: &str) -> &'a Vec<Value<()>> {
    assert_eq!(call.pallet, "Proxy");
    assert_eq!(call.name, "proxy");
    assert_eq!(call.args.len(), 3);
    let real = variant(&call.args[0], "Id");
    assert_eq!(bytes(&real[0]), ALICE_KEY.to_vec());
    let kind = variant(&call.args[1], "Some");
    assert!(variant(&kind[0], "NonTransfer").is_empty());
    let pallet = variant(&call.args[2], "CollatorSelection");
    assert_eq!(pallet.len(), 1);
    variant(&pallet[0], name)
}

#[test]
fn client_is_named_after_its_chain() {
    let c = client();
    assert_eq!(c.chain_name(), "DOT People");
    assert_eq!(c.network(), Network::Polkadot);
    assert_eq!(c.chain(), SystemChain::People);
}

#[test]
fn addresses_are_parsed() {
    let account = client().parse_address(ALICE).unwrap();
    assert_eq!(account, AccountId32(ALICE_KEY));
    assert_eq!(account.address(), ALICE);
    // The same account with the prefix of Polkadot.
    let dot = client().parse_address("15oF4uVJwmo4TdGW7VfQxNLavjCXviqxT9S1MgbjMNHr6Sp5").unwrap();
    assert_eq!(dot, account);
}

#[test]
fn address_round_trip() {
    let account = AccountId32([7u8; 32]);
    assert_eq!(client().parse_address(&account.address()).unwrap(), account);
}

#[test]
fn bad_addresses_are_named() {
    let e = client().parse_address("nonsense").unwrap_err();
    assert!(matches!(&e, CollatorError::InvalidAddress(t) if t.starts_with("nonsense: ")));
    let e = address_result("x", Err("why".to_string())).unwrap_err();
    assert_eq!(e.message(), "Invalid address format: x: why");
    assert!(address_result("x", Ok(AccountId32([1; 32]))).is_ok());
}

#[test]
fn error_messages() {
    assert_eq!(
        CollatorError::ConnectionFailed("a".to_string()).message(),
        "Failed to connect to chain: a"
    );
    assert_eq!(
        CollatorError::StorageQueryFailed("a".to_string()).message(),
        "Failed to query storage: a"
    );
    assert_eq!(
        CollatorError::TransactionFailed("a".to_string()).message(),
        "Failed to submit transaction: a"
    );
    assert_eq!(CollatorError::AccountNotFound("a".to_string()).message(), "Account not found: a");
    assert_eq!(
        CollatorError::InsufficientFunds { have: 1, need: 20 }.message(),
        "Insufficient funds: have 1, need 20"
    );
    assert_eq!(
        CollatorError::SlackNotificationFailed("a".to_string()).message(),
        "Slack notification failed: a"
    );
    assert_eq!(CollatorError::ConfigError("a".to_string()).message(), "Configuration error: a");
    assert_eq!(
        CollatorError::ChainNotAvailable { chain: "c".to_string(), network: "n".to_string() }
            .message(),
        "Chain c is not available on n"
    );
}

#[test]
fn storage_queries() {
    let c = client();
    let q = c.candidates_query();
    assert_eq!((q.pallet, q.entry, q.keys.len()), ("CollatorSelection", "CandidateList", 0));
    let q = c.invulnerables_query();
    assert_eq!((q.pallet, q.entry, q.keys.len()), ("CollatorSelection", "Invulnerables", 0));
    let q = c.candidacy_bond_query();
    assert_eq!((q.pallet, q.entry, q.keys.len()), ("CollatorSelection", "CandidacyBond", 0));
    let q = c.desired_candidates_query();
    assert_eq!((q.pallet, q.entry, q.keys.len()), ("CollatorSelection", "DesiredCandidates", 0));
    let q = c.authorities_query();
    assert_eq!((q.pallet, q.entry, q.keys.len()), ("Aura", "Authorities", 0));
    let q = c.account_query(&AccountId32(ALICE_KEY));
    assert_eq!((q.pallet, q.entry, q.keys.len()), ("System", "Account", 1));
    assert_eq!(bytes(&q.keys[0]), ALICE_KEY.to_vec());
}

#[test]
fn stored_numbers() {
    let c = client();
    let bond = number(12);
    assert_eq!(c.get_candidacy_bond(Some(&bond)).unwrap(), 12);
    let none: Option<&Value<()>> = None;
    assert!(matches!(c.get_candidacy_bond(none), Err(ReadError::CandidacyBondNotFound)));
    assert!(matches!(c.get_desired_candidates(none), Err(ReadError::DesiredCandidatesNotFound)));
    assert_eq!(c.get_desired_candidates(Some(&bond)).unwrap(), 12);
    let list = unnamed(vec![]);
    assert!(matches!(
        c.get_candidacy_bond(Some(&list)),
        Err(ReadError::Parse(ParseError::U128(_)))
    ));
    assert!(matches!(
        c.get_desired_candidates(Some(&list)),
        Err(ReadError::Parse(ParseError::U32(_)))
    ));
    assert_eq!(c.get_free_balance(none).unwrap(), 0);
    assert!(matches!(c.get_free_balance(Some(&list)), Err(ParseError::FreeBalance)));
}

#[test]
fn stored_lists() {
    let c = client();
    let none: Option<&Value<()>> = None;
    assert!(c.get_invulnerables(none).is_empty());
    assert!(c.get_candidates(none).is_empty());
    let list = unnamed(vec![account_value(AccountId32([1; 32])), account_value(AccountId32([2; 32]))]);
    assert_eq!(c.get_invulnerables(Some(&list)), vec![AccountId32([1; 32]), AccountId32([2; 32])]);
}

#[test]
fn status_of_an_account() {
    let c = client();
    let me = AccountId32([1; 32]);
    let other = AccountId32([2; 32]);
    let inv = vec![other, me];
    let cands = vec![
        CandidateInfo { who: other, deposit: 5 },
        CandidateInfo { who: me, deposit: 6 },
        CandidateInfo { who: me, deposit: 7 },
    ];
    assert_eq!(c.get_collator_status(&me, &inv, &cands), CollatorStatus::Invulnerable);
    assert_eq!(
        c.get_collator_status(&me, &vec![other], &cands),
        CollatorStatus::Candidate { deposit: 6 }
    );
    assert_eq!(c.get_collator_status(&me, &vec![], &vec![]), CollatorStatus::NotCollator);
    assert_eq!(c.status_from_invulnerables(&me, &inv), Some(CollatorStatus::Invulnerable));
    assert_eq!(c.status_from_invulnerables(&me, &vec![other]), None);
    assert_eq!(c.get_minimum_candidate_deposit(&cands), Some(5));
    assert_eq!(c.get_minimum_candidate_deposit(&vec![]), None);
    assert_eq!(CollatorStatus::Candidate { deposit: 6 }.debug_text(), "Candidate { deposit: 6 }");
    assert_eq!(CollatorStatus::Invulnerable.debug_text(), "Invulnerable");
    assert_eq!(CollatorStatus::NotCollator.debug_text(), "NotCollator");
}

#[test]
fn calls_go_through_the_proxy() {
    let c = client();
    let me = AccountId32(ALICE_KEY);
    let register = c.register_as_candidate_via_proxy(&me);
    assert!(inner_call(&register, "register_as_candidate").is_empty());
    let bond = c.update_bond_via_proxy(&me, 99);
    let args = inner_call(&bond, "update_bond");
    assert_eq!(args.len(), 1);
    assert_eq!(args[0].as_u128(), Some(99));
    let take = c.take_candidate_slot_via_proxy(&me, 5, &AccountId32([3; 32]));
    let args = inner_call(&take, "take_candidate_slot");
    assert_eq!(args.len(), 2);
    assert_eq!(args[0].as_u128(), Some(5));
    assert_eq!(bytes(&args[1]), vec![3u8; 32]);
}

#[test]
fn calls_of_the_operator_are_bare() {
    let c = client();
    let call = c.generate_register_call_data();
    assert_eq!((call.pallet, call.name), ("CollatorSelection", "register_as_candidate"));
    let call = c.generate_registration_call_data(8);
    assert_eq!((call.pallet, call.name), ("CollatorSelection", "update_bond"));
    assert_eq!(call.args[0].as_u128(), Some(8));
}

#[test]
fn slots_are_little_endian() {
    assert_eq!(read_slot(&vec![1, 2, 0, 0, 0, 0, 0, 0, 9]), 513);
    assert_eq!(read_slot(&vec![255; 8]), u64::MAX);
    let logs = vec![
        DigestItem::Other,
        DigestItem::PreRuntime(*b"BABE", vec![1; 8]),
        DigestItem::PreRuntime(*b"aura", vec![1; 7]),
        DigestItem::PreRuntime(*b"aura", vec![3, 0, 0, 0, 0, 0, 0, 0]),
        DigestItem::PreRuntime(*b"aura", vec![4, 0, 0, 0, 0, 0, 0, 0]),
    ];
    assert_eq!(find_slot(&logs), Some(3));
    assert_eq!(find_slot(&vec![DigestItem::Other]), None);
}

#[test]
fn authors_take_turns() {
    assert_eq!(slot_author(7, 3), 1);
    let keys = unnamed(vec![
        account_value(AccountId32([1; 32])),
        account_value(AccountId32([2; 32])),
    ]);
    let logs = vec![DigestItem::PreRuntime(*b"aura", vec![5, 0, 0, 0, 0, 0, 0, 0])];
    assert_eq!(get_block_author(Some(&keys), &logs), Some(AccountId32([2; 32])));
    assert_eq!(get_block_author(Some(&keys), &vec![]), None);
    let empty = unnamed(vec![]);
    assert_eq!(get_block_author(Some(&empty), &logs), None);
    let none: Option<&Value<()>> = None;
    assert_eq!(get_block_author(none, &logs), None);
}

#[test]
fn keys_take_turns() {
    let keys = vec![AccountId32([1; 32]), AccountId32([2; 32]), AccountId32([3; 32])];
    assert_eq!(scheduled_key(Some(4), Some(&keys)), Some(AccountId32([2; 32])));
    assert_eq!(scheduled_key(None, Some(&keys)), None);
    assert_eq!(scheduled_key(Some(4), None), None);
    assert_eq!(scheduled_key(Some(4), Some(&vec![])), None);
}

fn extrinsic(pallet: &str, call: &str, now: Option<u128>) -> Extrinsic<(), String> {
    let fields = match now {
        Some(n) => vec![("now".to_string(), number(n))],
        None => vec![],
    };
    Extrinsic {
        pallet: Ok(pallet.to_string()),
        call: Ok(call.to_string()),
        fields: Ok(Composite::Named(fields)),
    }
}

#[test]
fn block_time_is_set_by_a_call() {
    let calls = vec![
        extrinsic("System", "remark", Some(1)),
        extrinsic("Timestamp", "set", None),
        extrinsic("Timestamp", "set", Some(1_700_000_000_000)),
        extrinsic("Timestamp", "set", Some(2)),
    ];
    assert_eq!(get_block_timestamp(&calls), Ok(1_700_000_000_000));
    let none: Vec<Extrinsic<(), String>> = vec![];
    assert_eq!(get_block_timestamp(&none), Ok(0));
    assert!(is_time_call("Timestamp", "set"));
    assert!(!is_time_call("Timestamp", "get"));
}

#[test]
fn undecodable_calls_fail_in_order() {
    let bad: Extrinsic<(), String> = Extrinsic {
        pallet: Err("p".to_string()),
        call: Err("c".to_string()),
        fields: Err("f".to_string()),
    };
    let early = vec![bad, extrinsic("Timestamp", "set", Some(5))];
    assert_eq!(get_block_timestamp(&early), Err(&"p".to_string()));
    let fields: Extrinsic<(), String> = Extrinsic {
        pallet: Ok("Timestamp".to_string()),
        call: Ok("set".to_string()),
        fields: Err("f".to_string()),
    };
    assert_eq!(get_block_timestamp(&vec![fields]), Err(&"f".to_string()));
    let late: Extrinsic<(), String> = Extrinsic {
        pallet: Ok("Timestamp".to_string()),
        call: Err("c".to_string()),
        fields: Err("f".to_string()),
    };
    let calls = vec![extrinsic("Timestamp", "set", Some(5)), late];
    assert_eq!(get_block_timestamp(&calls), Ok(5));
}

#[test]
fn search_stops_at_the_collators_block() {
    let me = AccountId32([1; 32]);
    let other = AccountId32([2; 32]);
    let mut search = AuthorSearch::new(me);
    assert_eq!(search.visit(Some(&other), 10), SearchStep::Parent);
    assert_eq!(search.visit(None, 9), SearchStep::Parent);
    assert_eq!(search.visit(Some(&me), 8), SearchStep::Found);
}

#[test]
fn search_stops_at_the_first_block() {
    let me = AccountId32([1; 32]);
    let mut search = AuthorSearch::new(me);
    assert_eq!(search.visit(None, 1), SearchStep::Parent);
    assert_eq!(search.visit(None, 0), SearchStep::GiveUp);
    let mut search = AuthorSearch::new(me);
    assert_eq!(search.visit(Some(&me), 0), SearchStep::Found);
}

#[test]
fn search_looks_at_a_thousand_blocks() {
    let mut search = AuthorSearch::new(AccountId32([1; 32]));
    let mut visited = 0;
    let mut number = 5000;
    loop {
        visited += 1;
        if search.visit(None, number) != SearchStep::Parent {
            break;
        }
        number -= 1;
    }
    assert_eq!(visited, 1000);
}

#[test]
fn time_since_the_last_own_block() {
    assert_eq!(get_last_authored_block_time(Some(1000), 7000), Some(6000));
    assert_eq!(get_last_authored_block_time(Some(7000), 1000), Some(0));
    assert_eq!(get_last_authored_block_time(None, 1000), None);
}

#[test]
fn texts_too_long_for_the_decoder_are_refused() {
    let ones = "1".repeat(133);
    assert!(!may_be_decoded(&ones));
    let e = client().parse_address(&ones).unwrap_err();
    assert_eq!(e.message(), format!("Invalid address format: {}: Length is bad", ones));
    // One leading digit before as many digits as fill the room for bytes
    let full = format!("1{}", "2".to_string() + &"z".repeat(179));
    assert!(!may_be_decoded(&full));
    assert_eq!(decode_address(&full), Err("Length is bad".to_string()));
}

#[test]
fn long_texts_that_the_decoder_turns_down() {
    assert!(may_be_decoded(""));
    assert!(may_be_decoded(&"1".repeat(132)));
    assert_eq!(decode_address(&"1".repeat(132)), Err("Length is bad".to_string()));
    assert_eq!(decode_address(&format!("1{}", "z".repeat(131))), Err("Length is bad".to_string()));
    let violated = Err("Base 58 requirement is violated".to_string());
    let zero = format!("{}0", "1".repeat(200));
    assert!(may_be_decoded(&zero));
    assert_eq!(decode_address(&zero), violated);
    assert_eq!(decode_address(&format!("{}ä", "1".repeat(200))), violated);
    assert_eq!(decode_address(&"z".repeat(500)), violated);
    assert_eq!(decode_address(&"2".repeat(133)), Err("Length is bad".to_string()));
}

#[test]
fn numbers_that_outgrow_the_decoder_are_no_base_58() {
    let violated = Err("Base 58 requirement is violated".to_string());
    let long = format!("1{}", "z".repeat(200));
    assert!(may_be_decoded(&long));
    assert_eq!(decode_address(&long), violated);
    assert_eq!(decode_address(&format!("{}{}", "1".repeat(300), "2".repeat(182))), violated);
    // The number of 181 digits outgrows 132 bytes where its first digit is high
    let high = format!("1{}", "z".repeat(181));
    assert!(may_be_decoded(&high));
    assert_eq!(decode_address(&high), violated);
    let low = format!("12{}", "1".repeat(180));
    assert!(!may_be_decoded(&low));
    assert_eq!(decode_address(&low), Err("Length is bad".to_string()));
}

#[test]
fn the_first_number_without_room_is_turned_down() {
    // All digits but the last of the first number that does not fit into 132 bytes
    let digits = "3xRRySduMUikaJkELV1XEWRJcpTSg8SLoEeSonzYK1qML59VevotWMDqQnkbc71HP1mLqDBnpNXRe9V6\
         eSbuQUuz7y5x3vKCKRtgrtDhNRQtc78T7LKb2FdubSdQ7GvHSTVTXPL4SP7gZnBEkuFZi4HNmtS1Kndi\
         Dfh6SeyD2zRg4MXp3iiH";
    let over = format!("1{}u", digits);
    assert!(may_be_decoded(&over));
    assert_eq!(decode_address(&over), Err("Base 58 requirement is violated".to_string()));
    let under = format!("1{}t", digits);
    assert!(!may_be_decoded(&under));
}
