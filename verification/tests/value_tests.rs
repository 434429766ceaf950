use collator_monitor::account::{account_to_raw32, AccountId32};
use collator_monitor::decode::{
    parse_account_id, parse_account_list, parse_aura_authorities, parse_aura_public_key,
    parse_candidate_info, parse_candidate_list, parse_free_balance, parse_u128, parse_u32,
    CandidateInfo, ParseError,
};
use collator_monitor::lookup::{contains_account, find_candidate_deposit};
use collator_monitor::value::{Composite, Primitive, Value, ValueDef};

fn number(n: u128) -> Value<u32> {
    Value { value: ValueDef::Primitive(Primitive::U128(n)), context: 7 }
}

fn unnamed(items: Vec<Value<u32>>) -> Value<u32> {
    Value { value: ValueDef::Composite(Composite::Unnamed(items)), context: 7 }
}

fn named(fields: Vec<(&str, Value<u32>)>) -> Value<u32> {
    let fields = fields.into_iter().map(|(n, v)| (n.to_string(), v)).collect();
    Value { value: ValueDef::Composite(Composite::Named(fields)), context: 7 }
}

fn account(seed: u8) -> AccountId32 {
    let mut bytes = [seed; 32];
    bytes[0] = seed.wrapping_add(1);
    AccountId32(bytes)
}

fn account_value(seed: u8) -> Value<u32> {
    unnamed(account(seed).0.iter().map(|b| number(*b as u128)).collect())
}

fn candidate_value(seed: u8, deposit: u128) -> Value<u32> {
    named(vec![("who", account_value(seed)), ("deposit", number(deposit))])
}

#[test]
fn account_from_bytes_and_wrappers() {
    assert_eq!(parse_account_id(&account_value(3)).unwrap(), account(3));
    assert_eq!(parse_account_id(&unnamed(vec![account_value(3)])).unwrap(), account(3));
    assert_eq!(
        parse_account_id(&named(vec![("x", number(1)), ("id", account_value(4))])).unwrap(),
        account(4)
    );
    let big: Value<u32> =
        Value { value: ValueDef::Primitive(Primitive::U256([9u8; 32])), context: 0 };
    assert_eq!(parse_account_id(&big).unwrap(), AccountId32([9u8; 32]));
}

#[test]
fn account_bytes_are_truncated_numbers() {
    let items = (0..32).map(|_| number(0x1ff)).collect();
    assert_eq!(parse_account_id(&unnamed(items)).unwrap(), AccountId32([0xffu8; 32]));
}

#[test]
fn account_errors() {
    let mut items: Vec<Value<u32>> = (0..32).map(|_| number(1)).collect();
    items[5] = unnamed(vec![]);
    assert!(matches!(parse_account_id(&unnamed(items)), Err(ParseError::AccountByte)));
    assert!(matches!(parse_account_id(&number(5)), Err(ParseError::Account(_))));
    assert!(matches!(
        parse_account_id(&named(vec![("who", account_value(1))])),
        Err(ParseError::Account(_))
    ));
}

#[test]
fn numbers() {
    assert_eq!(parse_u128(&number(u128::MAX)).unwrap(), u128::MAX);
    assert!(matches!(parse_u128(&unnamed(vec![])), Err(ParseError::U128(_))));
    assert_eq!(parse_u32(&number(1 << 32 | 25)).unwrap(), 25);
    assert!(matches!(parse_u32(&unnamed(vec![])), Err(ParseError::U32(_))));
}

#[test]
fn candidate_records() {
    let c = parse_candidate_info(&candidate_value(8, 77)).unwrap();
    assert_eq!(c, CandidateInfo { who: account(8), deposit: 77 });
    let last_wins = named(vec![
        ("deposit", number(1)),
        ("who", account_value(8)),
        ("deposit", number(2)),
    ]);
    assert_eq!(parse_candidate_info(&last_wins).unwrap().deposit, 2);
    assert!(matches!(
        parse_candidate_info(&named(vec![("who", account_value(8))])),
        Err(ParseError::CandidateInfo)
    ));
    assert!(matches!(
        parse_candidate_info(&named(vec![("deposit", unnamed(vec![])), ("who", number(1))])),
        Err(ParseError::U128(_))
    ));
    assert!(matches!(parse_candidate_info(&number(1)), Err(ParseError::CandidateInfo)));
}

#[test]
fn free_balance_is_in_the_data() {
    let info = named(vec![
        ("nonce", number(3)),
        ("data", named(vec![("free", number(500)), ("reserved", number(7))])),
    ]);
    assert_eq!(parse_free_balance(&info).unwrap(), 500);
    assert!(matches!(
        parse_free_balance(&named(vec![("nonce", number(3))])),
        Err(ParseError::FreeBalance)
    ));
    assert!(matches!(
        parse_free_balance(&named(vec![("data", named(vec![("free", unnamed(vec![]))]))])),
        Err(ParseError::U128(_))
    ));
}

#[test]
fn account_lists_read_back() {
    let list = unnamed(vec![account_value(1), account_value(2), account_value(3)]);
    let expected = vec![account(1), account(2), account(3)];
    assert_eq!(parse_account_list(&list), expected);
    assert_eq!(parse_account_list(&unnamed(vec![list])), expected);
    assert_eq!(parse_account_list(&unnamed(vec![account_value(5)])), vec![account(5)]);
    assert_eq!(
        parse_account_list(&unnamed(vec![unnamed(vec![account_value(5)])])),
        vec![account(5)]
    );
    assert!(parse_account_list(&unnamed(vec![unnamed(vec![])])).is_empty());
    assert!(parse_account_list(&number(1)).is_empty());
}

#[test]
fn named_account_lists() {
    let list = named(vec![("0", unnamed(vec![account_value(1), account_value(2)]))]);
    assert_eq!(parse_account_list(&list), vec![account(1), account(2)]);
    let fields = named(vec![("a", account_value(1)), ("b", number(2)), ("c", account_value(3))]);
    assert_eq!(parse_account_list(&fields), vec![account(1), account(3)]);
}

#[test]
fn candidate_lists_read_back() {
    let list = unnamed(vec![candidate_value(1, 10), candidate_value(2, 20)]);
    let read = parse_candidate_list(&list);
    assert_eq!(read.len(), 2);
    assert_eq!(read[1], CandidateInfo { who: account(2), deposit: 20 });
    assert_eq!(parse_candidate_list(&unnamed(vec![list])), read);
    assert_eq!(
        parse_candidate_list(&unnamed(vec![candidate_value(4, 40)])),
        vec![CandidateInfo { who: account(4), deposit: 40 }]
    );
    assert!(parse_candidate_list(&unnamed(vec![])).is_empty());
}

#[test]
fn aura_keys() {
    assert_eq!(parse_aura_public_key(&account_value(6)).unwrap(), account(6));
    assert_eq!(parse_aura_public_key(&unnamed(vec![account_value(6)])).unwrap(), account(6));
    assert_eq!(
        parse_aura_public_key(&named(vec![("INNER_key", account_value(6))])).unwrap(),
        account(6)
    );
    let mut mixed: Vec<Value<u32>> = (0..32).map(|_| number(2)).collect();
    mixed[0] = unnamed(vec![]);
    let mut expected = [2u8; 32];
    expected[0] = 0;
    assert_eq!(parse_aura_public_key(&unnamed(mixed)).unwrap(), AccountId32(expected));
    assert!(matches!(
        parse_aura_public_key(&named(vec![("outer", account_value(6))])),
        Err(ParseError::AuraKey(_))
    ));
    assert!(matches!(parse_aura_public_key(&number(3)), Err(ParseError::AuraKey(_))));
}

#[test]
fn aura_authority_lists() {
    let list = unnamed(vec![account_value(1), account_value(2)]);
    assert_eq!(parse_aura_authorities(&list), vec![account(1), account(2)]);
    assert_eq!(parse_aura_authorities(&unnamed(vec![list])), vec![account(1), account(2)]);
    assert_eq!(parse_aura_authorities(&unnamed(vec![account_value(1)])), vec![account(1)]);
    assert!(parse_aura_authorities(&named(vec![("0", account_value(1))])).is_empty());
}

#[test]
fn accounts_are_found_at_any_depth() {
    let list = unnamed(vec![unnamed(vec![account_value(1), account_value(2)])]);
    assert!(contains_account(&list, &account(2).0));
    assert!(!contains_account(&list, &account(3).0));
    let record = named(vec![("x", named(vec![("y", account_value(9))]))]);
    assert!(contains_account(&record, &account(9).0));
    assert!(!contains_account(&number(1), &account(9).0));
}

#[test]
fn thirty_two_accounts_are_no_account() {
    let list = unnamed((0..32).map(account_value).collect());
    assert!(contains_account(&list, &account(31).0));
    assert!(!contains_account(&list, &account(32).0));
    assert_eq!(parse_account_list(&list).len(), 32);
}

#[test]
fn deposits_are_found() {
    let list = unnamed(vec![
        candidate_value(1, 10),
        candidate_value(2, 20),
        candidate_value(2, 30),
    ]);
    assert_eq!(find_candidate_deposit(&list, &account(2).0), Some(20));
    assert_eq!(find_candidate_deposit(&unnamed(vec![list]), &account(1).0), Some(10));
    let tuple = named(vec![("0", account_value(5)), ("1", number(50))]);
    assert_eq!(find_candidate_deposit(&tuple, &account(5).0), Some(50));
    assert_eq!(find_candidate_deposit(&tuple, &account(6).0), None);
    let no_deposit = named(vec![("who", account_value(5))]);
    assert_eq!(find_candidate_deposit(&no_deposit, &account(5).0), None);
}

#[test]
fn raw_accounts_take_the_first_bytes() {
    let mut encoded = vec![4u8; 40];
    encoded[32] = 99;
    assert_eq!(account_to_raw32(&encoded), [4u8; 32]);
}

#[test]
fn fields_by_name() {
    let v = named(vec![("a", number(1)), ("now", number(2)), ("now", number(3))]);
    if let ValueDef::Composite(c) = &v.value {
        assert_eq!(c.at("now").and_then(|x| x.as_u128()), Some(2));
        assert!(c.at("then").is_none());
    } else {
        panic!("not a composite");
    }
    assert!(v.as_u128().is_none());
}
