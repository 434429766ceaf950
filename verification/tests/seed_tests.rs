use collator_monitor::seed::{
    checked_mnemonic, checked_phrase_keypair, checked_secret_keypair, checked_uri,
    checked_uri_keypair, kind_of_seed, parse_seed, public_key, secret_of_hex, SeedError, SeedKind,
};

const DEV_PHRASE: &str = "bottom drive obey lake curtain smoke basket hold race lonely fit walk";

const DEV_KEY: [u8; 32] = [
    0x46, 0xeb, 0xdd, 0xef, 0x8c, 0xd9, 0xbb, 0x16, 0x7d, 0xc3, 0x08, 0x78, 0xd7, 0x11, 0x3b, 0x7e,
    0x16, 0x8e, 0x6f, 0x06, 0x46, 0xbe, 0xff, 0xd7, 0x7d, 0x69, 0xd3, 0x9b, 0xad, 0x76, 0xb4, 0x7a,
];

const ALICE_KEY: [u8; 32] = [
    0xd4, 0x35, 0x93, 0xc7, 0x15, 0xfd, 0xd3, 0x1c, 0x61, 0x14, 0x1a, 0xbd, 0x04, 0xa9, 0x9f, 0xd6,
    0x82, 0x2c, 0x85, 0x58, 0x85, 0x4c, 0xcd, 0xe3, 0x9a, 0x56, 0x84, 0xe7, 0xa5, 0x6d, 0xa2, 0x7d,
];

fn key(seed: &str) -> [u8; 32] {
    public_key(&parse_seed(seed).unwrap()).0
}

fn error(seed: &str) -> SeedError {
    match parse_seed(seed) {
        Ok(_) => panic!("a key pair"),
        Err(e) => e,
    }
}

#[test]
fn seed_phrase_gives_its_key() {
    assert_eq!(key(DEV_PHRASE), DEV_KEY);
}

#[test]
fn hex_seed_gives_its_key() {
    assert_eq!(
        key("0xfac7959dbfe72f052e5a0c3c8d6530f202b02fd8f9f5ca3580ec8deb7797479e"),
        DEV_KEY
    );
    assert_eq!(
        key("0xFAC7959dbfe72f052e5a0c3c8d6530f202b02fd8f9f5ca3580ec8deb7797479E"),
        DEV_KEY
    );
}

#[test]
fn uri_gives_its_key() {
    assert_eq!(key("//Alice"), ALICE_KEY);
    assert_eq!(key("//Alice"), subxt_signer::sr25519::dev::alice().public_key().0);
}

#[test]
fn soft_junctions_give_the_same_key_again() {
    assert_eq!(key("//Alice/soft"), key("//Alice/soft"));
    assert_ne!(key("//Alice/soft"), ALICE_KEY);
}

#[test]
fn white_space_around_a_seed() {
    assert_eq!(key("  //Alice\n"), ALICE_KEY);
    let padded = format!("\t{}  ", DEV_PHRASE);
    assert_eq!(key(&padded), DEV_KEY);
}

#[test]
fn kinds_of_seed() {
    assert_eq!(kind_of_seed("a b"), SeedKind::Phrase);
    assert_eq!(kind_of_seed("0x12 34"), SeedKind::Phrase);
    assert_eq!(kind_of_seed("0x12"), SeedKind::Hex);
    assert_eq!(kind_of_seed("//Alice"), SeedKind::Uri);
    assert_eq!(kind_of_seed(""), SeedKind::Uri);
    assert_eq!(kind_of_seed("0X12"), SeedKind::Uri);
}

#[test]
fn mnemonic_errors() {
    let e = error("hello world");
    assert!(matches!(e, SeedError::InvalidMnemonic(_)));
    assert!(e.message().starts_with("Invalid mnemonic: "));
}

#[test]
fn hex_errors() {
    let odd = error("0x123");
    assert!(matches!(&odd, SeedError::InvalidHex(why) if why == "Odd number of digits"));
    assert_eq!(odd.message(), "Invalid hex seed");
    assert!(matches!(error("0x12zz"), SeedError::InvalidHex(_)));
    let short = error("0x1234");
    assert!(matches!(short, SeedError::HexLength(2)));
    assert_eq!(short.message(), "Hex seed must be 32 bytes, got 2");
}

#[test]
fn uri_errors() {
    let e = error("!!!");
    assert!(matches!(&e, SeedError::InvalidUri(_)));
    assert_eq!(e.message(), "Invalid URI format: Invalid secret phrase format");
    let e = error("notaword");
    assert!(matches!(e, SeedError::UriKeypair(_)));
    assert!(e.message().starts_with("Failed to create keypair from URI: "));
}

#[test]
fn messages_of_the_other_errors() {
    assert_eq!(
        SeedError::MnemonicKeypair("x".to_string()).message(),
        "Failed to create keypair from mnemonic: x"
    );
    assert_eq!(SeedError::InvalidSeed("x".to_string()).message(), "Invalid seed: x");
}

#[test]
fn secrets_have_thirty_two_bytes() {
    assert_eq!(secret_of_hex(Ok(vec![5; 32])).unwrap(), [5u8; 32]);
    assert!(matches!(secret_of_hex(Ok(vec![5; 33])), Err(SeedError::HexLength(33))));
    assert!(matches!(secret_of_hex(Err("e".to_string())), Err(SeedError::InvalidHex(_))));
}

#[test]
fn failures_keep_their_reason() {
    let why = || Err("why".to_string());
    assert!(matches!(checked_mnemonic(why()), Err(SeedError::InvalidMnemonic(e)) if e == "why"));
    assert!(matches!(
        checked_phrase_keypair(Err("why".to_string())),
        Err(SeedError::MnemonicKeypair(e)) if e == "why"
    ));
    assert!(matches!(
        checked_secret_keypair(Err("why".to_string())),
        Err(SeedError::InvalidSeed(e)) if e == "why"
    ));
    assert!(matches!(
        checked_uri(Err("why".to_string())),
        Err(SeedError::InvalidUri(e)) if e == "why"
    ));
    assert!(matches!(
        checked_uri_keypair(Err("why".to_string())),
        Err(SeedError::UriKeypair(e)) if e == "why"
    ));
    let alice = subxt_signer::sr25519::dev::alice();
    assert_eq!(checked_uri_keypair(Ok(alice)).unwrap().public_key().0, ALICE_KEY);
}
