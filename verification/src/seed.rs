//! The proxy's key pair, from a seed phrase, a hexadecimal seed or a derivation
//! path.
use crate::account::AccountId32;
use crate::text::{decimal, decimal_text, has_prefix, holds_char, lemma_trimmed_twice, occurs_at, trim, trimmed, two};
use bip39::Mnemonic;
use subxt_signer::sr25519::Keypair;
use subxt_signer::SecretUri;
use vstd::prelude::*;

verus! {

/// Declares `Keypair` of subxt-signer, which is carried as it is.
#[verifier::external_type_specification]
#[verifier::external_body]
pub struct ExKeypair(Keypair);

/// Declares `Mnemonic` of bip39, which is carried from its parser to the key pair.
#[verifier::external_type_specification]
#[verifier::external_body]
pub struct ExMnemonic(Mnemonic);

/// Declares `SecretUri` of subxt-signer, which is carried from its parser to the key
/// pair.
#[verifier::external_type_specification]
#[verifier::external_body]
pub struct ExSecretUri(SecretUri);

/// How a seed is written.
#[derive(Debug, Clone, Copy, PartialEq, Eq, Structural)]
pub enum SeedKind {
    /// Words with spaces between them
    Phrase,
    /// Hexadecimal digits behind `0x`
    Hex,
    /// A secret URI such as `//Alice`
    Uri,
}

/// Why a seed gives no key pair.
#[derive(Debug)]
pub enum SeedError {
    InvalidMnemonic(String),
    MnemonicKeypair(String),
    InvalidHex(String),
    HexLength(usize),
    InvalidSeed(String),
    InvalidUri(String),
    UriKeypair(String),
}

impl SeedError {
    /// The text of the error.
    pub open spec fn spec_message(self) -> Seq<char> {
        match self {
            SeedError::InvalidMnemonic(e) => "Invalid mnemonic: "@ + e@,
            SeedError::MnemonicKeypair(e) => "Failed to create keypair from mnemonic: "@ + e@,
            SeedError::InvalidHex(_) => "Invalid hex seed"@,
            SeedError::HexLength(n) => "Hex seed must be 32 bytes, got "@ + decimal(n as nat),
            SeedError::InvalidSeed(e) => "Invalid seed: "@ + e@,
            SeedError::InvalidUri(e) => "Invalid URI format: "@ + e@,
            SeedError::UriKeypair(e) => "Failed to create keypair from URI: "@ + e@,
        }
    }

    /// The text of the error.
    pub fn message(&self) -> (r: String)
        ensures
            r@ == self.spec_message(),
    {
        match self {
            SeedError::InvalidMnemonic(e) => two("Invalid mnemonic: ", e.as_str()),
            SeedError::MnemonicKeypair(e) => two(
                "Failed to create keypair from mnemonic: ",
                e.as_str(),
            ),
            SeedError::InvalidHex(_) => "Invalid hex seed".to_string(),
            SeedError::HexLength(n) => two(
                "Hex seed must be 32 bytes, got ",
                decimal_text(*n as u128).as_str(),
            ),
            SeedError::InvalidSeed(e) => two("Invalid seed: ", e.as_str()),
            SeedError::InvalidUri(e) => two("Invalid URI format: ", e.as_str()),
            SeedError::UriKeypair(e) => two("Failed to create keypair from URI: ", e.as_str()),
        }
    }
}

/// How a trimmed seed is written.
pub open spec fn seed_kind(seed: Seq<char>) -> SeedKind {
    if seed.contains(' ') {
        SeedKind::Phrase
    } else if occurs_at(seed, "0x"@, 0) {
        SeedKind::Hex
    } else {
        SeedKind::Uri
    }
}

/// How a trimmed seed is written.
pub fn kind_of_seed(seed: &str) -> (r: SeedKind)
    ensures
        r == seed_kind(seed@),
{
    if holds_char(seed, ' ') {
        SeedKind::Phrase
    } else if has_prefix(seed, "0x") {
        SeedKind::Hex
    } else {
        SeedKind::Uri
    }
}

/// The value of a hexadecimal digit, of either case.
pub open spec fn hex_digit(c: u8) -> Option<int> {
    if 0x30 <= c <= 0x39 {
        Some(c - 0x30)
    } else if 0x41 <= c <= 0x46 {
        Some(c - 0x41 + 10)
    } else if 0x61 <= c <= 0x66 {
        Some(c - 0x61 + 10)
    } else {
        None
    }
}

/// The bytes that pairs of hexadecimal digits encode: none where a digit is left
/// over or a character is no digit.
pub open spec fn hex_bytes(digits: Seq<u8>) -> Option<Seq<u8>> {
    if digits.len() % 2 != 0 || exists|i: int|
        0 <= i < digits.len() && hex_digit(#[trigger] digits[i]) is None {
        None
    } else {
        Some(
            Seq::new(
                digits.len() / 2,
                |i: int| (16 * hex_digit(digits[2 * i])->0 + hex_digit(digits[2 * i + 1])->0) as u8,
            ),
        )
    }
}

/// The text of the error of `hex::decode` on a text.
pub uninterp spec fn hex_failure(text: Seq<char>) -> Seq<char>;

/// Calls `hex::decode`: the bytes that the digits encode, or the text of its
/// error, which is named `hex_failure`.
#[verifier::external_body]
fn decode_hex(text: &str) -> (r: Result<Vec<u8>, String>)
    ensures
        match hex_bytes(vstd::utf8::encode_utf8(text@)) {
            Some(bytes) => r matches Ok(v) && v@ == bytes,
            None => r matches Err(e) && e@ == hex_failure(text@),
        },
{
    hex::decode(text).map_err(|e| e.to_string())
}

/// What `bip39::Mnemonic::parse` makes of a phrase: the mnemonic, or the text of
/// its error.
pub uninterp spec fn parsed_mnemonic(phrase: Seq<char>) -> Result<Mnemonic, Seq<char>>;

/// Calls `bip39::Mnemonic::parse`. The result is named `parsed_mnemonic`: the
/// word list and the checksum behind it are not written out here.
#[verifier::external_body]
fn parse_mnemonic(phrase: &str) -> (r: Result<Mnemonic, String>)
    ensures
        match parsed_mnemonic(phrase@) {
            Ok(m) => r == Ok::<Mnemonic, String>(m),
            Err(why) => r matches Err(e) && e@ == why,
        },
{
    Mnemonic::parse(phrase).map_err(|e| e.to_string())
}

/// The public key that `Keypair::public_key` gives of a key pair.
pub uninterp spec fn public_key_of(pair: Keypair) -> Seq<u8>;

/// Calls `Keypair::public_key` of subxt-signer. The result is named
/// `public_key_of`.
#[verifier::external_body]
fn read_public_key(pair: &Keypair) -> (r: [u8; 32])
    ensures
        r@ == public_key_of(*pair),
{
    pair.public_key().0
}

/// The public key of a key pair: the bytes of the account that it signs for.
pub fn public_key(pair: &Keypair) -> (r: AccountId32)
    ensures
        r@ == public_key_of(*pair),
{
    AccountId32(read_public_key(pair))
}

/// The public key of the key pair that `Keypair::from_phrase` makes of a mnemonic
/// without a password, or the text of its error.
pub uninterp spec fn phrase_public_key(mnemonic: Mnemonic) -> Result<Seq<u8>, Seq<char>>;

/// Calls `Keypair::from_phrase` of subxt-signer, without a password. The public
/// key of the result is named `phrase_public_key`.
#[verifier::external_body]
fn keypair_from_phrase(mnemonic: &Mnemonic) -> (r: Result<Keypair, String>)
    ensures
        match phrase_public_key(*mnemonic) {
            Ok(key) => r matches Ok(pair) && public_key_of(pair) == key,
            Err(why) => r matches Err(e) && e@ == why,
        },
{
    Keypair::from_phrase(mnemonic, None).map_err(|e| e.to_string())
}

/// The public key of the key pair that `Keypair::from_secret_key` makes of
/// thirty-two bytes.
pub uninterp spec fn secret_public_key(secret: Seq<u8>) -> Seq<u8>;

/// Calls `Keypair::from_secret_key` of subxt-signer. The public key of the result
/// is named `secret_public_key`; any thirty-two bytes are accepted.
#[verifier::external_body]
fn keypair_from_secret(secret: [u8; 32]) -> (r: Result<Keypair, String>)
    ensures
        r is Ok,
        public_key_of(r->Ok_0) == secret_public_key(secret@),
{
    Keypair::from_secret_key(secret).map_err(|e| e.to_string())
}

/// What `SecretUri::from_str` makes of a text: the URI, or the text of its error.
pub uninterp spec fn parsed_uri(text: Seq<char>) -> Result<SecretUri, Seq<char>>;

/// Calls `SecretUri::from_str` of subxt-signer. The result is named `parsed_uri`.
#[verifier::external_body]
fn parse_uri(text: &str) -> (r: Result<SecretUri, String>)
    ensures
        match parsed_uri(text@) {
            Ok(uri) => r == Ok::<SecretUri, String>(uri),
            Err(why) => r matches Err(e) && e@ == why,
        },
{
    text.parse::<SecretUri>().map_err(|e| e.to_string())
}

/// The public key of the key pair that `Keypair::from_uri` makes of a secret URI,
/// or the text of its error.
pub uninterp spec fn uri_public_key(uri: SecretUri) -> Result<Seq<u8>, Seq<char>>;

/// Calls `Keypair::from_uri` of subxt-signer. The public key of the result is
/// named `uri_public_key`. The rest of the key pair is left unsaid: a soft
/// junction of the URI draws a random nonce for it.
#[verifier::external_body]
fn keypair_from_uri(uri: &SecretUri) -> (r: Result<Keypair, String>)
    ensures
        match uri_public_key(*uri) {
            Ok(key) => r matches Ok(pair) && public_key_of(pair) == key,
            Err(why) => r matches Err(e) && e@ == why,
        },
{
    Keypair::from_uri(uri).map_err(|e| e.to_string())
}

/// The secret key that decoded hexadecimal digits give.
pub fn secret_of_hex(decoded: Result<Vec<u8>, String>) -> (r: Result<[u8; 32], SeedError>)
    ensures
        match decoded {
            Err(e) => r == Err::<[u8; 32], SeedError>(SeedError::InvalidHex(e)),
            Ok(bytes) => if bytes@.len() == 32 {
                r matches Ok(secret) && secret@ == bytes@
            } else {
                r matches Err(SeedError::HexLength(n)) && n == bytes@.len()
            },
        },
{
    match decoded {
        Err(e) => Err(SeedError::InvalidHex(e)),
        Ok(bytes) => {
            if bytes.len() != 32 {
                return Err(SeedError::HexLength(bytes.len()));
            }
            let mut secret = [0u8; 32];
            let mut i: usize = 0;
            while i < 32
                invariant
                    i <= 32,
                    bytes@.len() == 32,
                    forall|j: int| 0 <= j < i ==> secret@[j] == bytes@[j],
                decreases 32 - i,
            {
                secret[i] = bytes[i];
                i = i + 1;
            }
            assert(secret@ =~= bytes@);
            Ok(secret)
        },
    }
}

/// The mnemonic that was parsed, or the error that tells why there is none.
pub fn checked_mnemonic(parsed: Result<Mnemonic, String>) -> (r: Result<Mnemonic, SeedError>)
    ensures
        r == match parsed {
            Ok(mnemonic) => Ok(mnemonic),
            Err(e) => Err(SeedError::InvalidMnemonic(e)),
        },
{
    match parsed {
        Ok(mnemonic) => Ok(mnemonic),
        Err(e) => Err(SeedError::InvalidMnemonic(e)),
    }
}

/// The key pair that was made of a mnemonic, or the error that tells why there is
/// none.
pub fn checked_phrase_keypair(made: Result<Keypair, String>) -> (r: Result<Keypair, SeedError>)
    ensures
        r == match made {
            Ok(pair) => Ok(pair),
            Err(e) => Err(SeedError::MnemonicKeypair(e)),
        },
{
    match made {
        Ok(pair) => Ok(pair),
        Err(e) => Err(SeedError::MnemonicKeypair(e)),
    }
}

/// The key pair that was made of a secret, or the error that tells why there is
/// none.
pub fn checked_secret_keypair(made: Result<Keypair, String>) -> (r: Result<Keypair, SeedError>)
    ensures
        r == match made {
            Ok(pair) => Ok(pair),
            Err(e) => Err(SeedError::InvalidSeed(e)),
        },
{
    match made {
        Ok(pair) => Ok(pair),
        Err(e) => Err(SeedError::InvalidSeed(e)),
    }
}

/// The secret URI that was parsed, or the error that tells why there is none.
pub fn checked_uri(parsed: Result<SecretUri, String>) -> (r: Result<SecretUri, SeedError>)
    ensures
        r == match parsed {
            Ok(uri) => Ok(uri),
            Err(e) => Err(SeedError::InvalidUri(e)),
        },
{
    match parsed {
        Ok(uri) => Ok(uri),
        Err(e) => Err(SeedError::InvalidUri(e)),
    }
}

/// The key pair that was made of a secret URI, or the error that tells why there is
/// none.
pub fn checked_uri_keypair(made: Result<Keypair, String>) -> (r: Result<Keypair, SeedError>)
    ensures
        r == match made {
            Ok(pair) => Ok(pair),
            Err(e) => Err(SeedError::UriKeypair(e)),
        },
{
    match made {
        Ok(pair) => Ok(pair),
        Err(e) => Err(SeedError::UriKeypair(e)),
    }
}

/// What a seed gives, whatever way it is written.
pub open spec fn seed_gives(seed: Seq<char>, r: Result<Keypair, SeedError>) -> bool {
    let text = trimmed(seed);
    match seed_kind(text) {
        SeedKind::Phrase => match parsed_mnemonic(text) {
            Err(why) => r matches Err(SeedError::InvalidMnemonic(e)) && e@ == why,
            Ok(mnemonic) => match phrase_public_key(mnemonic) {
                Err(why) => r matches Err(SeedError::MnemonicKeypair(e)) && e@ == why,
                Ok(key) => r matches Ok(pair) && public_key_of(pair) == key,
            },
        },
        SeedKind::Hex => match hex_bytes(vstd::utf8::encode_utf8(text.skip(2))) {
            None => r matches Err(SeedError::InvalidHex(e)) && e@ == hex_failure(text.skip(2)),
            Some(bytes) => if bytes.len() == 32 {
                r matches Ok(pair) && public_key_of(pair) == secret_public_key(bytes)
            } else {
                r matches Err(SeedError::HexLength(n)) && n == bytes.len()
            },
        },
        SeedKind::Uri => match parsed_uri(text) {
            Err(why) => r matches Err(SeedError::InvalidUri(e)) && e@ == why,
            Ok(uri) => match uri_public_key(uri) {
                Err(why) => r matches Err(SeedError::UriKeypair(e)) && e@ == why,
                Ok(key) => r matches Ok(pair) && public_key_of(pair) == key,
            },
        },
    }
}

/// Parse a seed phrase, a hexadecimal seed or a secret URI into a key pair.
pub fn parse_seed(seed: &str) -> (r: Result<Keypair, SeedError>)
    ensures
        seed_gives(seed@, r),
{
    let text = trim(seed);
    match kind_of_seed(text) {
        SeedKind::Phrase => match checked_mnemonic(parse_mnemonic(text)) {
            Err(e) => Err(e),
            Ok(mnemonic) => checked_phrase_keypair(keypair_from_phrase(&mnemonic)),
        },
        SeedKind::Hex => {
            proof {
                reveal_strlit("0x");
            }
            let n: usize = text.unicode_len();
            let digits = text.substring_char(2, n);
            assert(digits@ =~= text@.skip(2));
            match secret_of_hex(decode_hex(digits)) {
                Err(e) => Err(e),
                Ok(secret) => checked_secret_keypair(keypair_from_secret(secret)),
            }
        },
        SeedKind::Uri => match checked_uri(parse_uri(text)) {
            Err(e) => Err(e),
            Ok(uri) => checked_uri_keypair(keypair_from_uri(&uri)),
        },
    }
}

/// White space around a seed does not matter.
pub proof fn law_white_space_around_a_seed_is_ignored(
    seed: Seq<char>,
    r: Result<Keypair, SeedError>,
)
    ensures
        seed_gives(seed, r) <==> seed_gives(trimmed(seed), r),
{
    lemma_trimmed_twice(seed);
}

/// A seed with a space anywhere is a phrase; another one is hexadecimal exactly
/// where it starts with a zero and an `x`; any other is a secret URI.
pub proof fn law_kinds_of_seeds(seed: Seq<char>)
    ensures
        seed_kind(seed) is Phrase <==> exists|i: int|
            0 <= i < seed.len() && #[trigger] seed[i] == ' ',
        seed_kind(seed) is Hex <==> seed.len() >= 2 && seed[0] == '0' && seed[1] == 'x' && (forall|
            i: int,
        |
            0 <= i < seed.len() ==> #[trigger] seed[i] != ' '),
{
    reveal_strlit("0x");
    if occurs_at(seed, "0x"@, 0) {
        assert(seed.subrange(0, 2)[0] == '0');
        assert(seed.subrange(0, 2)[1] == 'x');
    }
    if seed.len() >= 2 && seed[0] == '0' && seed[1] == 'x' {
        assert(seed.subrange(0, 2) =~= "0x"@);
    }
}

/// The hexadecimal digits are the sixteen characters of either case, each of which
/// stands for its place among them.
pub proof fn law_hexadecimal_digits(c: u8)
    ensures
        ({
            let lower = "0123456789abcdef"@;
            let upper = "0123456789ABCDEF"@;
            &&& hex_digit(c) is Some <==> lower.contains(c as char) || upper.contains(c as char)
            &&& hex_digit(c) matches Some(d) ==> 0 <= d < 16 && (lower[d] == c as char || upper[d]
                == c as char)
        }),
{
    reveal_strlit("0123456789abcdef");
    reveal_strlit("0123456789ABCDEF");
    let lower = "0123456789abcdef"@;
    let upper = "0123456789ABCDEF"@;
    if let Some(d) = hex_digit(c) {
        assert(lower[d] == c as char || upper[d] == c as char);
    }
}

/// Hexadecimal digits give bytes exactly where they are all digits and their number
/// is even: half as many bytes, each of which is sixteen times the first digit of
/// its pair and the second one.
pub proof fn law_pairs_of_digits_give_bytes(digits: Seq<u8>)
    ensures
        hex_bytes(digits) is Some <==> digits.len() % 2 == 0 && forall|i: int|
            0 <= i < digits.len() ==> hex_digit(#[trigger] digits[i]) is Some,
        hex_bytes(digits) matches Some(bytes) ==> 2 * bytes.len() == digits.len() && forall|i: int|
            0 <= i < bytes.len() ==> #[trigger] bytes[i] == 16 * hex_digit(digits[2 * i])->0
                + hex_digit(digits[2 * i + 1])->0,
{
    if let Some(bytes) = hex_bytes(digits) {
        assert forall|i: int| 0 <= i < bytes.len() implies #[trigger] bytes[i] == 16 * hex_digit(
            digits[2 * i],
        )->0 + hex_digit(digits[2 * i + 1])->0 by {
            assert(hex_digit(digits[2 * i]) is Some);
            assert(hex_digit(digits[2 * i + 1]) is Some);
            law_hexadecimal_digits(digits[2 * i]);
            law_hexadecimal_digits(digits[2 * i + 1]);
        }
    }
}

/// A seed gives the key pair of its phrase, of its thirty-two bytes or of its URI,
/// or else an error of the step that failed, with the reason.
pub proof fn law_seeds_give_key_pairs_or_reasons(seed: Seq<char>, r: Result<Keypair, SeedError>)
    requires
        seed_gives(seed, r),
    ensures
        ({
            let text = trimmed(seed);
            match seed_kind(text) {
                SeedKind::Phrase => match parsed_mnemonic(text) {
                    Err(why) => r matches Err(SeedError::InvalidMnemonic(e)) && e@ == why,
                    Ok(m) => (r is Ok <==> phrase_public_key(m) is Ok) && (r is Ok ==> public_key_of(
                        r->Ok_0,
                    ) == phrase_public_key(m)->Ok_0) && (r matches Err(e) ==> e is MnemonicKeypair
                        && e->MnemonicKeypair_0@ == phrase_public_key(m)->Err_0),
                },
                SeedKind::Hex => match hex_bytes(vstd::utf8::encode_utf8(text.skip(2))) {
                    None => r matches Err(SeedError::InvalidHex(e)) && e@ == hex_failure(
                        text.skip(2),
                    ),
                    Some(bytes) => (r is Ok <==> bytes.len() == 32) && (r is Ok ==> public_key_of(
                        r->Ok_0,
                    ) == secret_public_key(bytes)) && (r matches Err(e) ==> e is HexLength
                        && e->HexLength_0 == bytes.len()),
                },
                SeedKind::Uri => match parsed_uri(text) {
                    Err(why) => r matches Err(SeedError::InvalidUri(e)) && e@ == why,
                    Ok(uri) => (r is Ok <==> uri_public_key(uri) is Ok) && (r is Ok
                        ==> public_key_of(r->Ok_0) == uri_public_key(uri)->Ok_0) && (r matches Err(
                        e,
                    ) ==> e is UriKeypair && e->UriKeypair_0@ == uri_public_key(uri)->Err_0),
                },
            }
        }),
{
}

/// The words of an error are the same whatever the reason, which is told in full; one
/// of a wrong length tells how many bytes there were, and one of invalid digits tells
/// no reason.
pub proof fn law_seed_errors_are_worded_alike()
    ensures
        exists|words: Seq<Seq<char>>|
            #[trigger] words.len() == 7 && forall|error: SeedError|
                #[trigger] error.spec_message() == match error {
                    SeedError::InvalidMnemonic(e) => words[0] + e@,
                    SeedError::MnemonicKeypair(e) => words[1] + e@,
                    SeedError::InvalidHex(_) => words[2],
                    SeedError::HexLength(n) => words[3] + decimal(n as nat),
                    SeedError::InvalidSeed(e) => words[4] + e@,
                    SeedError::InvalidUri(e) => words[5] + e@,
                    SeedError::UriKeypair(e) => words[6] + e@,
                },
{
    let words = seq![
        "Invalid mnemonic: "@,
        "Failed to create keypair from mnemonic: "@,
        "Invalid hex seed"@,
        "Hex seed must be 32 bytes, got "@,
        "Invalid seed: "@,
        "Invalid URI format: "@,
        "Failed to create keypair from URI: "@,
    ];
    assert(words.len() == 7);
}

} // verus!
