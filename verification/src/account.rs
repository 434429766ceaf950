//! Account identifiers and their SS58 addresses.
use crate::base58::{is_decodable, may_be_decoded};
use vstd::prelude::*;

verus! {

/// A 32-byte account identifier.
#[derive(Debug, Clone, Copy, PartialEq, Eq)]
pub struct AccountId32(pub [u8; 32]);

impl View for AccountId32 {
    type V = Seq<u8>;

    open spec fn view(&self) -> Seq<u8> {
        self.0@
    }
}

impl AccountId32 {
    /// Whether two identifiers hold the same bytes.
    pub fn same(&self, other: &AccountId32) -> (r: bool)
        ensures
            r == (self@ == other@),
    {
        same_bytes(&self.0, &other.0)
    }
}

/// Whether two arrays of 32 bytes are equal.
pub fn same_bytes(a: &[u8; 32], b: &[u8; 32]) -> (r: bool)
    ensures
        r == (a@ == b@),
{
    let mut i: usize = 0;
    while i < 32
        invariant
            i <= 32,
            forall|j: int| 0 <= j < i ==> a@[j] == b@[j],
        decreases 32 - i,
    {
        if a[i] != b[i] {
            assert(a@[i as int] != b@[i as int]);
            return false;
        }
        i = i + 1;
    }
    assert(a@ =~= b@);
    true
}

/// The first 32 bytes of an encoded account.
pub fn account_to_raw32(encoded: &[u8]) -> (r: [u8; 32])
    requires
        encoded@.len() >= 32,
    ensures
        r@ == encoded@.take(32),
{
    let mut out: [u8; 32] = [0u8; 32];
    let mut i: usize = 0;
    while i < 32
        invariant
            i <= 32,
            encoded@.len() >= 32,
            forall|j: int| 0 <= j < i ==> out@[j] == encoded@[j],
        decreases 32 - i,
    {
        out[i] = encoded[i];
        i = i + 1;
    }
    assert(out@ =~= encoded@.take(32));
    out
}

/// What `AccountId32::from_str` of subxt makes of an SS58 address: the account's
/// 32 bytes, or the text of its error.
pub uninterp spec fn ss58_decoded(address: Seq<char>) -> Result<Seq<u8>, Seq<char>>;

/// What `AccountId32::to_string` of subxt makes of an account's 32 bytes.
pub uninterp spec fn ss58_encoded(account: Seq<u8>) -> Seq<char>;

/// Calls `AccountId32::from_str` of subxt and takes the bytes out of the result,
/// or the text out of its error. The result is named `ss58_decoded`: it follows
/// from the address alone, by way of base 58 and a checksum. The call panics on
/// some texts that are not `is_decodable`, so none of those is handed to it.
#[verifier::external_body]
pub(crate) fn decode_ss58(address: &str) -> (r: Result<AccountId32, String>)
    requires
        is_decodable(address@),
    ensures
        match r {
            Ok(account) => ss58_decoded(address@) == Ok::<Seq<u8>, Seq<char>>(account@),
            Err(text) => ss58_decoded(address@) == Err::<Seq<u8>, Seq<char>>(text@),
        },
{
    match address.parse::<subxt::utils::AccountId32>() {
        Ok(account) => Ok(AccountId32(account.0)),
        Err(e) => Err(e.to_string()),
    }
}

/// What an address stands for: what decoding it gives. A text that may not be
/// decoded stands for more bytes than an address has.
pub open spec fn address_meaning(address: Seq<char>) -> Result<Seq<u8>, Seq<char>> {
    if is_decodable(address) {
        ss58_decoded(address)
    } else {
        Err("Length is bad"@)
    }
}

/// The view of what decoding an address gave.
pub open spec fn decoded_view(decoded: Result<AccountId32, String>) -> Result<Seq<u8>, Seq<char>> {
    match decoded {
        Ok(account) => Ok(account@),
        Err(reason) => Err(reason@),
    }
}

/// What an address stands for.
pub fn decode_address(address: &str) -> (r: Result<AccountId32, String>)
    ensures
        decoded_view(r) == address_meaning(address@),
{
    if may_be_decoded(address) {
        decode_ss58(address)
    } else {
        Err("Length is bad".to_string())
    }
}

/// Calls `to_string` on the `AccountId32` of subxt that holds the same bytes.
/// The result is named `ss58_encoded`: it follows from the bytes alone. Decoding
/// the address gives the account back. The 35 bytes that it encodes take at most
/// 49 digits.
#[verifier::external_body]
pub(crate) fn encode_ss58(account: &AccountId32) -> (r: String)
    ensures
        r@ == ss58_encoded(account@),
        r@.len() <= 49,
        ss58_decoded(r@) is Ok,
        ss58_decoded(r@)->Ok_0 == account@,
{
    subxt::utils::AccountId32(account.0).to_string()
}

impl AccountId32 {
    /// The SS58 address of the account. Decoding it gives the account back.
    pub fn address(&self) -> (r: String)
        ensures
            r@ == ss58_encoded(self@),
            address_meaning(r@) == Ok::<Seq<u8>, Seq<char>>(self@),
    {
        encode_ss58(self)
    }
}

/// An address stands for what decoding it gives. Only a text that starts with the
/// digit for zero and is longer than 132 characters may stand for an error without
/// being decoded, that of a wrong length.
pub proof fn law_addresses_are_decoded(address: Seq<char>)
    ensures
        address.len() <= 132 || address[0] != '1' ==> address_meaning(address) == ss58_decoded(
            address,
        ),
        address_meaning(address) == ss58_decoded(address) || address_meaning(address) == Err::<
            Seq<u8>,
            Seq<char>,
        >("Length is bad"@),
{
}

/// What was decoded is passed on as it is: the bytes of the account, or the reason.
pub proof fn law_decoded_addresses_are_passed_on(account: AccountId32, reason: String)
    ensures
        decoded_view(Ok(account)) == Ok::<Seq<u8>, Seq<char>>(account.0@),
        decoded_view(Err(reason)) == Err::<Seq<u8>, Seq<char>>(reason@),
{
}

} // verus!
