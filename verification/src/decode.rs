//! Reading accounts, candidates and numbers out of decoded storage values.
use crate::account::AccountId32;
use crate::text::{holds_text, lowercase, occurs_in, same_text, to_lowercase};
use crate::value::{
    as_u128, first_field, law_first_field_of_a_name_is_selected, lemma_field_is_smaller,
    lemma_first_field, lemma_first_field_meaning, Composite, Primitive, Value, ValueDef,
};
use vstd::prelude::*;

verus! {

/// A candidate of the collator selection pallet.
#[derive(Debug, Clone, Copy, PartialEq, Eq)]
pub struct CandidateInfo {
    pub who: AccountId32,
    pub deposit: u128,
}

/// The bytes of a candidate's account, and its deposit.
pub struct Candidate {
    pub who: Seq<u8>,
    pub deposit: u128,
}

impl View for CandidateInfo {
    type V = Candidate;

    open spec fn view(&self) -> Candidate {
        Candidate { who: self.who@, deposit: self.deposit }
    }
}

/// The bytes of each account.
pub open spec fn account_views(accounts: Seq<AccountId32>) -> Seq<Seq<u8>> {
    accounts.map_values(|a: AccountId32| a@)
}

/// The views of a list of candidates.
pub open spec fn candidate_views(candidates: Seq<CandidateInfo>) -> Seq<Candidate> {
    candidates.map_values(|c: CandidateInfo| c@)
}

/// Why a value could not be read, with the value at fault where one is shown.
#[derive(Debug)]
pub enum ParseError<'a, T> {
    /// "Failed to parse CandidateInfo"
    CandidateInfo,
    /// "Expected u8 in account bytes"
    AccountByte,
    /// "Failed to parse AccountId32 from: " and the value
    Account(&'a Value<T>),
    /// "Failed to parse u128: " and the value
    U128(&'a Value<T>),
    /// "Failed to parse u32: " and the value
    U32(&'a Value<T>),
    /// "Failed to parse free balance"
    FreeBalance,
    /// "Failed to parse Aura public key: " and the value
    AuraKey(&'a Value<T>),
}

/// Whether every member is an unsigned number.
pub open spec fn all_numbers<T>(items: Seq<Value<T>>) -> bool {
    forall|i: int| 0 <= i < items.len() ==> as_u128(#[trigger] items[i]) is Some
}

/// The low byte of each member that is an unsigned number, and zero for each
/// that is not.
pub open spec fn low_bytes<T>(items: Seq<Value<T>>) -> Seq<u8> {
    items.map_values(
        |v: Value<T>|
            match as_u128(v) {
                Some(n) => n as u8,
                None => 0u8,
            },
    )
}

/// Whether a field may hold an account.
pub open spec fn account_field(name: Seq<char>) -> bool {
    name == "0"@ || name == "id"@ || name == "account"@
}

/// The account that a value stands for: 32 numbers, one byte each; a 256-bit
/// number; or one of these inside single-member wrappers and account fields.
pub open spec fn account_id<'a, T>(v: &'a Value<T>) -> Result<Seq<u8>, ParseError<'a, T>>
    decreases v,
{
    match v.value {
        ValueDef::Composite(Composite::Unnamed(items)) => {
            if items@.len() == 1 {
                account_id(&items@[0])
            } else if items@.len() == 32 {
                if all_numbers(items@) {
                    Ok(low_bytes(items@))
                } else {
                    Err(ParseError::AccountByte)
                }
            } else {
                Err(ParseError::Account(v))
            }
        },
        ValueDef::Composite(Composite::Named(fields)) => {
            let k = first_field(fields@, |n: Seq<char>| account_field(n));
            if 0 <= k < fields@.len() {
                account_id(&fields@[k].1)
            } else {
                Err(ParseError::Account(v))
            }
        },
        ValueDef::Primitive(Primitive::U256(bytes)) => Ok(bytes@),
        _ => Err(ParseError::Account(v)),
    }
}

/// Whether a parse gave what the model of it says.
pub open spec fn account_result<T>(
    r: Result<AccountId32, ParseError<'_, T>>,
    model: Result<Seq<u8>, ParseError<'_, T>>,
) -> bool {
    match r {
        Ok(account) => model == Ok::<Seq<u8>, ParseError<'_, T>>(account@),
        Err(e) => model == Err::<Seq<u8>, ParseError<'_, T>>(e),
    }
}

/// The bytes of 32 members, if all of them are numbers.
pub fn number_bytes<T>(items: &Vec<Value<T>>) -> (r: Option<[u8; 32]>)
    requires
        items@.len() == 32,
    ensures
        match r {
            Some(bytes) => all_numbers(items@) && bytes@ == low_bytes(items@),
            None => !all_numbers(items@),
        },
{
    let mut bytes: [u8; 32] = [0u8; 32];
    let mut i: usize = 0;
    while i < 32
        invariant
            i <= 32,
            items@.len() == 32,
            forall|j: int| 0 <= j < i ==> as_u128(#[trigger] items@[j]) is Some,
            forall|j: int| 0 <= j < i ==> bytes@[j] == low_bytes(items@)[j],
        decreases 32 - i,
    {
        match items[i].as_u128() {
            Some(n) => {
                bytes[i] = n as u8;
            },
            None => {
                assert(as_u128(items@[i as int]) is None);
                return None;
            },
        }
        i = i + 1;
    }
    assert(bytes@ =~= low_bytes(items@));
    Some(bytes)
}

/// Read an account out of a value.
pub fn parse_account_id<'a, T>(value: &'a Value<T>) -> (r: Result<
    AccountId32,
    ParseError<'a, T>,
>)
    ensures
        account_result(r, account_id(value)),
    decreases value,
{
    match &value.value {
        ValueDef::Composite(Composite::Unnamed(items)) => {
            if items.len() == 1 {
                return parse_account_id(&items[0]);
            } else if items.len() == 32 {
                return match number_bytes(items) {
                    Some(bytes) => Ok(AccountId32(bytes)),
                    None => Err(ParseError::AccountByte),
                };
            }
        },
        ValueDef::Composite(Composite::Named(fields)) => {
            let ghost wanted = |n: Seq<char>| account_field(n);
            let mut i: usize = 0;
            while i < fields.len()
                invariant
                    i <= fields@.len(),
                    value.value == ValueDef::Composite(Composite::Named(*fields)),
                    wanted == (|n: Seq<char>| account_field(n)),
                    forall|j: int| 0 <= j < i ==> !wanted(#[trigger] fields@[j].0@),
                decreases fields@.len() - i,
            {
                let field = &fields[i];
                let name = field.0.as_str();
                if same_text(name, "0") || same_text(name, "id") || same_text(name, "account") {
                    proof {
                        lemma_first_field(fields@, wanted, i as int);
                        lemma_field_is_smaller(*value, *fields, i as int);
                    }
                    return parse_account_id(&field.1);
                }
                i = i + 1;
            }
            proof {
                lemma_first_field(fields@, wanted, i as int);
            }
        },
        ValueDef::Primitive(Primitive::U256(bytes)) => {
            return Ok(AccountId32(*bytes));
        },
        _ => {},
    }
    Err(ParseError::Account(value))
}

/// Read an unsigned number out of a value.
pub fn parse_u128<'a, T>(value: &'a Value<T>) -> (r: Result<u128, ParseError<'a, T>>)
    ensures
        r == (match as_u128(*value) {
            Some(n) => Ok::<u128, ParseError<'a, T>>(n),
            None => Err(ParseError::U128(value)),
        }),
{
    match value.as_u128() {
        Some(n) => Ok(n),
        None => Err(ParseError::U128(value)),
    }
}

/// Read the low 32 bits of an unsigned number out of a value.
pub fn parse_u32<'a, T>(value: &'a Value<T>) -> (r: Result<u32, ParseError<'a, T>>)
    ensures
        r == (match as_u128(*value) {
            Some(n) => Ok::<u32, ParseError<'a, T>>(n as u32),
            None => Err(ParseError::U32(value)),
        }),
{
    match value.as_u128() {
        Some(n) => Ok(n as u32),
        None => Err(ParseError::U32(value)),
    }
}

/// The value of the last field of the given name.
pub open spec fn last_named<T>(fields: Seq<(String, Value<T>)>, name: Seq<char>) -> Option<Value<T>>
    decreases fields.len(),
{
    if fields.len() == 0 {
        None
    } else if fields.last().0@ == name {
        Some(fields.last().1)
    } else {
        last_named(fields.drop_last(), name)
    }
}

/// Why a field of a candidate cannot be read, if it cannot.
pub open spec fn candidate_field_error<'a, T>(field: &'a (String, Value<T>)) -> Option<
    ParseError<'a, T>,
> {
    if field.0@ == "who"@ {
        match account_id(&field.1) {
            Ok(_) => None,
            Err(e) => Some(e),
        }
    } else if field.0@ == "deposit"@ && as_u128(field.1) is None {
        Some(ParseError::U128(&field.1))
    } else {
        None
    }
}

/// The error of the first field that has one.
pub open spec fn first_field_error<'a, T>(fields: Seq<(String, Value<T>)>) -> Option<
    ParseError<'a, T>,
>
    decreases fields.len(),
{
    if fields.len() == 0 {
        None
    } else {
        match first_field_error(fields.drop_last()) {
            Some(e) => Some(e),
            None => candidate_field_error(&fields.last()),
        }
    }
}

/// The candidate that a value stands for: a named composite whose last fields
/// `who` and `deposit` give its account and its deposit.
pub open spec fn candidate_info<'a, T>(v: &'a Value<T>) -> Result<Candidate, ParseError<'a, T>> {
    match v.value {
        ValueDef::Composite(Composite::Named(fields)) => match first_field_error(fields@) {
            Some(e) => Err(e),
            None => match (last_named(fields@, "who"@), last_named(fields@, "deposit"@)) {
                (Some(who), Some(deposit)) => Ok(
                    Candidate { who: account_id(&who)->Ok_0, deposit: as_u128(deposit)->Some_0 },
                ),
                _ => Err(ParseError::CandidateInfo),
            },
        },
        _ => Err(ParseError::CandidateInfo),
    }
}

/// The names of a candidate's fields differ from each other and from those of a
/// pair.
pub proof fn lemma_candidate_names()
    ensures
        "who"@ != "deposit"@,
        "who"@ != "0"@,
        "who"@ != "1"@,
        "deposit"@ != "0"@,
        "deposit"@ != "1"@,
{
    reveal_strlit("who");
    reveal_strlit("deposit");
    reveal_strlit("0");
    reveal_strlit("1");
    assert("who"@.len() == 3 && "deposit"@.len() == 7 && "0"@.len() == 1 && "1"@.len() == 1);
}

proof fn lemma_first_error_prefix<T>(fields: Seq<(String, Value<T>)>, n: int)
    requires
        0 <= n <= fields.len(),
        first_field_error(fields.take(n)) is Some,
    ensures
        first_field_error(fields) == first_field_error(fields.take(n)),
    decreases fields.len(),
{
    if n < fields.len() {
        assert(fields.drop_last().take(n) =~= fields.take(n));
        lemma_first_error_prefix(fields.drop_last(), n);
    } else {
        assert(fields.take(n) =~= fields);
    }
}

/// Read a candidate out of a value.
pub fn parse_candidate_info<'a, T>(value: &'a Value<T>) -> (r: Result<
    CandidateInfo,
    ParseError<'a, T>,
>)
    ensures
        match r {
            Ok(c) => candidate_info(value) == Ok::<Candidate, ParseError<'a, T>>(c@),
            Err(e) => candidate_info(value) == Err::<Candidate, ParseError<'a, T>>(e),
        },
{
    if let ValueDef::Composite(Composite::Named(fields)) = &value.value {
        let mut who: Option<AccountId32> = None;
        let mut deposit: Option<u128> = None;
        let mut i: usize = 0;
        assert(fields@.take(0) =~= Seq::empty());
        while i < fields.len()
            invariant
                i <= fields@.len(),
                value.value == ValueDef::Composite(Composite::Named(*fields)),
                first_field_error(fields@.take(i as int)) is None,
                match last_named(fields@.take(i as int), "who"@) {
                    Some(v) => who is Some && account_id(&v) == Ok::<Seq<u8>, ParseError<'a, T>>(
                        who->Some_0@,
                    ),
                    None => who is None,
                },
                match last_named(fields@.take(i as int), "deposit"@) {
                    Some(v) => deposit is Some && as_u128(v) == deposit,
                    None => deposit is None,
                },
            decreases fields@.len() - i,
        {
            let field = &fields[i];
            let name = field.0.as_str();
            proof {
                lemma_candidate_names();
                assert(fields@.take(i + 1).drop_last() =~= fields@.take(i as int));
                assert(fields@.take(i + 1).last() == *field);
                if candidate_field_error(field) is Some {
                    lemma_first_error_prefix(fields@, i + 1);
                }
            }
            if same_text(name, "who") {
                match parse_account_id(&field.1) {
                    Ok(account) => {
                        who = Some(account);
                    },
                    Err(e) => {
                        return Err(e);
                    },
                }
            } else if same_text(name, "deposit") {
                match parse_u128(&field.1) {
                    Ok(n) => {
                        deposit = Some(n);
                    },
                    Err(e) => {
                        return Err(e);
                    },
                }
            }
            i = i + 1;
        }
        assert(fields@.take(i as int) =~= fields@);
        if let (Some(who), Some(deposit)) = (who, deposit) {
            return Ok(CandidateInfo { who, deposit });
        }
    }
    Err(ParseError::CandidateInfo)
}

/// The free balance in an account record: the field `free` of the first field
/// `data` that is a named composite with such a field.
pub open spec fn free_balance<'a, T>(v: &'a Value<T>) -> Result<u128, ParseError<'a, T>> {
    match v.value {
        ValueDef::Composite(Composite::Named(fields)) => free_balance_from(fields@, 0),
        _ => Err(ParseError::FreeBalance),
    }
}

/// The field `free` of a named composite, where `field` is called `data`.
pub open spec fn free_in<T>(field: (String, Value<T>)) -> Option<Value<T>> {
    if field.0@ == "data"@ {
        match field.1.value {
            ValueDef::Composite(c) => crate::value::field_at(c, "free"@),
            _ => None,
        }
    } else {
        None
    }
}

/// The free balance in the fields from position `from` on.
pub open spec fn free_balance_from<'a, T>(fields: Seq<(String, Value<T>)>, from: int) -> Result<
    u128,
    ParseError<'a, T>,
>
    decreases fields.len() - from,
{
    if from < 0 || from >= fields.len() {
        Err(ParseError::FreeBalance)
    } else {
        match free_in(fields[from]) {
            Some(free) => match as_u128(free) {
                Some(n) => Ok(n),
                None => Err(ParseError::U128(&free)),
            },
            None => free_balance_from(fields, from + 1),
        }
    }
}

/// Read the free balance out of an account record.
pub fn parse_free_balance<'a, T>(value: &'a Value<T>) -> (r: Result<u128, ParseError<'a, T>>)
    ensures
        r == free_balance(value),
{
    if let ValueDef::Composite(Composite::Named(fields)) = &value.value {
        let mut i: usize = 0;
        while i < fields.len()
            invariant
                i <= fields@.len(),
                value.value == ValueDef::Composite(Composite::Named(*fields)),
                free_balance(value) == free_balance_from(fields@, i as int),
            decreases fields@.len() - i,
        {
            let field = &fields[i];
            if same_text(field.0.as_str(), "data") {
                if let ValueDef::Composite(data) = &field.1.value {
                    if let Some(free) = data.at("free") {
                        return parse_u128(free);
                    }
                }
            }
            i = i + 1;
        }
    }
    Err(ParseError::FreeBalance)
}

/// The values of named fields.
pub open spec fn field_values<T>(fields: Seq<(String, Value<T>)>) -> Seq<Value<T>> {
    fields.map_values(|f: (String, Value<T>)| f.1)
}

/// The accounts among the values, in order.
pub open spec fn accounts_in<T>(items: Seq<Value<T>>) -> Seq<Seq<u8>>
    decreases items.len(),
{
    if items.len() == 0 {
        Seq::empty()
    } else {
        match account_id(&items.last()) {
            Ok(account) => accounts_in(items.drop_last()).push(account),
            Err(_) => accounts_in(items.drop_last()),
        }
    }
}

/// The accounts that a value lists. A composite with a single member, or with a
/// field named `0`, may wrap the list itself.
pub open spec fn account_list<T>(v: Value<T>) -> Seq<Seq<u8>>
    decreases v,
{
    match v.value {
        ValueDef::Composite(Composite::Unnamed(items)) => {
            if items@.len() == 1 && account_list(items@[0]).len() > 0 {
                account_list(items@[0])
            } else {
                accounts_in(items@)
            }
        },
        ValueDef::Composite(Composite::Named(fields)) => {
            let k = first_field(fields@, |n: Seq<char>| n == "0"@);
            if 0 <= k < fields@.len() {
                account_list(fields@[k].1)
            } else {
                accounts_in(field_values(fields@))
            }
        },
        _ => Seq::empty(),
    }
}

/// Read a list of accounts out of a value. What is no account is passed over.
pub fn parse_account_list<T>(value: &Value<T>) -> (r: Vec<AccountId32>)
    ensures
        account_views(r@) == account_list(*value),
    decreases value,
{
    let mut accounts: Vec<AccountId32> = Vec::new();
    assert(account_views(accounts@) =~= Seq::empty());
    match &value.value {
        ValueDef::Composite(Composite::Unnamed(items)) => {
            if items.len() == 1 {
                let inner = parse_account_list(&items[0]);
                assert(account_views(inner@).len() == inner@.len());
                if inner.len() > 0 {
                    return inner;
                }
            }
            let mut i: usize = 0;
            assert(items@.take(0) =~= Seq::empty());
            while i < items.len()
                invariant
                    i <= items@.len(),
                    account_views(accounts@) == accounts_in(items@.take(i as int)),
                decreases items@.len() - i,
            {
                proof {
                    assert(items@.take(i + 1).drop_last() =~= items@.take(i as int));
                }
                if let Ok(account) = parse_account_id(&items[i]) {
                    let ghost before = accounts@;
                    accounts.push(account);
                    assert(account_views(accounts@) =~= account_views(before).push(account@));
                }
                i = i + 1;
            }
            assert(items@.take(i as int) =~= items@);
        },
        ValueDef::Composite(Composite::Named(fields)) => {
            let ghost wanted = |n: Seq<char>| n == "0"@;
            let ghost values = field_values(fields@);
            let mut i: usize = 0;
            assert(values.take(0) =~= Seq::empty());
            while i < fields.len()
                invariant
                    i <= fields@.len(),
                    value.value == ValueDef::Composite(Composite::Named(*fields)),
                    wanted == (|n: Seq<char>| n == "0"@),
                    values == field_values(fields@),
                    forall|j: int| 0 <= j < i ==> !wanted(#[trigger] fields@[j].0@),
                    account_views(accounts@) == accounts_in(values.take(i as int)),
                decreases fields@.len() - i,
            {
                let field = &fields[i];
                if same_text(field.0.as_str(), "0") {
                    proof {
                        lemma_first_field(fields@, wanted, i as int);
                        lemma_field_is_smaller(*value, *fields, i as int);
                    }
                    return parse_account_list(&field.1);
                }
                proof {
                    assert(values.take(i + 1).drop_last() =~= values.take(i as int));
                    assert(values.take(i + 1).last() == field.1);
                }
                if let Ok(account) = parse_account_id(&field.1) {
                    let ghost before = accounts@;
                    accounts.push(account);
                    assert(account_views(accounts@) =~= account_views(before).push(account@));
                }
                i = i + 1;
            }
            proof {
                lemma_first_field(fields@, wanted, i as int);
            }
            assert(values.take(i as int) =~= values);
        },
        _ => {},
    }
    accounts
}

/// The candidates among the values, in order.
pub open spec fn candidates_in<T>(items: Seq<Value<T>>) -> Seq<Candidate>
    decreases items.len(),
{
    if items.len() == 0 {
        Seq::empty()
    } else {
        match candidate_info(&items.last()) {
            Ok(candidate) => candidates_in(items.drop_last()).push(candidate),
            Err(_) => candidates_in(items.drop_last()),
        }
    }
}

/// The candidates that a value lists. A composite with a single member, or with
/// a field named `0`, may wrap the list itself.
pub open spec fn candidate_list<T>(v: Value<T>) -> Seq<Candidate>
    decreases v,
{
    match v.value {
        ValueDef::Composite(Composite::Unnamed(items)) => {
            if items@.len() == 1 && candidate_list(items@[0]).len() > 0 {
                candidate_list(items@[0])
            } else {
                candidates_in(items@)
            }
        },
        ValueDef::Composite(Composite::Named(fields)) => {
            let k = first_field(fields@, |n: Seq<char>| n == "0"@);
            if 0 <= k < fields@.len() {
                candidate_list(fields@[k].1)
            } else {
                candidates_in(field_values(fields@))
            }
        },
        _ => Seq::empty(),
    }
}

/// Read a list of candidates out of a value. What is no candidate is passed over.
pub fn parse_candidate_list<T>(value: &Value<T>) -> (r: Vec<CandidateInfo>)
    ensures
        candidate_views(r@) == candidate_list(*value),
    decreases value,
{
    let mut candidates: Vec<CandidateInfo> = Vec::new();
    assert(candidate_views(candidates@) =~= Seq::empty());
    match &value.value {
        ValueDef::Composite(Composite::Unnamed(items)) => {
            if items.len() == 1 {
                let inner = parse_candidate_list(&items[0]);
                assert(candidate_views(inner@).len() == inner@.len());
                if inner.len() > 0 {
                    return inner;
                }
            }
            let mut i: usize = 0;
            assert(items@.take(0) =~= Seq::empty());
            while i < items.len()
                invariant
                    i <= items@.len(),
                    candidate_views(candidates@) == candidates_in(items@.take(i as int)),
                decreases items@.len() - i,
            {
                proof {
                    assert(items@.take(i + 1).drop_last() =~= items@.take(i as int));
                }
                if let Ok(candidate) = parse_candidate_info(&items[i]) {
                    let ghost before = candidates@;
                    candidates.push(candidate);
                    assert(candidate_views(candidates@) =~= candidate_views(before).push(
                        candidate@,
                    ));
                }
                i = i + 1;
            }
            assert(items@.take(i as int) =~= items@);
        },
        ValueDef::Composite(Composite::Named(fields)) => {
            let ghost wanted = |n: Seq<char>| n == "0"@;
            let ghost values = field_values(fields@);
            let mut i: usize = 0;
            assert(values.take(0) =~= Seq::empty());
            while i < fields.len()
                invariant
                    i <= fields@.len(),
                    value.value == ValueDef::Composite(Composite::Named(*fields)),
                    wanted == (|n: Seq<char>| n == "0"@),
                    values == field_values(fields@),
                    forall|j: int| 0 <= j < i ==> !wanted(#[trigger] fields@[j].0@),
                    candidate_views(candidates@) == candidates_in(values.take(i as int)),
                decreases fields@.len() - i,
            {
                let field = &fields[i];
                if same_text(field.0.as_str(), "0") {
                    proof {
                        lemma_first_field(fields@, wanted, i as int);
                        lemma_field_is_smaller(*value, *fields, i as int);
                    }
                    return parse_candidate_list(&field.1);
                }
                proof {
                    assert(values.take(i + 1).drop_last() =~= values.take(i as int));
                    assert(values.take(i + 1).last() == field.1);
                }
                if let Ok(candidate) = parse_candidate_info(&field.1) {
                    let ghost before = candidates@;
                    candidates.push(candidate);
                    assert(candidate_views(candidates@) =~= candidate_views(before).push(
                        candidate@,
                    ));
                }
                i = i + 1;
            }
            proof {
                lemma_first_field(fields@, wanted, i as int);
            }
            assert(values.take(i as int) =~= values);
        },
        _ => {},
    }
    candidates
}

/// Whether a field may hold a public key.
pub open spec fn key_field(name: Seq<char>) -> bool {
    name == "0"@ || occurs_in(lowercase(name), "inner"@)
}

/// The public key that a value stands for: 32 members, of which those that are
/// numbers give their byte; or one inside single-member wrappers and key fields.
pub open spec fn aura_key<'a, T>(v: &'a Value<T>) -> Result<Seq<u8>, ParseError<'a, T>>
    decreases v,
{
    match v.value {
        ValueDef::Composite(Composite::Unnamed(items)) => {
            if items@.len() == 32 {
                Ok(low_bytes(items@))
            } else if items@.len() == 1 {
                aura_key(&items@[0])
            } else {
                Err(ParseError::AuraKey(v))
            }
        },
        ValueDef::Composite(Composite::Named(fields)) => {
            let k = first_field(fields@, |n: Seq<char>| key_field(n));
            if 0 <= k < fields@.len() {
                aura_key(&fields@[k].1)
            } else {
                Err(ParseError::AuraKey(v))
            }
        },
        _ => match account_id(v) {
            Ok(account) => Ok(account),
            Err(_) => Err(ParseError::AuraKey(v)),
        },
    }
}

/// Read an Aura public key out of a value.
pub fn parse_aura_public_key<'a, T>(value: &'a Value<T>) -> (r: Result<
    AccountId32,
    ParseError<'a, T>,
>)
    ensures
        account_result(r, aura_key(value)),
    decreases value,
{
    match &value.value {
        ValueDef::Composite(Composite::Unnamed(bytes)) => {
            if bytes.len() == 32 {
                let mut account_bytes: [u8; 32] = [0u8; 32];
                let mut i: usize = 0;
                while i < 32
                    invariant
                        i <= 32,
                        bytes@.len() == 32,
                        forall|j: int| 0 <= j < i ==> account_bytes@[j] == low_bytes(bytes@)[j],
                        forall|j: int| i <= j < 32 ==> account_bytes@[j] == 0,
                    decreases 32 - i,
                {
                    if let Some(n) = bytes[i].as_u128() {
                        account_bytes[i] = n as u8;
                    }
                    i = i + 1;
                }
                assert(account_bytes@ =~= low_bytes(bytes@));
                return Ok(AccountId32(account_bytes));
            }
            if bytes.len() == 1 {
                return parse_aura_public_key(&bytes[0]);
            }
        },
        ValueDef::Composite(Composite::Named(fields)) => {
            let ghost wanted = |n: Seq<char>| key_field(n);
            let mut i: usize = 0;
            while i < fields.len()
                invariant
                    i <= fields@.len(),
                    value.value == ValueDef::Composite(Composite::Named(*fields)),
                    wanted == (|n: Seq<char>| key_field(n)),
                    forall|j: int| 0 <= j < i ==> !wanted(#[trigger] fields@[j].0@),
                decreases fields@.len() - i,
            {
                let field = &fields[i];
                let name = field.0.as_str();
                if same_text(name, "0") || holds_text(to_lowercase(name).as_str(), "inner") {
                    proof {
                        lemma_first_field(fields@, wanted, i as int);
                        lemma_field_is_smaller(*value, *fields, i as int);
                    }
                    return parse_aura_public_key(&field.1);
                }
                i = i + 1;
            }
            proof {
                lemma_first_field(fields@, wanted, i as int);
            }
        },
        _ => {
            if let Ok(account) = parse_account_id(value) {
                return Ok(account);
            }
        },
    }
    Err(ParseError::AuraKey(value))
}

/// The public keys among the values, in order.
pub open spec fn keys_in<T>(items: Seq<Value<T>>) -> Seq<Seq<u8>>
    decreases items.len(),
{
    if items.len() == 0 {
        Seq::empty()
    } else {
        match aura_key(&items.last()) {
            Ok(key) => keys_in(items.drop_last()).push(key),
            Err(_) => keys_in(items.drop_last()),
        }
    }
}

/// The public keys that an unnamed composite lists. One with a single member may
/// wrap the list itself.
pub open spec fn aura_authorities<T>(v: Value<T>) -> Seq<Seq<u8>>
    decreases v,
{
    match v.value {
        ValueDef::Composite(Composite::Unnamed(items)) => {
            if items@.len() == 1 && aura_authorities(items@[0]).len() > 0 {
                aura_authorities(items@[0])
            } else {
                keys_in(items@)
            }
        },
        _ => Seq::empty(),
    }
}

/// Read the Aura authorities out of a value. What is no public key is passed
/// over.
pub fn parse_aura_authorities<T>(value: &Value<T>) -> (r: Vec<AccountId32>)
    ensures
        account_views(r@) == aura_authorities(*value),
    decreases value,
{
    let mut authorities: Vec<AccountId32> = Vec::new();
    assert(account_views(authorities@) =~= Seq::empty());
    if let ValueDef::Composite(Composite::Unnamed(items)) = &value.value {
        if items.len() == 1 {
            let inner = parse_aura_authorities(&items[0]);
            assert(account_views(inner@).len() == inner@.len());
            if inner.len() > 0 {
                return inner;
            }
        }
        let mut i: usize = 0;
        assert(items@.take(0) =~= Seq::empty());
        while i < items.len()
            invariant
                i <= items@.len(),
                account_views(authorities@) == keys_in(items@.take(i as int)),
            decreases items@.len() - i,
        {
            proof {
                assert(items@.take(i + 1).drop_last() =~= items@.take(i as int));
            }
            if let Ok(key) = parse_aura_public_key(&items[i]) {
                let ghost before = authorities@;
                authorities.push(key);
                assert(account_views(authorities@) =~= account_views(before).push(key@));
            }
            i = i + 1;
        }
        assert(items@.take(i as int) =~= items@);
    }
    authorities
}

/// The low byte of a number is what is left of it beyond the multiples of 256.
pub proof fn lemma_low_byte(n: u128)
    ensures
        n as u8 == n % 256,
{
    assert(n as u8 == n % 256) by (bit_vector);
}

/// A value stands for an account where it is a 256-bit number, or 32 numbers, of
/// each of which the low byte counts. A wrapper with a single member stands for what
/// the member does, and a named composite for what its first field `0`, `id` or
/// `account` does. Of 32 members one of which is no number, that is the error; any
/// other value is an error that shows the value.
pub proof fn law_values_that_stand_for_accounts<T>(v: Value<T>)
    ensures
        match v.value {
            ValueDef::Primitive(Primitive::U256(bytes)) => account_id(&v) == Ok::<
                Seq<u8>,
                ParseError<'_, T>,
            >(bytes@),
            ValueDef::Composite(Composite::Unnamed(items)) => {
                &&& items@.len() == 1 ==> account_id(&v) == account_id(&items@[0])
                &&& items@.len() == 32 ==> {
                    &&& account_id(&v) is Ok <==> forall|i: int|
                        0 <= i < 32 ==> as_u128(#[trigger] items@[i]) is Some
                    &&& account_id(&v) is Err ==> account_id(&v)->Err_0 is AccountByte
                    &&& account_id(&v) is Ok ==> account_id(&v)->Ok_0.len() == 32 && forall|i: int|
                        0 <= i < 32 ==> account_id(&v)->Ok_0[i] == as_u128(
                            #[trigger] items@[i],
                        )->0 % 256
                }
                &&& items@.len() != 1 && items@.len() != 32 ==> account_id(&v) == Err::<
                    Seq<u8>,
                    ParseError<'_, T>,
                >(ParseError::Account(&v))
            },
            ValueDef::Composite(Composite::Named(fields)) => {
                &&& forall|k: int|
                    0 <= k < fields@.len() && ((#[trigger] fields@[k]).0@ == "0"@ || fields@[k].0@
                        == "id"@ || fields@[k].0@ == "account"@) && (forall|j: int|
                        0 <= j < k ==> (#[trigger] fields@[j]).0@ != "0"@ && fields@[j].0@ != "id"@
                            && fields@[j].0@ != "account"@) ==> account_id(&v) == account_id(
                        &fields@[k].1,
                    )
                &&& (forall|j: int|
                    0 <= j < fields@.len() ==> (#[trigger] fields@[j]).0@ != "0"@ && fields@[j].0@
                        != "id"@ && fields@[j].0@ != "account"@) ==> account_id(&v) == Err::<
                    Seq<u8>,
                    ParseError<'_, T>,
                >(ParseError::Account(&v))
            },
            _ => account_id(&v) == Err::<Seq<u8>, ParseError<'_, T>>(ParseError::Account(&v)),
        },
{
    match v.value {
        ValueDef::Composite(Composite::Unnamed(items)) => {
            if items@.len() == 32 && all_numbers(items@) {
                assert forall|i: int| 0 <= i < 32 implies low_bytes(items@)[i] == as_u128(
                    #[trigger] items@[i],
                )->0 % 256 by {
                    lemma_low_byte(as_u128(items@[i])->0);
                }
            }
        },
        ValueDef::Composite(Composite::Named(fields)) => {
            let wanted = |n: Seq<char>| account_field(n);
            lemma_first_field_meaning(fields@, wanted);
            let at = first_field(fields@, wanted);
            assert forall|w: spec_fn(Seq<char>) -> bool|
                (forall|n: Seq<char>| #[trigger] w(n) == account_field(n))
                    implies #[trigger] first_field(fields@, w) == at by {
                assert forall|j: int| 0 <= j < at implies !w(#[trigger] fields@[j].0@) by {
                    assert(!wanted(fields@[j].0@));
                }
                if at < fields@.len() {
                    assert(wanted(fields@[at].0@));
                }
                lemma_first_field(fields@, w, at);
            }
            assert(at < fields@.len() ==> wanted(fields@[at].0@));
            assert forall|j: int| 0 <= j < at implies !account_field(#[trigger] fields@[j].0@) by {
                assert(!wanted(fields@[j].0@));
            }
        },
        _ => {},
    }
}

/// Of two lists of values, what stands for an account, a candidate or a key is read
/// in order, one after the other; a value that stands for none is passed over.
pub proof fn law_lists_are_read_in_order<T>(items: Seq<Value<T>>, more: Seq<Value<T>>, item: Value<T>)
    ensures
        accounts_in(items + more) == accounts_in(items) + accounts_in(more),
        candidates_in(items + more) == candidates_in(items) + candidates_in(more),
        keys_in(items + more) == keys_in(items) + keys_in(more),
        accounts_in(seq![item]) == (if account_id(&item) is Ok {
            seq![account_id(&item)->Ok_0]
        } else {
            Seq::empty()
        }),
        candidates_in(seq![item]) == (if candidate_info(&item) is Ok {
            seq![candidate_info(&item)->Ok_0]
        } else {
            Seq::empty()
        }),
        keys_in(seq![item]) == (if aura_key(&item) is Ok {
            seq![aura_key(&item)->Ok_0]
        } else {
            Seq::empty()
        }),
    decreases more.len(),
{
    let one = seq![item];
    assert(one.drop_last() =~= Seq::empty());
    assert(accounts_in(one.drop_last()) =~= Seq::empty());
    assert(candidates_in(one.drop_last()) =~= Seq::empty());
    assert(keys_in(one.drop_last()) =~= Seq::empty());
    assert(accounts_in(one) =~= (if account_id(&item) is Ok {
        seq![account_id(&item)->Ok_0]
    } else {
        Seq::empty()
    }));
    assert(candidates_in(one) =~= (if candidate_info(&item) is Ok {
        seq![candidate_info(&item)->Ok_0]
    } else {
        Seq::empty()
    }));
    assert(keys_in(one) =~= (if aura_key(&item) is Ok {
        seq![aura_key(&item)->Ok_0]
    } else {
        Seq::empty()
    }));
    let all = items + more;
    if more.len() > 0 {
        law_lists_are_read_in_order(items, more.drop_last(), item);
        assert(all.drop_last() =~= items + more.drop_last());
        assert(all.last() == more.last());
    } else {
        assert(all =~= items);
    }
    assert(accounts_in(all) =~= accounts_in(items) + accounts_in(more));
    assert(candidates_in(all) =~= candidates_in(items) + candidates_in(more));
    assert(keys_in(all) =~= keys_in(items) + keys_in(more));
}

/// A list is an unnamed composite, or a named one by the values of its fields. One
/// with a single member is what the member lists, where that lists anything; a named
/// one with a field `0` is what the first such field lists. Keys are listed by an
/// unnamed composite alone, and nothing is listed by any other value.
pub proof fn law_lists_in_wrappers<T>(v: Value<T>)
    ensures
        match v.value {
            ValueDef::Composite(Composite::Unnamed(items)) => {
                let inner = items@[0];
                &&& account_list(v) == (if items@.len() == 1 && account_list(inner).len() > 0 {
                    account_list(inner)
                } else {
                    accounts_in(items@)
                })
                &&& candidate_list(v) == (if items@.len() == 1 && candidate_list(inner).len() > 0 {
                    candidate_list(inner)
                } else {
                    candidates_in(items@)
                })
                &&& aura_authorities(v) == (if items@.len() == 1 && aura_authorities(inner).len()
                    > 0 {
                    aura_authorities(inner)
                } else {
                    keys_in(items@)
                })
            },
            ValueDef::Composite(Composite::Named(fields)) => {
                let values = Seq::new(fields@.len(), |i: int| fields@[i].1);
                &&& aura_authorities(v).len() == 0
                &&& forall|k: int|
                    0 <= k < fields@.len() && (#[trigger] fields@[k]).0@ == "0"@ && (forall|j: int|
                        0 <= j < k ==> (#[trigger] fields@[j]).0@ != "0"@) ==> account_list(v)
                        == account_list(fields@[k].1) && candidate_list(v) == candidate_list(
                        fields@[k].1,
                    )
                &&& (forall|j: int| 0 <= j < fields@.len() ==> (#[trigger] fields@[j]).0@ != "0"@)
                    ==> account_list(v) == accounts_in(values) && candidate_list(v)
                    == candidates_in(values)
            },
            _ => account_list(v).len() == 0 && candidate_list(v).len() == 0 && aura_authorities(
                v,
            ).len() == 0,
        },
{
    if let ValueDef::Composite(Composite::Named(fields)) = v.value {
        let wanted = |n: Seq<char>| n == "0"@;
        lemma_first_field_meaning(fields@, wanted);
        let at = first_field(fields@, wanted);
        assert forall|j: int| 0 <= j < at implies (#[trigger] fields@[j]).0@ != "0"@ by {
            assert(!wanted(fields@[j].0@));
        }
        if at < fields@.len() {
            assert(wanted(fields@[at].0@));
        }
        assert forall|w: spec_fn(Seq<char>) -> bool|
            (forall|n: Seq<char>| #[trigger] w(n) == (n == "0"@)) implies #[trigger] first_field(
            fields@,
            w,
        ) == at by {
            lemma_first_field(fields@, w, at);
        }
        let values = Seq::new(fields@.len(), |i: int| fields@[i].1);
        assert(field_values(fields@) =~= values);
    }
}

proof fn lemma_no_field_error<T>(fields: Seq<(String, Value<T>)>)
    requires
        forall|i: int|
            0 <= i < fields.len() ==> candidate_field_error(&#[trigger] fields[i]) is None,
    ensures
        first_field_error(fields) is None,
    decreases fields.len(),
{
    if fields.len() > 0 {
        let rest = fields.drop_last();
        assert forall|i: int| 0 <= i < rest.len() implies candidate_field_error(
            &#[trigger] rest[i],
        ) is None by {
            assert(rest[i] == fields[i]);
        }
        lemma_no_field_error(rest);
        assert(candidate_field_error(&fields[fields.len() - 1]) is None);
    }
}

proof fn lemma_last_named<T>(fields: Seq<(String, Value<T>)>, name: Seq<char>, k: int)
    requires
        -1 <= k < fields.len(),
        k >= 0 ==> fields[k].0@ == name,
        forall|j: int| k < j < fields.len() ==> (#[trigger] fields[j]).0@ != name,
    ensures
        last_named(fields, name) == (if k >= 0 {
            Some(fields[k].1)
        } else {
            None
        }),
    decreases fields.len(),
{
    if fields.len() > 0 && k < fields.len() - 1 {
        let rest = fields.drop_last();
        assert(fields[fields.len() - 1].0@ != name);
        lemma_last_named(rest, name, k);
    }
}

/// A candidate is a named composite with fields `who` and `deposit` in any order and
/// among any others, of which the last of each name counts; without one of them
/// there is no candidate.
pub proof fn law_candidates_have_an_account_and_a_deposit<T>(v: Value<T>, who: int, deposit: int)
    requires
        v.value matches ValueDef::Composite(Composite::Named(fields)) && -1 <= who < fields@.len()
            && -1 <= deposit < fields@.len() && (who >= 0 ==> fields@[who].0@ == "who"@) && (deposit
            >= 0 ==> fields@[deposit].0@ == "deposit"@) && (forall|j: int|
            who < j < fields@.len() ==> (#[trigger] fields@[j]).0@ != "who"@) && (forall|j: int|
            deposit < j < fields@.len() ==> (#[trigger] fields@[j]).0@ != "deposit"@) && (forall|
            j: int,
        |
            0 <= j < fields@.len() && (#[trigger] fields@[j]).0@ == "who"@ ==> account_id(
                &fields@[j].1,
            ) is Ok) && (forall|j: int|
            0 <= j < fields@.len() && (#[trigger] fields@[j]).0@ == "deposit"@ ==> as_u128(
                fields@[j].1,
            ) is Some),
    ensures
        ({
            let fields = v.value->Composite_0->Named_0@;
            if who >= 0 && deposit >= 0 {
                candidate_info(&v) is Ok && candidate_info(&v)->Ok_0.who == account_id(
                    &fields[who].1,
                )->Ok_0 && candidate_info(&v)->Ok_0.deposit == as_u128(fields[deposit].1)->0
            } else {
                candidate_info(&v) is Err && candidate_info(&v)->Err_0 is CandidateInfo
            }
        }),
{
    lemma_candidate_names();
    let fields = v.value->Composite_0->Named_0@;
    assert forall|i: int| 0 <= i < fields.len() implies candidate_field_error(
        &#[trigger] fields[i],
    ) is None by {}
    lemma_no_field_error(fields);
    lemma_last_named(fields, "who"@, who);
    lemma_last_named(fields, "deposit"@, deposit);
}

/// A candidate whose account or deposit cannot be read is an error of the first
/// field that cannot, and any other value is no candidate.
pub proof fn law_candidates_that_cannot_be_read<T>(v: Value<T>, at: int)
    ensures
        !(v.value matches ValueDef::Composite(Composite::Named(_))) ==> candidate_info(&v) is Err
            && candidate_info(&v)->Err_0 is CandidateInfo,
        (v.value matches ValueDef::Composite(Composite::Named(fields)) && 0 <= at < fields@.len()
            && (forall|j: int|
            0 <= j < at ==> candidate_field_error(&#[trigger] fields@[j]) is None) && (
        fields@[at].0@ == "who"@ && account_id(&fields@[at].1) is Err)) ==> candidate_info(&v)
            is Err && candidate_info(&v)->Err_0 == account_id(
            &v.value->Composite_0->Named_0@[at].1,
        )->Err_0,
        (v.value matches ValueDef::Composite(Composite::Named(fields)) && 0 <= at < fields@.len()
            && (forall|j: int|
            0 <= j < at ==> candidate_field_error(&#[trigger] fields@[j]) is None) && (
        fields@[at].0@ == "deposit"@ && as_u128(fields@[at].1) is None)) ==> candidate_info(&v)
            is Err && candidate_info(&v)->Err_0 == ParseError::<'_, T>::U128(
            &v.value->Composite_0->Named_0@[at].1,
        ),
{
    lemma_candidate_names();
    if let ValueDef::Composite(Composite::Named(fields)) = v.value {
        if 0 <= at < fields@.len() && (forall|j: int|
            0 <= j < at ==> candidate_field_error(&#[trigger] fields@[j]) is None)
            && candidate_field_error(&fields@[at]) is Some {
            let upto = fields@.take(at);
            assert forall|j: int| 0 <= j < upto.len() implies candidate_field_error(
                &#[trigger] upto[j],
            ) is None by {
                assert(upto[j] == fields@[j]);
            }
            lemma_no_field_error(upto);
            let next = fields@.take(at + 1);
            assert(next.drop_last() =~= upto);
            assert(next.last() == fields@[at]);
            lemma_first_error_prefix(fields@, at + 1);
        }
    }
}

proof fn lemma_free_balance_from<T>(fields: Seq<(String, Value<T>)>, from: int, k: int)
    requires
        0 <= from <= k <= fields.len(),
        forall|j: int| from <= j < k ==> free_in(#[trigger] fields[j]) is None,
    ensures
        free_balance_from(fields, from) == free_balance_from(fields, k),
    decreases k - from,
{
    if from < k {
        assert(free_in(fields[from]) is None);
        lemma_free_balance_from(fields, from + 1, k);
    }
}

/// The free balance of an account record is the number in the first field `free` of
/// the first field `data` that is a named composite with one; no other field
/// matters. Where there is none, or it is no number, there is no balance.
pub proof fn law_free_balance_is_in_the_data<T>(v: Value<T>, k: int, f: int)
    requires
        v.value matches ValueDef::Composite(Composite::Named(fields)) && 0 <= k <= fields@.len()
            && (forall|j: int|
            0 <= j < k ==> (#[trigger] fields@[j]).0@ != "data"@ || (
            fields@[j].1.value matches ValueDef::Composite(Composite::Named(data)) ==> forall|
                i: int,
            |
                0 <= i < data@.len() ==> (#[trigger] data@[i]).0@ != "free"@)) && (k
            < fields@.len() ==> fields@[k].0@ == "data"@ && (
        fields@[k].1.value matches ValueDef::Composite(Composite::Named(data)) && 0 <= f
            < data@.len() && data@[f].0@ == "free"@ && (forall|j: int|
            0 <= j < f ==> (#[trigger] data@[j]).0@ != "free"@))),
    ensures
        ({
            let fields = v.value->Composite_0->Named_0@;
            let data = fields[k].1.value->Composite_0->Named_0@;
            if k == fields.len() {
                free_balance(&v) is Err && free_balance(&v)->Err_0 is FreeBalance
            } else {
                match as_u128(data[f].1) {
                    Some(n) => free_balance(&v) == Ok::<u128, ParseError<'_, T>>(n),
                    None => free_balance(&v) == Err::<u128, ParseError<'_, T>>(
                        ParseError::U128(&data[f].1),
                    ),
                }
            }
        }),
{
    let fields = v.value->Composite_0->Named_0@;
    assert forall|j: int| 0 <= j < k implies free_in(#[trigger] fields[j]) is None by {
        if let ValueDef::Composite(Composite::Named(data)) = fields[j].1.value {
            law_first_field_of_a_name_is_selected(fields[j].1.value->Composite_0, "free"@);
        }
    }
    lemma_free_balance_from(fields, 0, k);
    if k < fields.len() {
        law_first_field_of_a_name_is_selected(fields[k].1.value->Composite_0, "free"@);
    }
}

/// A value that is no named composite is no account record.
pub proof fn law_account_records_are_named<T>(v: Value<T>)
    requires
        !(v.value matches ValueDef::Composite(Composite::Named(_))),
    ensures
        free_balance(&v) is Err && free_balance(&v)->Err_0 is FreeBalance,
{
}

/// A public key is 32 members, of which each number gives its low byte and each that
/// is no number gives zero; a wrapper with a single member is the
/// key that the member is, and a named composite the one of its first field `0` or
/// with `inner` in its name, in any case. What is no composite is a key where it is
/// an account. Any other value is an error that shows the value.
pub proof fn law_values_that_are_public_keys<T>(v: Value<T>)
    ensures
        match v.value {
            ValueDef::Composite(Composite::Unnamed(items)) => {
                &&& items@.len() == 32 ==> aura_key(&v) is Ok && aura_key(&v)->Ok_0.len() == 32
                    && forall|i: int|
                    0 <= i < 32 ==> (match as_u128(#[trigger] items@[i]) {
                        Some(n) => aura_key(&v)->Ok_0[i] == n % 256,
                        None => aura_key(&v)->Ok_0[i] == 0,
                    })
                &&& items@.len() == 1 ==> aura_key(&v) == aura_key(&items@[0])
                &&& items@.len() != 1 && items@.len() != 32 ==> aura_key(&v) == Err::<
                    Seq<u8>,
                    ParseError<'_, T>,
                >(ParseError::AuraKey(&v))
            },
            ValueDef::Composite(Composite::Named(fields)) => {
                &&& forall|k: int|
                    0 <= k < fields@.len() && ((#[trigger] fields@[k]).0@ == "0"@ || occurs_in(
                        lowercase(fields@[k].0@),
                        "inner"@,
                    )) && (forall|j: int|
                        0 <= j < k ==> (#[trigger] fields@[j]).0@ != "0"@ && !occurs_in(
                            lowercase(fields@[j].0@),
                            "inner"@,
                        )) ==> aura_key(&v) == aura_key(&fields@[k].1)
                &&& (forall|j: int|
                    0 <= j < fields@.len() ==> (#[trigger] fields@[j]).0@ != "0"@ && !occurs_in(
                        lowercase(fields@[j].0@),
                        "inner"@,
                    )) ==> aura_key(&v) == Err::<Seq<u8>, ParseError<'_, T>>(
                    ParseError::AuraKey(&v),
                )
            },
            _ => if account_id(&v) is Ok {
                aura_key(&v) == account_id(&v)
            } else {
                aura_key(&v) == Err::<Seq<u8>, ParseError<'_, T>>(ParseError::AuraKey(&v))
            },
        },
{
    match v.value {
        ValueDef::Composite(Composite::Unnamed(items)) => {
            if items@.len() == 32 {
                assert forall|i: int| 0 <= i < 32 implies (match as_u128(#[trigger] items@[i]) {
                    Some(n) => low_bytes(items@)[i] == n % 256,
                    None => low_bytes(items@)[i] == 0,
                }) by {
                    if let Some(n) = as_u128(items@[i]) {
                        lemma_low_byte(n);
                    }
                }
            }
        },
        ValueDef::Composite(Composite::Named(fields)) => {
            let wanted = |n: Seq<char>| key_field(n);
            lemma_first_field_meaning(fields@, wanted);
            let at = first_field(fields@, wanted);
            assert forall|w: spec_fn(Seq<char>) -> bool|
                (forall|n: Seq<char>| #[trigger] w(n) == key_field(n)) implies #[trigger] first_field(
                fields@,
                w,
            ) == at by {
                assert forall|j: int| 0 <= j < at implies !w(#[trigger] fields@[j].0@) by {
                    assert(!wanted(fields@[j].0@));
                }
                if at < fields@.len() {
                    assert(wanted(fields@[at].0@));
                }
                lemma_first_field(fields@, w, at);
            }
            assert(at < fields@.len() ==> wanted(fields@[at].0@));
            assert forall|j: int| 0 <= j < at implies !key_field(#[trigger] fields@[j].0@) by {
                assert(!wanted(fields@[j].0@));
            }
        },
        _ => {},
    }
}

/// Lists of accounts and of candidates are seen as they are: as many, in order, each
/// by its bytes and its deposit.
pub proof fn law_views_of_lists(accounts: Seq<AccountId32>, candidates: Seq<CandidateInfo>)
    ensures
        account_views(accounts).len() == accounts.len(),
        forall|i: int|
            0 <= i < accounts.len() ==> #[trigger] account_views(accounts)[i] == accounts[i].0@,
        candidate_views(candidates).len() == candidates.len(),
        forall|i: int|
            0 <= i < candidates.len() ==> (#[trigger] candidate_views(candidates)[i]).who
                == candidates[i].who.0@ && candidate_views(candidates)[i].deposit
                == candidates[i].deposit,
{
}

} // verus!
