//! Looking an account up in decoded storage values of any shape.
use crate::account::same_bytes;
use crate::decode::{all_numbers, lemma_low_byte, low_bytes, number_bytes};
use crate::text::same_text;
use crate::value::{
    as_u128, lemma_field_is_smaller, lemma_item_is_smaller, Composite, Value, ValueDef,
};
use vstd::prelude::*;

verus! {

/// Whether an account occurs in a value: as 32 numbers, one byte each, at any
/// depth of its composites.
pub open spec fn holds_account<T>(v: Value<T>, account: Seq<u8>) -> bool
    decreases v,
{
    match v.value {
        ValueDef::Composite(Composite::Unnamed(items)) => {
            if items@.len() == 32 && all_numbers(items@) {
                low_bytes(items@) == account
            } else {
                exists|i: int|
                    0 <= i < items@.len() && holds_account(#[trigger] items@[i], account)
            }
        },
        ValueDef::Composite(Composite::Named(fields)) => {
            exists|i: int| 0 <= i < fields@.len() && holds_account((#[trigger] fields@[i]).1, account)
        },
        _ => false,
    }
}

proof fn lemma_field_holds<T>(
    v: Value<T>,
    fields: Vec<(String, Value<T>)>,
    account: Seq<u8>,
    i: int,
)
    requires
        v.value == ValueDef::Composite(Composite::Named(fields)),
        0 <= i < fields@.len(),
        holds_account(fields@[i].1, account),
    ensures
        holds_account(v, account),
{
    let f = fields@[i];
    assert(holds_account(f.1, account));
    let g = v.value->Composite_0->Named_0;
    assert(g@[i] == f);
    assert(exists|i: int| 0 <= i < g@.len() && holds_account((#[trigger] g@[i]).1, account));
}

/// Check if a decoded value contains an account.
pub fn contains_account<T>(value: &Value<T>, account: &[u8; 32]) -> (r: bool)
    ensures
        r == holds_account(*value, account@),
    decreases value,
{
    match &value.value {
        ValueDef::Composite(Composite::Unnamed(items)) => {
            if items.len() == 32 {
                if let Some(bytes) = number_bytes(items) {
                    return same_bytes(&bytes, account);
                }
            }
            let mut i: usize = 0;
            while i < items.len()
                invariant
                    i <= items@.len(),
                    value.value == ValueDef::Composite(Composite::Unnamed(*items)),
                    !(items@.len() == 32 && all_numbers(items@)),
                    forall|j: int|
                        0 <= j < i ==> !holds_account(#[trigger] items@[j], account@),
                decreases items@.len() - i,
            {
                proof {
                    lemma_item_is_smaller(*value, *items, i as int);
                }
                if contains_account(&items[i], account) {
                    assert(holds_account(items@[i as int], account@));
                    return true;
                }
                i = i + 1;
            }
            false
        },
        ValueDef::Composite(Composite::Named(fields)) => {
            let mut i: usize = 0;
            while i < fields.len()
                invariant
                    i <= fields@.len(),
                    value.value == ValueDef::Composite(Composite::Named(*fields)),
                    forall|j: int|
                        0 <= j < i ==> !holds_account((#[trigger] fields@[j]).1, account@),
                decreases fields@.len() - i,
            {
                let field = &fields[i];
                proof {
                    lemma_field_is_smaller(*value, *fields, i as int);
                }
                if contains_account(&field.1, account) {
                    proof {
                        lemma_field_holds(*value, *fields, account@, i as int);
                    }
                    return true;
                }
                i = i + 1;
            }
            false
        },
        _ => false,
    }
}

/// Whether a field of a candidate record may hold its account.
pub open spec fn who_field(name: Seq<char>) -> bool {
    name == "who"@ || name == "0"@
}

/// Whether a field of a candidate record may hold its deposit.
pub open spec fn deposit_field(name: Seq<char>) -> bool {
    name == "deposit"@ || name == "1"@
}

/// Whether the fields are the record of an account.
pub open spec fn is_record_of<T>(fields: Seq<(String, Value<T>)>, account: Seq<u8>) -> bool {
    exists|i: int|
        0 <= i < fields.len() && who_field((#[trigger] fields[i]).0@) && holds_account(
            fields[i].1,
            account,
        )
}

/// The number in the last deposit field that holds one.
pub open spec fn last_deposit<T>(fields: Seq<(String, Value<T>)>) -> Option<u128>
    decreases fields.len(),
{
    if fields.len() == 0 {
        None
    } else if deposit_field(fields.last().0@) && as_u128(fields.last().1) is Some {
        as_u128(fields.last().1)
    } else {
        last_deposit(fields.drop_last())
    }
}

/// The deposit of an account in a value: that of the first candidate record of
/// the account, in the order in which the composites nest.
pub open spec fn deposit_of<T>(v: Value<T>, account: Seq<u8>) -> Option<u128>
    decreases v, 0int,
{
    match v.value {
        ValueDef::Composite(Composite::Unnamed(items)) => deposit_in_items(items@, account, 0),
        ValueDef::Composite(Composite::Named(fields)) => {
            if is_record_of(fields@, account) {
                last_deposit(fields@)
            } else {
                deposit_in_fields(fields@, account, 0)
            }
        },
        _ => None,
    }
}

/// The first deposit of the account in the members from position `from` on.
pub open spec fn deposit_in_items<T>(items: Seq<Value<T>>, account: Seq<u8>, from: int) -> Option<
    u128,
>
    decreases items, items.len() - from,
{
    if from < 0 || from >= items.len() {
        None
    } else {
        match deposit_of(items[from], account) {
            Some(d) => Some(d),
            None => deposit_in_items(items, account, from + 1),
        }
    }
}

/// The first deposit of the account in the fields from position `from` on.
pub open spec fn deposit_in_fields<T>(
    fields: Seq<(String, Value<T>)>,
    account: Seq<u8>,
    from: int,
) -> Option<u128>
    decreases fields, fields.len() - from,
{
    if from < 0 || from >= fields.len() {
        None
    } else {
        match deposit_of(fields[from].1, account) {
            Some(d) => Some(d),
            None => deposit_in_fields(fields, account, from + 1),
        }
    }
}

/// Find candidate deposit for an account.
pub fn find_candidate_deposit<T>(value: &Value<T>, account: &[u8; 32]) -> (r: Option<u128>)
    ensures
        r == deposit_of(*value, account@),
    decreases value,
{
    match &value.value {
        ValueDef::Composite(Composite::Unnamed(items)) => {
            let mut i: usize = 0;
            while i < items.len()
                invariant
                    i <= items@.len(),
                    value.value == ValueDef::Composite(Composite::Unnamed(*items)),
                    deposit_of(*value, account@) == deposit_in_items(items@, account@, i as int),
                decreases items@.len() - i,
            {
                proof {
                    lemma_item_is_smaller(*value, *items, i as int);
                }
                if let Some(deposit) = find_candidate_deposit(&items[i], account) {
                    return Some(deposit);
                }
                i = i + 1;
            }
            None
        },
        ValueDef::Composite(Composite::Named(fields)) => {
            let mut found_account: bool = false;
            let mut deposit: Option<u128> = None;
            let mut i: usize = 0;
            assert(fields@.take(0) =~= Seq::empty());
            while i < fields.len()
                invariant
                    i <= fields@.len(),
                    value.value == ValueDef::Composite(Composite::Named(*fields)),
                    found_account == is_record_of(fields@.take(i as int), account@),
                    deposit == last_deposit(fields@.take(i as int)),
                decreases fields@.len() - i,
            {
                let field = &fields[i];
                let name = field.0.as_str();
                let ghost before = fields@.take(i as int);
                let ghost after = fields@.take(i + 1);
                assert(after.drop_last() =~= before);
                assert(after.last() == *field);
                if same_text(name, "who") || same_text(name, "0") {
                    if contains_account(&field.1, account) {
                        found_account = true;
                        assert(who_field(after[i as int].0@));
                    }
                }
                proof {
                    if is_record_of(before, account@) {
                        let j = choose|j: int|
                            0 <= j < before.len() && who_field((#[trigger] before[j]).0@)
                                && holds_account(before[j].1, account@);
                        assert(after[j] == before[j]);
                        assert(is_record_of(after, account@));
                    }
                    if is_record_of(after, account@) && !is_record_of(before, account@) {
                        let j = choose|j: int|
                            0 <= j < after.len() && who_field((#[trigger] after[j]).0@)
                                && holds_account(after[j].1, account@);
                        if j < i {
                            assert(before[j] == after[j]);
                        }
                    }
                }
                if same_text(name, "deposit") || same_text(name, "1") {
                    if let Some(d) = field.1.as_u128() {
                        deposit = Some(d);
                    }
                }
                i = i + 1;
            }
            assert(fields@.take(i as int) =~= fields@);
            if found_account {
                return deposit;
            }
            let mut k: usize = 0;
            while k < fields.len()
                invariant
                    k <= fields@.len(),
                    value.value == ValueDef::Composite(Composite::Named(*fields)),
                    !is_record_of(fields@, account@),
                    deposit_of(*value, account@) == deposit_in_fields(
                        fields@,
                        account@,
                        k as int,
                    ),
                decreases fields@.len() - k,
            {
                let field = &fields[k];
                proof {
                    lemma_field_is_smaller(*value, *fields, k as int);
                }
                if let Some(d) = find_candidate_deposit(&field.1, account) {
                    return Some(d);
                }
                k = k + 1;
            }
            None
        },
        _ => None,
    }
}

/// An account occurs in 32 numbers exactly where their low bytes are its; in any other
/// composite, named or not, exactly where it occurs in one of its members; and in
/// nothing else.
pub proof fn law_accounts_occur_in_composites<T>(v: Value<T>, account: Seq<u8>)
    ensures
        match v.value {
            ValueDef::Composite(Composite::Unnamed(items)) => if items@.len() == 32 && (forall|i: int|
                0 <= i < 32 ==> as_u128(#[trigger] items@[i]) is Some) {
                holds_account(v, account) <==> account.len() == 32 && forall|i: int|
                    0 <= i < 32 ==> account[i] == as_u128(#[trigger] items@[i])->0 % 256
            } else {
                holds_account(v, account) <==> exists|i: int|
                    0 <= i < items@.len() && holds_account(#[trigger] items@[i], account)
            },
            ValueDef::Composite(Composite::Named(fields)) => holds_account(v, account) <==> exists|
                i: int,
            |
                0 <= i < fields@.len() && holds_account((#[trigger] fields@[i]).1, account),
            _ => !holds_account(v, account),
        },
{
    match v.value {
        ValueDef::Composite(Composite::Unnamed(items)) => {
            let list = v.value->Composite_0->Unnamed_0;
            assert(list == items);
            if items@.len() == 32 && all_numbers(items@) {
                let bytes = low_bytes(items@);
                assert forall|i: int| 0 <= i < 32 implies bytes[i] == as_u128(
                    #[trigger] items@[i],
                )->0 % 256 by {
                    lemma_low_byte(as_u128(items@[i])->0);
                }
                if account.len() == 32 && (forall|i: int|
                    0 <= i < 32 ==> account[i] == as_u128(#[trigger] items@[i])->0 % 256) {
                    assert forall|i: int| 0 <= i < 32 implies bytes[i] == account[i] by {
                        assert(as_u128(items@[i]) is Some);
                    }
                    assert(bytes =~= account);
                }
            }
        },
        ValueDef::Composite(Composite::Named(fields)) => {
            let list = v.value->Composite_0->Named_0;
            assert(list == fields);
            if exists|i: int|
                0 <= i < fields@.len() && holds_account((#[trigger] fields@[i]).1, account) {
                let i = choose|i: int|
                    0 <= i < fields@.len() && holds_account((#[trigger] fields@[i]).1, account);
                lemma_field_holds(v, fields, account, i);
            }
        },
        _ => {},
    }
}

proof fn lemma_last_deposit<T>(fields: Seq<(String, Value<T>)>, k: int)
    requires
        -1 <= k < fields.len(),
        k >= 0 ==> deposit_field(fields[k].0@) && as_u128(fields[k].1) is Some,
        forall|j: int|
            k < j < fields.len() ==> !(deposit_field((#[trigger] fields[j]).0@) && as_u128(
                fields[j].1,
            ) is Some),
    ensures
        last_deposit(fields) == (if k >= 0 {
            as_u128(fields[k].1)
        } else {
            None
        }),
    decreases fields.len(),
{
    if fields.len() > 0 && k < fields.len() - 1 {
        let rest = fields.drop_last();
        assert(fields[fields.len() - 1] == fields.last());
        lemma_last_deposit(rest, k);
    }
}

/// A named composite with a field `who` or `0` in which the account occurs is its
/// record: its deposit is the number in the last field `deposit` or `1` that is one,
/// and there is none where there is no such field.
pub proof fn law_record_of_an_account_has_its_deposit<T>(
    v: Value<T>,
    account: Seq<u8>,
    who: int,
    deposit: int,
)
    requires
        v.value matches ValueDef::Composite(Composite::Named(fields)) && 0 <= who < fields@.len()
            && (fields@[who].0@ == "who"@ || fields@[who].0@ == "0"@) && holds_account(
            fields@[who].1,
            account,
        ) && -1 <= deposit < fields@.len() && (deposit >= 0 ==> (fields@[deposit].0@ == "deposit"@
            || fields@[deposit].0@ == "1"@) && as_u128(fields@[deposit].1) is Some) && (forall|
            j: int,
        |
            deposit < j < fields@.len() ==> !(((#[trigger] fields@[j]).0@ == "deposit"@
                || fields@[j].0@ == "1"@) && as_u128(fields@[j].1) is Some)),
    ensures
        deposit_of(v, account) == (if deposit >= 0 {
            as_u128(v.value->Composite_0->Named_0@[deposit].1)
        } else {
            None
        }),
{
    let fields = v.value->Composite_0->Named_0@;
    assert(who_field(fields[who].0@));
    assert(is_record_of(fields, account));
    lemma_last_deposit(fields, deposit);
}

proof fn lemma_deposit_in_items<T>(items: Seq<Value<T>>, account: Seq<u8>, from: int, k: int)
    requires
        0 <= from <= k <= items.len(),
        forall|j: int| from <= j < k ==> deposit_of(#[trigger] items[j], account) is None,
        k < items.len() ==> deposit_of(items[k], account) is Some,
    ensures
        deposit_in_items(items, account, from) == (if k < items.len() {
            deposit_of(items[k], account)
        } else {
            None
        }),
    decreases k - from,
{
    if from < k {
        assert(deposit_of(items[from], account) is None);
        lemma_deposit_in_items(items, account, from + 1, k);
    }
}

proof fn lemma_deposit_in_fields<T>(
    fields: Seq<(String, Value<T>)>,
    account: Seq<u8>,
    from: int,
    k: int,
)
    requires
        0 <= from <= k <= fields.len(),
        forall|j: int| from <= j < k ==> deposit_of((#[trigger] fields[j]).1, account) is None,
        k < fields.len() ==> deposit_of(fields[k].1, account) is Some,
    ensures
        deposit_in_fields(fields, account, from) == (if k < fields.len() {
            deposit_of(fields[k].1, account)
        } else {
            None
        }),
    decreases k - from,
{
    if from < k {
        assert(deposit_of(fields[from].1, account) is None);
        lemma_deposit_in_fields(fields, account, from + 1, k);
    }
}

/// In any composite that is not the record of the account, its deposit is that of
/// the first member in which one is found; nothing else has one.
pub proof fn law_first_deposit_is_found<T>(v: Value<T>, account: Seq<u8>, k: int)
    ensures
        match v.value {
            ValueDef::Composite(Composite::Unnamed(items)) => 0 <= k <= items@.len() && (forall|
                j: int,
            |
                0 <= j < k ==> deposit_of(#[trigger] items@[j], account) is None) && (k
                < items@.len() ==> deposit_of(items@[k], account) is Some) ==> deposit_of(v, account)
                == (if k < items@.len() {
                deposit_of(items@[k], account)
            } else {
                None
            }),
            ValueDef::Composite(Composite::Named(fields)) => 0 <= k <= fields@.len() && (forall|
                i: int,
            |
                0 <= i < fields@.len() && ((#[trigger] fields@[i]).0@ == "who"@ || fields@[i].0@
                    == "0"@) ==> !holds_account(fields@[i].1, account)) && (forall|j: int|
                0 <= j < k ==> deposit_of((#[trigger] fields@[j]).1, account) is None) && (k
                < fields@.len() ==> deposit_of(fields@[k].1, account) is Some) ==> deposit_of(
                v,
                account,
            ) == (if k < fields@.len() {
                deposit_of(fields@[k].1, account)
            } else {
                None
            }),
            _ => deposit_of(v, account) is None,
        },
{
    match v.value {
        ValueDef::Composite(Composite::Unnamed(items)) => {
            if 0 <= k <= items@.len() && (forall|j: int|
                0 <= j < k ==> deposit_of(#[trigger] items@[j], account) is None) && (k
                < items@.len() ==> deposit_of(items@[k], account) is Some) {
                lemma_deposit_in_items(items@, account, 0, k);
            }
        },
        ValueDef::Composite(Composite::Named(fields)) => {
            if 0 <= k <= fields@.len() && (forall|j: int|
                0 <= j < k ==> deposit_of((#[trigger] fields@[j]).1, account) is None) && (k
                < fields@.len() ==> deposit_of(fields@[k].1, account) is Some) {
                lemma_deposit_in_fields(fields@, account, 0, k);
            }
        },
        _ => {},
    }
}

} // verus!
