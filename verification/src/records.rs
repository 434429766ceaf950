//! How the chains store accounts and candidates, and that every reader takes the
//! same out of what is stored.
use crate::block_tracker::{tracked_status, TrackedCollatorStatus};
use crate::bonds::{first_of, lemma_first_of_meaning};
use crate::calls::is_bytes;
use crate::chain_client::{collator_status, CollatorStatus};
use crate::decode::{
    account_id, account_list, accounts_in, all_numbers, aura_authorities, aura_key,
    candidate_info, candidate_list, candidates_in, field_values, first_field_error, keys_in,
    last_named, lemma_candidate_names, low_bytes, Candidate,
};
use crate::lookup::{
    deposit_in_fields, deposit_in_items, deposit_of, holds_account, is_record_of, last_deposit,
};
use crate::value::{as_u128, lemma_first_field, named_fields, unnamed_items, Value};
use vstd::prelude::*;

verus! {

/// Whether a value is an account as the chains store it: its bytes.
pub open spec fn is_account_value<T>(v: Value<T>, account: Seq<u8>) -> bool {
    account.len() == 32 && is_bytes(v, account)
}

/// Whether a value is a list of accounts as the chains store it.
pub open spec fn lists_accounts<T>(v: Value<T>, accounts: Seq<Seq<u8>>) -> bool {
    match unnamed_items(v) {
        Some(items) => items.len() == accounts.len() && forall|i: int|
            0 <= i < items.len() ==> is_account_value(#[trigger] items[i], accounts[i]),
        None => false,
    }
}

/// Whether a value is a candidate as the chains store it.
pub open spec fn is_candidate_value<T>(v: Value<T>, c: Candidate) -> bool {
    match named_fields(v) {
        Some(fields) => fields.len() == 2 && fields[0].0@ == "who"@ && is_account_value(
            fields[0].1,
            c.who,
        ) && fields[1].0@ == "deposit"@ && as_u128(fields[1].1) == Some(c.deposit),
        None => false,
    }
}

/// Whether a value is a list of candidates as the chains store it.
pub open spec fn lists_candidates<T>(v: Value<T>, candidates: Seq<Candidate>) -> bool {
    match unnamed_items(v) {
        Some(items) => items.len() == candidates.len() && forall|i: int|
            0 <= i < items.len() ==> is_candidate_value(#[trigger] items[i], candidates[i]),
        None => false,
    }
}

/// Whether a value is another one in a wrapper with a single member.
pub open spec fn wraps<T>(v: Value<T>, inner: Value<T>) -> bool {
    unnamed_items(v) == Some(seq![inner])
}

proof fn lemma_number<T>(v: Value<T>, account: Seq<u8>)
    requires
        as_u128(v) is Some,
    ensures
        account_id(&v) is Err,
        aura_key(&v) is Err,
        candidate_info(&v) is Err,
        !holds_account(v, account),
        deposit_of(v, account) is None,
{
}

proof fn lemma_numbers_are_no_accounts<T>(items: Seq<Value<T>>)
    requires
        all_numbers(items),
    ensures
        accounts_in(items).len() == 0,
        keys_in(items).len() == 0,
        candidates_in(items).len() == 0,
    decreases items.len(),
{
    if items.len() > 0 {
        let rest = items.drop_last();
        assert forall|i: int| 0 <= i < rest.len() implies as_u128(#[trigger] rest[i]) is Some by {
            assert(rest[i] == items[i]);
        }
        lemma_numbers_are_no_accounts(rest);
        assert(as_u128(items[items.len() - 1]) is Some);
        lemma_number(items.last(), Seq::empty());
    }
}

proof fn lemma_numbers_hold_no_deposit<T>(items: Seq<Value<T>>, account: Seq<u8>, from: int)
    requires
        all_numbers(items),
        0 <= from <= items.len(),
    ensures
        deposit_in_items(items, account, from) is None,
    decreases items.len() - from,
{
    if from < items.len() {
        lemma_number(items[from], account);
        lemma_numbers_hold_no_deposit(items, account, from + 1);
    }
}

/// An account that is stored is read back, by every reader.
pub proof fn law_account_reads_back<T>(v: Value<T>, account: Seq<u8>, other: Seq<u8>)
    requires
        is_account_value(v, account),
    ensures
        account_id(&v) == Ok::<Seq<u8>, crate::decode::ParseError<'_, T>>(account),
        aura_key(&v) == Ok::<Seq<u8>, crate::decode::ParseError<'_, T>>(account),
        holds_account(v, other) <==> other == account,
{
    let items = unnamed_items(v)->0;
    assert(all_numbers(items));
    assert(low_bytes(items) =~= account);
}

proof fn lemma_account_lists_nothing<T>(v: Value<T>, account: Seq<u8>, other: Seq<u8>)
    requires
        is_account_value(v, account),
    ensures
        account_list(v).len() == 0,
        aura_authorities(v).len() == 0,
        candidate_info(&v) is Err,
        deposit_of(v, other) is None,
{
    let items = unnamed_items(v)->0;
    assert(all_numbers(items));
    lemma_numbers_are_no_accounts(items);
    lemma_numbers_hold_no_deposit(items, other, 0);
}

proof fn lemma_accounts_in<T>(items: Seq<Value<T>>, accounts: Seq<Seq<u8>>)
    requires
        items.len() == accounts.len(),
        forall|i: int|
            0 <= i < items.len() ==> is_account_value(#[trigger] items[i], accounts[i]),
    ensures
        accounts_in(items) == accounts,
        keys_in(items) == accounts,
    decreases items.len(),
{
    if items.len() > 0 {
        let n = items.len() - 1;
        let rest = items.drop_last();
        let fewer = accounts.drop_last();
        assert forall|i: int| 0 <= i < rest.len() implies is_account_value(
            #[trigger] rest[i],
            fewer[i],
        ) by {
            assert(rest[i] == items[i]);
        }
        lemma_accounts_in(rest, fewer);
        assert(is_account_value(items[n], accounts[n]));
        law_account_reads_back(items[n], accounts[n], accounts[n]);
        assert(items.last() == items[n]);
        assert(fewer.push(accounts[n]) =~= accounts);
    } else {
        assert(accounts =~= Seq::empty());
    }
}

/// A list of accounts that is stored is read back, bare or in a wrapper.
pub proof fn law_account_list_reads_back<T>(
    v: Value<T>,
    wrapper: Value<T>,
    accounts: Seq<Seq<u8>>,
)
    requires
        lists_accounts(v, accounts),
        wraps(wrapper, v),
    ensures
        account_list(v) == accounts,
        account_list(wrapper) == accounts,
        aura_authorities(v) == accounts,
        aura_authorities(wrapper) == accounts,
{
    let items = unnamed_items(v)->0;
    lemma_accounts_in(items, accounts);
    if items.len() == 1 {
        assert(is_account_value(items[0], accounts[0]));
        lemma_account_lists_nothing(items[0], accounts[0], accounts[0]);
    }
    let outer = unnamed_items(wrapper)->0;
    assert(outer[0] == v);
    assert(outer.drop_last() =~= Seq::empty());
    if accounts.len() == 0 {
        assert(outer.last() == v);
        assert(account_id(&v) is Err);
        assert(aura_key(&v) is Err);
        assert(accounts_in(outer.drop_last()).len() == 0);
        assert(keys_in(outer.drop_last()).len() == 0);
        assert(accounts_in(outer) =~= accounts);
        assert(keys_in(outer) =~= accounts);
    }
}

/// The accounts that a stored list holds, bare or in a wrapper, are those that it
/// lists.
pub proof fn law_account_list_is_searched<T>(
    v: Value<T>,
    wrapper: Value<T>,
    accounts: Seq<Seq<u8>>,
    account: Seq<u8>,
)
    requires
        lists_accounts(v, accounts),
        wraps(wrapper, v),
    ensures
        holds_account(v, account) <==> accounts.contains(account),
        holds_account(wrapper, account) <==> accounts.contains(account),
{
    let items = unnamed_items(v)->0;
    if items.len() == 32 {
        assert(is_account_value(items[0], accounts[0]));
        assert(as_u128(items[0]) is None);
        assert(!all_numbers(items));
    }
    assert forall|i: int| 0 <= i < items.len() implies (holds_account(#[trigger] items[i], account)
        <==> account == accounts[i]) by {
        law_account_reads_back(items[i], accounts[i], account);
    }
    if accounts.contains(account) {
        let i = choose|i: int| 0 <= i < accounts.len() && accounts[i] == account;
        assert(holds_account(items[i], account));
    }
    let outer = unnamed_items(wrapper)->0;
    assert(outer[0] == v);
    let list = wrapper.value->Composite_0->Unnamed_0;
    assert(list@ == outer);
    if holds_account(v, account) {
        assert(holds_account(list@[0], account));
    }
    if holds_account(wrapper, account) {
        let i = choose|i: int| 0 <= i < list@.len() && holds_account(#[trigger] list@[i], account);
        assert(list@[i] == v);
    }
}

proof fn lemma_candidate<T>(v: Value<T>, c: Candidate, other: Seq<u8>)
    requires
        is_candidate_value(v, c),
    ensures
        candidate_info(&v) == Ok::<Candidate, crate::decode::ParseError<'_, T>>(c),
        candidate_list(v).len() == 0,
        deposit_of(v, other) == if other == c.who {
            Some(c.deposit)
        } else {
            None
        },
{
    lemma_candidate_names();
    let fields = named_fields(v)->0;
    law_account_reads_back(fields[0].1, c.who, other);
    lemma_account_lists_nothing(fields[0].1, c.who, other);
    lemma_number(fields[1].1, other);
    reveal_with_fuel(first_field_error, 3);
    reveal_with_fuel(last_named, 3);
    assert(fields.last() == fields[1]);
    assert(fields.drop_last().last() == fields[0]);
    let zero = |n: Seq<char>| n == "0"@;
    lemma_first_field(fields, zero, 2);
    reveal_with_fuel(candidates_in, 3);
    let values = field_values(fields);
    assert(values.last() == fields[1].1);
    assert(values.drop_last().last() == fields[0].1);
    reveal_with_fuel(last_deposit, 3);
    reveal_with_fuel(deposit_in_fields, 3);
    if other == c.who {
        assert(holds_account(fields[0].1, other));
        assert(is_record_of(fields, other));
    } else {
        assert(!is_record_of(fields, other)) by {
            if is_record_of(fields, other) {
                let i = choose|i: int|
                    0 <= i < fields.len() && crate::lookup::who_field((#[trigger] fields[i]).0@)
                        && holds_account(fields[i].1, other);
                assert(i == 0 || i == 1);
            }
        }
        assert(deposit_in_fields(fields, other, 2) is None);
        assert(deposit_in_fields(fields, other, 1) is None);
        assert(deposit_in_fields(fields, other, 0) is None);
    }
}

proof fn lemma_candidates_in<T>(items: Seq<Value<T>>, candidates: Seq<Candidate>)
    requires
        items.len() == candidates.len(),
        forall|i: int|
            0 <= i < items.len() ==> is_candidate_value(#[trigger] items[i], candidates[i]),
    ensures
        candidates_in(items) == candidates,
    decreases items.len(),
{
    if items.len() > 0 {
        let n = items.len() - 1;
        let rest = items.drop_last();
        let fewer = candidates.drop_last();
        assert forall|i: int| 0 <= i < rest.len() implies is_candidate_value(
            #[trigger] rest[i],
            fewer[i],
        ) by {
            assert(rest[i] == items[i]);
        }
        lemma_candidates_in(rest, fewer);
        assert(is_candidate_value(items[n], candidates[n]));
        lemma_candidate(items[n], candidates[n], Seq::empty());
        assert(items.last() == items[n]);
        assert(fewer.push(candidates[n]) =~= candidates);
    } else {
        assert(candidates =~= Seq::empty());
    }
}

/// A list of candidates that is stored is read back, bare or in a wrapper.
pub proof fn law_candidate_list_reads_back<T>(
    v: Value<T>,
    wrapper: Value<T>,
    candidates: Seq<Candidate>,
)
    requires
        lists_candidates(v, candidates),
        wraps(wrapper, v),
    ensures
        candidate_list(v) == candidates,
        candidate_list(wrapper) == candidates,
{
    let items = unnamed_items(v)->0;
    lemma_candidates_in(items, candidates);
    if items.len() == 1 {
        assert(is_candidate_value(items[0], candidates[0]));
        lemma_candidate(items[0], candidates[0], Seq::empty());
    }
    let outer = unnamed_items(wrapper)->0;
    assert(outer[0] == v);
    let list = wrapper.value->Composite_0->Unnamed_0;
    assert(list@[0] == v);
    assert(candidate_list(list@[0]) == candidates);
    if candidates.len() == 0 {
        assert(outer.drop_last() =~= Seq::empty());
        assert(outer.last() == v);
        assert(candidates_in(outer.drop_last()).len() == 0);
        assert(candidates_in(outer) =~= candidates);
    }
}

proof fn lemma_deposit_in_list<T>(
    items: Seq<Value<T>>,
    candidates: Seq<Candidate>,
    account: Seq<u8>,
    from: int,
)
    requires
        items.len() == candidates.len(),
        forall|i: int|
            0 <= i < items.len() ==> is_candidate_value(#[trigger] items[i], candidates[i]),
        0 <= from <= first_of(candidates, account),
    ensures
        deposit_in_items(items, account, from) == if first_of(candidates, account)
            < candidates.len() {
            Some(candidates[first_of(candidates, account)].deposit)
        } else {
            None
        },
    decreases items.len() - from,
{
    lemma_first_of_meaning(candidates, account);
    if from < items.len() {
        assert(is_candidate_value(items[from], candidates[from]));
        lemma_candidate(items[from], candidates[from], account);
        if from < first_of(candidates, account) {
            lemma_deposit_in_list(items, candidates, account, from + 1);
        }
    }
}

/// The deposit that is found for an account in a stored list, bare or in a
/// wrapper, is that of the first candidate that is the account.
pub proof fn law_candidate_list_is_searched<T>(
    v: Value<T>,
    wrapper: Value<T>,
    candidates: Seq<Candidate>,
    account: Seq<u8>,
)
    requires
        lists_candidates(v, candidates),
        wraps(wrapper, v),
    ensures
        ({
            let k = first_of(candidates, account);
            let deposit = if k < candidates.len() {
                Some(candidates[k].deposit)
            } else {
                None
            };
            deposit_of(v, account) == deposit && deposit_of(wrapper, account) == deposit
        }),
{
    lemma_first_of_meaning(candidates, account);
    let items = unnamed_items(v)->0;
    lemma_deposit_in_list(items, candidates, account, 0);
    let outer = unnamed_items(wrapper)->0;
    assert(outer[0] == v);
    assert(deposit_in_items(outer, account, 1) is None);
}

/// The tracker's status of the same name.
pub open spec fn as_tracked(status: CollatorStatus) -> TrackedCollatorStatus {
    match status {
        CollatorStatus::Invulnerable => TrackedCollatorStatus::Invulnerable,
        CollatorStatus::Candidate { deposit } => TrackedCollatorStatus::Candidate { deposit },
        CollatorStatus::NotCollator => TrackedCollatorStatus::NotCollator,
    }
}

/// The status that the tracker sees in what a chain stores is the one that the
/// monitor acts on.
pub proof fn law_tracker_and_monitor_agree<T>(
    invulnerables: Value<T>,
    invulnerables_wrapper: Value<T>,
    candidates: Value<T>,
    candidates_wrapper: Value<T>,
    accounts: Seq<Seq<u8>>,
    listed: Seq<Candidate>,
    account: Seq<u8>,
)
    requires
        lists_accounts(invulnerables, accounts),
        wraps(invulnerables_wrapper, invulnerables),
        lists_candidates(candidates, listed),
        wraps(candidates_wrapper, candidates),
    ensures
        tracked_status(Some(invulnerables), Some(candidates), account) == as_tracked(
            collator_status(account, account_list(invulnerables), candidate_list(candidates)),
        ),
        tracked_status(Some(invulnerables_wrapper), Some(candidates_wrapper), account)
            == as_tracked(
            collator_status(
                account,
                account_list(invulnerables_wrapper),
                candidate_list(candidates_wrapper),
            ),
        ),
{
    law_account_list_reads_back(invulnerables, invulnerables_wrapper, accounts);
    law_account_list_is_searched(invulnerables, invulnerables_wrapper, accounts, account);
    law_candidate_list_reads_back(candidates, candidates_wrapper, listed);
    law_candidate_list_is_searched(candidates, candidates_wrapper, listed, account);
}

} // verus!
