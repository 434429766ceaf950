//! Who authored a block, when, and the search for a collator's last block.
use crate::account::AccountId32;
use crate::bytes::{lemma_little_endian_bound, lemma_room_grows, little_endian, room};
use crate::decode::{account_views, aura_authorities, parse_aura_authorities};
use crate::text::same_text;
use crate::value::{
    as_u128, field_at, law_first_field_of_a_name_is_selected, Composite, Primitive, Value, ValueDef,
};
use vstd::prelude::*;

verus! {

/// A log of a block's header.
#[derive(Debug)]
pub enum DigestItem {
    /// A message of a consensus engine to the runtime
    PreRuntime([u8; 4], Vec<u8>),
    /// Any other log
    Other,
}

/// Whether an engine is Aura.
pub open spec fn is_aura(engine: [u8; 4]) -> bool {
    engine@ == seq![0x61u8, 0x75u8, 0x72u8, 0x61u8]
}

/// The slot that a log gives: the first eight bytes of an Aura message.
pub open spec fn log_slot(log: DigestItem) -> Option<nat> {
    match log {
        DigestItem::PreRuntime(engine, data) => if is_aura(engine) && data@.len() >= 8 {
            Some(little_endian(data@.take(8)))
        } else {
            None
        },
        DigestItem::Other => None,
    }
}

/// The slot of a block: that of the first log that gives one.
pub open spec fn block_slot(logs: Seq<DigestItem>) -> Option<nat>
    decreases logs.len(),
{
    if logs.len() == 0 {
        None
    } else {
        match log_slot(logs[0]) {
            Some(slot) => Some(slot),
            None => block_slot(logs.drop_first()),
        }
    }
}

/// Which of `count` authorities a slot is given to.
pub open spec fn author_index(slot: u64, count: nat) -> int
    recommends
        count > 0,
{
    slot as usize as int % count as int
}

/// Which of `count` authorities a slot is given to.
pub fn slot_author(slot: u64, count: usize) -> (r: usize)
    requires
        count > 0,
    ensures
        r == author_index(slot, count as nat),
        r < count,
{
    (slot as usize) % count
}

/// The slot that eight bytes or more give.
pub fn read_slot(data: &Vec<u8>) -> (r: u64)
    requires
        data@.len() >= 8,
    ensures
        r as nat == little_endian(data@.take(8)),
{
    let ghost eight = data@.take(8);
    let mut i: usize = 8;
    let mut acc: u64 = 0;
    while i > 0
        invariant
            i <= 8,
            data@.len() >= 8,
            eight == data@.take(8),
            acc as nat == little_endian(eight.skip(i as int)),
        decreases i,
    {
        let ghost rest = eight.skip(i as int);
        i = i - 1;
        proof {
            let next = eight.skip(i as int);
            assert(next.drop_first() =~= rest);
            assert(next[0] == data@[i as int]);
            lemma_little_endian_bound(next);
            lemma_room_grows(next.len(), 8);
            reveal_with_fuel(room, 9);
            assert(room(8) == 0x1_0000_0000_0000_0000nat);
        }
        acc = data[i] as u64 + 256 * acc;
    }
    assert(eight.skip(0) =~= eight);
    acc
}

/// The slot of a block, from its header's logs.
pub fn find_slot(logs: &Vec<DigestItem>) -> (r: Option<u64>)
    ensures
        match r {
            Some(slot) => block_slot(logs@) == Some(slot as nat),
            None => block_slot(logs@) is None,
        },
{
    let mut i: usize = 0;
    assert(logs@.skip(0) =~= logs@);
    while i < logs.len()
        invariant
            i <= logs@.len(),
            block_slot(logs@) == block_slot(logs@.skip(i as int)),
        decreases logs@.len() - i,
    {
        proof {
            assert(logs@.skip(i as int).drop_first() =~= logs@.skip(i + 1));
            assert(logs@.skip(i as int)[0] == logs@[i as int]);
        }
        if let DigestItem::PreRuntime(engine, data) = &logs[i] {
            let aura = engine[0] == 0x61 && engine[1] == 0x75 && engine[2] == 0x72 && engine[3]
                == 0x61;
            proof {
                if aura {
                    assert(engine@ =~= seq![0x61u8, 0x75u8, 0x72u8, 0x61u8]);
                }
            }
            if aura && data.len() >= 8 {
                return Some(read_slot(data));
            }
        }
        i = i + 1;
    }
    None
}

/// The authority that a slot is given to: none where no authority is known.
pub open spec fn author_of_slot(authorities: Seq<Seq<u8>>, slot: Option<nat>) -> Option<Seq<u8>> {
    if authorities.len() == 0 || slot is None {
        None
    } else {
        Some(authorities[author_index(slot->0 as u64, authorities.len())])
    }
}

/// The author of a block, from the Aura authorities' storage entry and the logs
/// of the block's header.
pub fn get_block_author<T>(authorities: Option<&Value<T>>, logs: &Vec<DigestItem>) -> (r: Option<
    AccountId32,
>)
    ensures
        match authorities {
            Some(v) => match r {
                Some(author) => author_of_slot(aura_authorities(*v), block_slot(logs@)) == Some(
                    author@,
                ),
                None => author_of_slot(aura_authorities(*v), block_slot(logs@)) is None,
            },
            None => r is None,
        },
{
    match authorities {
        Some(value) => {
            let list = parse_aura_authorities(value);
            if list.len() == 0 {
                return None;
            }
            match find_slot(logs) {
                Some(slot) => {
                    let at = slot_author(slot, list.len());
                    let author: AccountId32 = list[at];
                    proof {
                        assert(account_views(list@)[at as int] == author@);
                    }
                    Some(author)
                },
                None => None,
            }
        },
        None => None,
    }
}

/// The Aura key whose turn a slot is, from what is stored of the slot and of the
/// keys: none where either is missing or there is no key.
pub fn scheduled_key(slot: Option<u64>, keys: Option<&Vec<AccountId32>>) -> (r: Option<AccountId32>)
    ensures
        match (slot, keys) {
            (Some(s), Some(k)) => if k@.len() == 0 {
                r is None
            } else {
                r == Some(k@[author_index(s, k@.len())])
            },
            _ => r is None,
        },
{
    match (slot, keys) {
        (Some(s), Some(k)) => {
            if k.len() == 0 {
                None
            } else {
                Some(k[slot_author(s, k.len())])
            }
        },
        _ => None,
    }
}

/// A call that a block holds, with the failures of decoding its parts.
#[derive(Debug)]
pub struct Extrinsic<T, E> {
    pub pallet: Result<String, E>,
    pub call: Result<String, E>,
    pub fields: Result<Composite<T>, E>,
}

/// Whether a call sets the time of its block.
pub open spec fn sets_time(pallet: Seq<char>, call: Seq<char>) -> bool {
    pallet == "Timestamp"@ && call == "set"@
}

/// Whether a call sets the time of its block.
pub fn is_time_call(pallet: &str, call: &str) -> (r: bool)
    ensures
        r == sets_time(pallet@, call@),
{
    same_text(pallet, "Timestamp") && same_text(call, "set")
}

/// The number that the field `now` holds.
pub open spec fn now_field<T>(fields: Composite<T>) -> Option<u128> {
    match field_at(fields, "now"@) {
        Some(v) => as_u128(v),
        None => None,
    }
}

/// The time of a block in milliseconds: what the first call that sets it gives as
/// a number, or zero. A part that could not be decoded fails it, unless the time
/// was found before.
pub open spec fn block_time<'a, T, E>(calls: Seq<Extrinsic<T, E>>) -> Result<u64, E>
    decreases calls.len(),
{
    if calls.len() == 0 {
        Ok(0)
    } else {
        match (calls[0].pallet, calls[0].call) {
            (Err(e), _) => Err(e),
            (Ok(_), Err(e)) => Err(e),
            (Ok(pallet), Ok(call)) => if sets_time(pallet@, call@) {
                match calls[0].fields {
                    Err(e) => Err(e),
                    Ok(fields) => match now_field(fields) {
                        Some(ts) => Ok(ts as u64),
                        None => block_time(calls.drop_first()),
                    },
                }
            } else {
                block_time(calls.drop_first())
            },
        }
    }
}

/// The time of a block in milliseconds, from the calls that it holds.
pub fn get_block_timestamp<T, E>(calls: &Vec<Extrinsic<T, E>>) -> (r: Result<u64, &E>)
    ensures
        match r {
            Ok(ts) => block_time(calls@) == Ok::<u64, E>(ts),
            Err(e) => block_time(calls@) == Err::<u64, E>(*e),
        },
{
    let mut i: usize = 0;
    assert(calls@.skip(0) =~= calls@);
    while i < calls.len()
        invariant
            i <= calls@.len(),
            block_time(calls@) == block_time(calls@.skip(i as int)),
        decreases calls@.len() - i,
    {
        let item = &calls[i];
        proof {
            assert(calls@.skip(i as int).drop_first() =~= calls@.skip(i + 1));
            assert(calls@.skip(i as int)[0] == calls@[i as int]);
        }
        match (&item.pallet, &item.call) {
            (Err(e), _) => {
                return Err(e);
            },
            (Ok(_), Err(e)) => {
                return Err(e);
            },
            (Ok(pallet), Ok(call)) => {
                if is_time_call(pallet.as_str(), call.as_str()) {
                    match &item.fields {
                        Err(e) => {
                            return Err(e);
                        },
                        Ok(fields) => {
                            if let Some(now) = fields.at("now") {
                                if let Some(ts) = now.as_u128() {
                                    return Ok(ts as u64);
                                }
                            }
                        },
                    }
                }
            },
        }
        i = i + 1;
    }
    Ok(0)
}

/// How many blocks a search looks at.
pub const SEARCH_LIMIT: u32 = 1000;

/// What a block that a search meets shows: its author, where one is known, and
/// its number.
pub struct BlockFacts {
    pub author: Option<Seq<u8>>,
    pub number: u32,
}

/// What a search does after a block.
#[derive(Debug, Clone, Copy, PartialEq, Eq, Structural)]
pub enum SearchStep {
    /// The block is the collator's
    Found,
    /// Look at the block's parent
    Parent,
    /// Give up: the first block of the chain, or enough blocks
    GiveUp,
}

/// A search for the last block of a collator, from the newest block backwards.
pub struct AuthorSearch {
    account: AccountId32,
    checked: u32,
}

impl View for AuthorSearch {
    type V = (Seq<u8>, u32);

    closed spec fn view(&self) -> (Seq<u8>, u32) {
        (self.account@, self.checked)
    }
}

/// What a search for an account does at a block, after `checked` other blocks.
pub open spec fn search_step(account: Seq<u8>, checked: u32, block: BlockFacts) -> SearchStep {
    if block.author == Some(account) {
        SearchStep::Found
    } else if block.number == 0 || checked + 1 >= SEARCH_LIMIT {
        SearchStep::GiveUp
    } else {
        SearchStep::Parent
    }
}

/// Which of the blocks, newest first, a search ends at as the collator's.
pub open spec fn search_result(account: Seq<u8>, checked: u32, blocks: Seq<BlockFacts>) -> Option<
    int,
>
    decreases blocks.len(),
{
    if blocks.len() == 0 {
        None
    } else {
        match search_step(account, checked, blocks[0]) {
            SearchStep::Found => Some(0),
            SearchStep::GiveUp => None,
            SearchStep::Parent => match search_result(
                account,
                (checked + 1) as u32,
                blocks.drop_first(),
            ) {
                Some(i) => Some(i + 1),
                None => None,
            },
        }
    }
}

impl AuthorSearch {
    #[verifier::type_invariant]
    spec fn within_the_limit(self) -> bool {
        self.checked < SEARCH_LIMIT
    }

    /// A search that has looked at no block.
    pub fn new(account: AccountId32) -> (r: AuthorSearch)
        ensures
            r@ == (account@, 0u32),
    {
        AuthorSearch { account, checked: 0 }
    }

    /// Look at a block.
    pub fn visit(&mut self, author: Option<&AccountId32>, number: u32) -> (r: SearchStep)
        ensures
            ({
                let block = BlockFacts {
                    author: match author {
                        Some(a) => Some(a@),
                        None => None,
                    },
                    number,
                };
                r == search_step(old(self)@.0, old(self)@.1, block)
            }),
            final(self)@.0 == old(self)@.0,
            r is Parent ==> final(self)@.1 == old(self)@.1 + 1,
            !(r is Parent) ==> final(self)@.1 == old(self)@.1,
    {
        proof {
            use_type_invariant(&*self);
        }
        if let Some(a) = author {
            if a.same(&self.account) {
                return SearchStep::Found;
            }
        }
        if number == 0 || self.checked + 1 >= SEARCH_LIMIT {
            return SearchStep::GiveUp;
        }
        self.checked = self.checked + 1;
        SearchStep::Parent
    }
}

/// A search that starts afresh ends at the newest block of the collator among the
/// first thousand, down to the first block of the chain; it finds none exactly
/// where there is none.
pub proof fn law_search_finds_the_newest_block(account: Seq<u8>, blocks: Seq<BlockFacts>)
    requires
        forall|i: int|
            0 <= i < blocks.len() ==> ((#[trigger] blocks[i]).number == 0 <==> i == blocks.len()
                - 1),
    ensures
        match search_result(account, 0, blocks) {
            Some(k) => 0 <= k < blocks.len() && k < 1000 && blocks[k].author == Some(account)
                && forall|i: int| 0 <= i < k ==> (#[trigger] blocks[i]).author != Some(account),
            None => forall|i: int|
                0 <= i < blocks.len() && i < 1000 ==> (#[trigger] blocks[i]).author != Some(
                    account,
                ),
        },
{
    lemma_search(account, 0, blocks);
}

proof fn lemma_search(account: Seq<u8>, checked: u32, blocks: Seq<BlockFacts>)
    requires
        checked < SEARCH_LIMIT,
        forall|i: int|
            0 <= i < blocks.len() ==> ((#[trigger] blocks[i]).number == 0 <==> i == blocks.len()
                - 1),
    ensures
        match search_result(account, checked, blocks) {
            Some(k) => 0 <= k < blocks.len() && k + checked < SEARCH_LIMIT && blocks[k].author
                == Some(account) && forall|i: int|
                0 <= i < k ==> (#[trigger] blocks[i]).author != Some(account),
            None => forall|i: int|
                0 <= i < blocks.len() && i + checked < SEARCH_LIMIT ==> (
                #[trigger] blocks[i]).author != Some(account),
        },
    decreases blocks.len(),
{
    if blocks.len() > 0 && search_step(account, checked, blocks[0]) is Parent {
        let rest = blocks.drop_first();
        assert forall|i: int| 0 <= i < rest.len() implies ((#[trigger] rest[i]).number == 0 <==> i
            == rest.len() - 1) by {
            assert(rest[i] == blocks[i + 1]);
        }
        lemma_search(account, (checked + 1) as u32, rest);
        assert forall|i: int| 0 < i < blocks.len() implies #[trigger] blocks[i] == rest[i - 1] by {}
    }
}

/// Whether so many milliseconds lie between a block and the newest one; nothing is
/// told where no block was found.
pub open spec fn is_time_behind(found: Option<u64>, newest: u64, r: Option<u64>) -> bool {
    match r {
        Some(ms) => found is Some && (found->0 + ms == newest || (found->0 > newest && ms == 0)),
        None => found is None,
    }
}

/// The milliseconds from a block to the newest one; none where no block was found.
pub fn get_last_authored_block_time(found: Option<u64>, newest: u64) -> (r: Option<u64>)
    ensures
        r == match found {
            Some(ts) => Some(
                if newest >= ts {
                    (newest - ts) as u64
                } else {
                    0u64
                },
            ),
            None => None,
        },
        is_time_behind(found, newest, r),
{
    match found {
        Some(ts) => Some(newest.saturating_sub(ts)),
        None => None,
    }
}

/// The authorities take turns over all slots: a slot is a multiple of their number
/// and the index of its author, and the next slot is the next author's, the first
/// one's after the last. A slot is taken as far as an index of the machine goes.
pub proof fn law_authors_take_turns(slot: u64, count: nat)
    requires
        count > 0,
        slot <= usize::MAX,
    ensures
        0 <= author_index(slot, count) < count,
        exists|rounds: int| slot == #[trigger] (rounds * count) + author_index(slot, count),
        slot < usize::MAX && slot < u64::MAX ==> author_index((slot + 1) as u64, count) == (
        if author_index(slot, count) + 1 == count {
            0
        } else {
            author_index(slot, count) + 1
        }),
{
    let n = count as int;
    let s = slot as int;
    vstd::arithmetic::div_mod::lemma_fundamental_div_mod(s, n);
    vstd::arithmetic::div_mod::lemma_mod_bound(s, n);
    assert(n * (s / n) == (s / n) * n) by (nonlinear_arith);
    assert(slot == (s / n) * n + author_index(slot, count));
    if slot < usize::MAX && slot < u64::MAX {
        let i = author_index(slot, count);
        if i + 1 == n {
            assert(s + 1 == (s / n + 1) * n + 0) by (nonlinear_arith)
                requires
                    s == (s / n) * n + i,
                    i + 1 == n,
            ;
            vstd::arithmetic::div_mod::lemma_fundamental_div_mod_converse_mod(
                s + 1,
                n,
                s / n + 1,
                0,
            );
        } else {
            vstd::arithmetic::div_mod::lemma_fundamental_div_mod_converse_mod(
                s + 1,
                n,
                s / n,
                i + 1,
            );
        }
    }
}

/// The slot of a block is in the first log that is an Aura message of eight bytes
/// or more: the number that its first eight bytes are, the lowest first.
#[verifier::rlimit(50)]
pub proof fn law_slot_is_in_the_first_aura_log(logs: Seq<DigestItem>)
    ensures
        match block_slot(logs) {
            Some(slot) => exists|k: int|
                0 <= k < logs.len() && (match #[trigger] logs[k] {
                    DigestItem::PreRuntime(engine, data) => engine@ == seq![97u8, 117, 114, 97]
                        && data@.len() >= 8 && slot == data@[0] + 0x100 * data@[1] + 0x1_0000
                        * data@[2] + 0x100_0000 * data@[3] + 0x1_0000_0000 * data@[4]
                        + 0x100_0000_0000 * data@[5] + 0x1_0000_0000_0000 * data@[6]
                        + 0x100_0000_0000_0000 * data@[7],
                    DigestItem::Other => false,
                }) && forall|j: int|
                    0 <= j < k ==> (match #[trigger] logs[j] {
                        DigestItem::PreRuntime(engine, data) => engine@ != seq![97u8, 117, 114, 97]
                            || data@.len() < 8,
                        DigestItem::Other => true,
                    }),
            None => forall|j: int|
                0 <= j < logs.len() ==> (match #[trigger] logs[j] {
                    DigestItem::PreRuntime(engine, data) => engine@ != seq![97u8, 117, 114, 97]
                        || data@.len() < 8,
                    DigestItem::Other => true,
                }),
        },
    decreases logs.len(),
{
    if logs.len() > 0 {
        let rest = logs.drop_first();
        assert(forall|j: int| 0 < j < logs.len() ==> #[trigger] logs[j] == rest[j - 1]);
        match log_slot(logs[0]) {
            Some(slot) => {
                let data = logs[0]->PreRuntime_1@;
                lemma_eight_bytes(data.take(8));
                assert(logs[0] == logs[0]);
            },
            None => {
                law_slot_is_in_the_first_aura_log(rest);
                if let Some(slot) = block_slot(rest) {
                    let k = choose|k: int|
                        0 <= k < rest.len() && (match #[trigger] rest[k] {
                            DigestItem::PreRuntime(engine, data) => engine@ == seq![
                                97u8,
                                117,
                                114,
                                97,
                            ] && data@.len() >= 8 && slot == data@[0] + 0x100 * data@[1] + 0x1_0000
                                * data@[2] + 0x100_0000 * data@[3] + 0x1_0000_0000 * data@[4]
                                + 0x100_0000_0000 * data@[5] + 0x1_0000_0000_0000 * data@[6]
                                + 0x100_0000_0000_0000 * data@[7],
                            DigestItem::Other => false,
                        }) && forall|j: int|
                            0 <= j < k ==> (match #[trigger] rest[j] {
                                DigestItem::PreRuntime(engine, data) => engine@ != seq![
                                    97u8,
                                    117,
                                    114,
                                    97,
                                ] || data@.len() < 8,
                                DigestItem::Other => true,
                            });
                    assert(logs[k + 1] == rest[k]);
                }
            },
        }
    }
}

proof fn lemma_eight_bytes(b: Seq<u8>)
    requires
        b.len() == 8,
    ensures
        little_endian(b) == b[0] + 0x100 * b[1] + 0x1_0000 * b[2] + 0x100_0000 * b[3] + 0x1_0000_0000
            * b[4] + 0x100_0000_0000 * b[5] + 0x1_0000_0000_0000 * b[6] + 0x100_0000_0000_0000
            * b[7],
{
    reveal_with_fuel(little_endian, 9);
    let c = b.drop_first();
    let d = c.drop_first();
    let e = d.drop_first();
    let f = e.drop_first();
    let g = f.drop_first();
    let h = g.drop_first();
    let i = h.drop_first();
    let j = i.drop_first();
    assert(i[0] == b[7] && h[0] == b[6] && g[0] == b[5] && f[0] == b[4] && e[0] == b[3] && d[0]
        == b[2] && c[0] == b[1]);
    assert(j.len() == 0);
}

/// A block with a slot is authored by the authority whose turn the slot is; one has
/// no author exactly where there is no slot or no authority.
pub proof fn law_slot_gives_the_author(authorities: Seq<Seq<u8>>, slot: Option<nat>)
    requires
        slot is Some ==> slot->0 <= usize::MAX && slot->0 <= u64::MAX,
    ensures
        match author_of_slot(authorities, slot) {
            Some(author) => slot is Some && exists|turn: int, rounds: int|
                0 <= turn < authorities.len() && slot->0 == #[trigger] (rounds * authorities.len())
                    + turn && author == #[trigger] authorities[turn],
            None => slot is None || authorities.len() == 0,
        },
{
    if slot is Some && authorities.len() > 0 {
        let s = slot->0 as u64;
        law_authors_take_turns(s, authorities.len());
        let turn = author_index(s, authorities.len());
        let rounds = choose|rounds: int| s == #[trigger] (rounds * authorities.len()) + turn;
        assert(authorities[turn] == authorities[turn]);
        assert(slot->0 == rounds * authorities.len() + turn);
    }
}

/// Calls that were decoded and do not set the time do not matter to the time of a
/// block; without any other call it is zero.
pub proof fn law_other_calls_do_not_matter<T, E>(
    others: Seq<Extrinsic<T, E>>,
    calls: Seq<Extrinsic<T, E>>,
)
    requires
        forall|i: int|
            0 <= i < others.len() ==> (#[trigger] others[i]).pallet is Ok && others[i].call is Ok
                && !(others[i].pallet->Ok_0@ == "Timestamp"@ && others[i].call->Ok_0@ == "set"@),
    ensures
        block_time(others + calls) == block_time(calls),
        calls.len() == 0 ==> block_time(calls) == Ok::<u64, E>(0),
    decreases others.len(),
{
    if others.len() > 0 {
        let rest = others.drop_first();
        assert forall|i: int| 0 <= i < rest.len() implies (#[trigger] rest[i]).pallet is Ok
            && rest[i].call is Ok && !(rest[i].pallet->Ok_0@ == "Timestamp"@ && rest[i].call->Ok_0@
            == "set"@) by {
            assert(rest[i] == others[i + 1]);
        }
        law_other_calls_do_not_matter(rest, calls);
        assert((others + calls).drop_first() =~= rest + calls);
        assert((others + calls)[0] == others[0]);
        assert(others[0].pallet is Ok);
    } else {
        assert(others + calls =~= calls);
    }
}

/// The time of a block is what its first call gives that sets the time: the number
/// in the first field `now`, as far as 64 bits go. A call without such a number does
/// not matter, and a part that could not be decoded is the error, whatever follows.
pub proof fn law_first_time_call_counts<T, E>(calls: Seq<Extrinsic<T, E>>)
    requires
        calls.len() > 0,
    ensures
        ({
            let first = calls[0];
            let r = block_time(calls);
            &&& first.pallet matches Err(e) ==> r == Err::<u64, E>(e)
            &&& (first.pallet is Ok && first.call is Err) ==> r == Err::<u64, E>(first.call->Err_0)
            &&& (first.pallet is Ok && first.call is Ok && first.pallet->Ok_0@ == "Timestamp"@
                && first.call->Ok_0@ == "set"@) ==> match first.fields {
                Err(e) => r == Err::<u64, E>(e),
                Ok(Composite::Unnamed(_)) => r == block_time(calls.drop_first()),
                Ok(Composite::Named(fields)) => {
                    &&& forall|k: int|
                        0 <= k < fields@.len() && (#[trigger] fields@[k]).0@ == "now"@ && (forall|
                            j: int,
                        |
                            0 <= j < k ==> (#[trigger] fields@[j]).0@ != "now"@)
                            ==> match fields@[k].1.value {
                            ValueDef::Primitive(Primitive::U128(n)) => r is Ok && r->Ok_0 == n
                                % 0x1_0000_0000_0000_0000,
                            _ => r == block_time(calls.drop_first()),
                        }
                    &&& (forall|j: int| 0 <= j < fields@.len() ==> (#[trigger] fields@[j]).0@ != "now"@)
                        ==> r == block_time(calls.drop_first())
                },
            }
        }),
{
    if calls[0].fields is Ok && calls[0].fields->Ok_0 is Named {
        law_first_field_of_a_name_is_selected(calls[0].fields->Ok_0, "now"@);
        if let Some(n) = now_field(calls[0].fields->Ok_0) {
            assert(n as u64 == n % 0x1_0000_0000_0000_0000) by (bit_vector);
        }
    }
}

/// A search ends at a block of the account, wherever it is; else it gives up at the
/// first block of the chain, and at the thousandth block that it looks at, and goes
/// on to the parent of any other.
pub proof fn law_search_goes_back_to_the_first_block(
    account: Seq<u8>,
    checked: u32,
    block: BlockFacts,
)
    requires
        checked < 1000,
    ensures
        ({
            let step = search_step(account, checked, block);
            let own = block.author is Some && block.author->0 == account;
            &&& step is Found <==> own
            &&& step is GiveUp <==> !own && (block.number == 0 || checked == 999)
            &&& step is Parent <==> !own && block.number > 0 && checked < 999
        }),
{
}

/// Added to the time of the block, what is told gives the time of the newest one;
/// it is zero where the block is newer, and is told exactly where a block was found.
pub proof fn law_time_behind_the_newest_block(found: Option<u64>, newest: u64, r: Option<u64>)
    requires
        is_time_behind(found, newest, r),
    ensures
        r is Some <==> found is Some,
        found matches Some(ts) ==> (ts <= newest ==> ts + r->0 == newest) && (ts > newest ==> r->0
            == 0),
{
}

} // verus!
