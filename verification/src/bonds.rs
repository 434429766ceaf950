//! The lowest and the highest bond of a list of candidates, and a collator's rank
//! among them.
use crate::account::AccountId32;
use crate::decode::{candidate_views, Candidate, CandidateInfo};
use vstd::prelude::*;

verus! {

/// The lowest bond above zero.
pub open spec fn lowest_bond(candidates: Seq<Candidate>) -> Option<u128>
    decreases candidates.len(),
{
    if candidates.len() == 0 {
        None
    } else {
        let d = candidates.last().deposit;
        match lowest_bond(candidates.drop_last()) {
            Some(m) => Some(
                if 0 < d < m {
                    d
                } else {
                    m
                },
            ),
            None => if d > 0 {
                Some(d)
            } else {
                None
            },
        }
    }
}

/// The lowest deposit, zero among them.
pub open spec fn lowest_deposit(candidates: Seq<Candidate>) -> Option<u128>
    decreases candidates.len(),
{
    if candidates.len() == 0 {
        None
    } else {
        let d = candidates.last().deposit;
        match lowest_deposit(candidates.drop_last()) {
            Some(m) => Some(
                if d < m {
                    d
                } else {
                    m
                },
            ),
            None => Some(d),
        }
    }
}

/// The highest deposit.
pub open spec fn highest_deposit(candidates: Seq<Candidate>) -> Option<u128>
    decreases candidates.len(),
{
    if candidates.len() == 0 {
        None
    } else {
        let d = candidates.last().deposit;
        match highest_deposit(candidates.drop_last()) {
            Some(m) => Some(
                if d > m {
                    d
                } else {
                    m
                },
            ),
            None => Some(d),
        }
    }
}

/// The lowest bond is the bond of a candidate, it is above zero, and no bond
/// above zero is lower; there is none exactly where no candidate has a bond.
pub proof fn law_lowest_bond(candidates: Seq<Candidate>)
    ensures
        match lowest_bond(candidates) {
            Some(m) => m > 0 && (exists|i: int|
                0 <= i < candidates.len() && (#[trigger] candidates[i]).deposit == m) && (forall|
                i: int,
            |
                0 <= i < candidates.len() && (#[trigger] candidates[i]).deposit > 0 ==> m
                    <= candidates[i].deposit),
            None => forall|i: int|
                0 <= i < candidates.len() ==> (#[trigger] candidates[i]).deposit == 0,
        },
    decreases candidates.len(),
{
    if candidates.len() > 0 {
        let rest = candidates.drop_last();
        let n = candidates.len() - 1;
        law_lowest_bond(rest);
        assert(forall|i: int| 0 <= i < n ==> candidates[i] == rest[i]);
        if let Some(m) = lowest_bond(rest) {
            let i = choose|i: int| 0 <= i < rest.len() && (#[trigger] rest[i]).deposit == m;
            assert(candidates[i].deposit == m);
        }
        assert(candidates[n].deposit == candidates.last().deposit);
    }
}

/// The lowest deposit is the deposit of a candidate and none is lower; there is
/// none exactly where there is no candidate.
pub proof fn law_lowest_deposit(candidates: Seq<Candidate>)
    ensures
        match lowest_deposit(candidates) {
            Some(m) => (exists|i: int|
                0 <= i < candidates.len() && (#[trigger] candidates[i]).deposit == m) && (forall|
                i: int,
            |
                0 <= i < candidates.len() ==> m <= (#[trigger] candidates[i]).deposit),
            None => candidates.len() == 0,
        },
    decreases candidates.len(),
{
    if candidates.len() > 0 {
        let rest = candidates.drop_last();
        let n = candidates.len() - 1;
        law_lowest_deposit(rest);
        assert(forall|i: int| 0 <= i < n ==> candidates[i] == rest[i]);
        if let Some(m) = lowest_deposit(rest) {
            let i = choose|i: int| 0 <= i < rest.len() && (#[trigger] rest[i]).deposit == m;
            assert(candidates[i].deposit == m);
        }
        assert(candidates[n].deposit == candidates.last().deposit);
    }
}

/// The highest deposit is the deposit of a candidate and none is higher; there
/// is none exactly where there is no candidate.
pub proof fn law_highest_deposit(candidates: Seq<Candidate>)
    ensures
        match highest_deposit(candidates) {
            Some(m) => (exists|i: int|
                0 <= i < candidates.len() && (#[trigger] candidates[i]).deposit == m) && (forall|
                i: int,
            |
                0 <= i < candidates.len() ==> m >= (#[trigger] candidates[i]).deposit),
            None => candidates.len() == 0,
        },
    decreases candidates.len(),
{
    if candidates.len() > 0 {
        let rest = candidates.drop_last();
        let n = candidates.len() - 1;
        law_highest_deposit(rest);
        assert(forall|i: int| 0 <= i < n ==> candidates[i] == rest[i]);
        if let Some(m) = highest_deposit(rest) {
            let i = choose|i: int| 0 <= i < rest.len() && (#[trigger] rest[i]).deposit == m;
            assert(candidates[i].deposit == m);
        }
        assert(candidates[n].deposit == candidates.last().deposit);
    }
}

/// The lowest bond above zero.
pub fn find_lowest_bond(candidates: &Vec<CandidateInfo>) -> (r: Option<u128>)
    ensures
        r == lowest_bond(candidate_views(candidates@)),
{
    let ghost views = candidate_views(candidates@);
    let mut r: Option<u128> = None;
    let mut i: usize = 0;
    while i < candidates.len()
        invariant
            i <= candidates@.len(),
            views == candidate_views(candidates@),
            r == lowest_bond(views.take(i as int)),
        decreases candidates@.len() - i,
    {
        let d: u128 = candidates[i].deposit;
        proof {
            assert(views.take(i + 1).drop_last() =~= views.take(i as int));
            assert(views.take(i + 1).last().deposit == d);
        }
        match r {
            Some(m) => {
                if 0 < d && d < m {
                    r = Some(d);
                }
            },
            None => {
                if d > 0 {
                    r = Some(d);
                }
            },
        }
        i = i + 1;
    }
    assert(views.take(i as int) =~= views);
    r
}

/// The lowest deposit.
pub fn find_lowest_deposit(candidates: &Vec<CandidateInfo>) -> (r: Option<u128>)
    ensures
        r == lowest_deposit(candidate_views(candidates@)),
{
    let ghost views = candidate_views(candidates@);
    let mut r: Option<u128> = None;
    let mut i: usize = 0;
    while i < candidates.len()
        invariant
            i <= candidates@.len(),
            views == candidate_views(candidates@),
            r == lowest_deposit(views.take(i as int)),
        decreases candidates@.len() - i,
    {
        let d: u128 = candidates[i].deposit;
        proof {
            assert(views.take(i + 1).drop_last() =~= views.take(i as int));
            assert(views.take(i + 1).last().deposit == d);
        }
        match r {
            Some(m) => {
                if d < m {
                    r = Some(d);
                }
            },
            None => {
                r = Some(d);
            },
        }
        i = i + 1;
    }
    assert(views.take(i as int) =~= views);
    r
}

/// The highest deposit.
pub fn find_highest_deposit(candidates: &Vec<CandidateInfo>) -> (r: Option<u128>)
    ensures
        r == highest_deposit(candidate_views(candidates@)),
{
    let ghost views = candidate_views(candidates@);
    let mut r: Option<u128> = None;
    let mut i: usize = 0;
    while i < candidates.len()
        invariant
            i <= candidates@.len(),
            views == candidate_views(candidates@),
            r == highest_deposit(views.take(i as int)),
        decreases candidates@.len() - i,
    {
        let d: u128 = candidates[i].deposit;
        proof {
            assert(views.take(i + 1).drop_last() =~= views.take(i as int));
            assert(views.take(i + 1).last().deposit == d);
        }
        match r {
            Some(m) => {
                if d > m {
                    r = Some(d);
                }
            },
            None => {
                r = Some(d);
            },
        }
        i = i + 1;
    }
    assert(views.take(i as int) =~= views);
    r
}

/// The list with `c` put in before the first candidate with a smaller deposit.
pub open spec fn ranked_insert(list: Seq<Candidate>, c: Candidate) -> Seq<Candidate>
    decreases list.len(),
{
    if list.len() == 0 || list.last().deposit >= c.deposit {
        list.push(c)
    } else {
        ranked_insert(list.drop_last(), c).push(list.last())
    }
}

/// The candidates with a bond above zero, highest bond first; of two equal bonds
/// the one that was listed first stays first.
pub open spec fn ranking(candidates: Seq<Candidate>) -> Seq<Candidate>
    decreases candidates.len(),
{
    if candidates.len() == 0 {
        Seq::empty()
    } else {
        let rest = ranking(candidates.drop_last());
        if candidates.last().deposit > 0 {
            ranked_insert(rest, candidates.last())
        } else {
            rest
        }
    }
}

/// The first candidate that is the account, or the number of candidates where
/// none is.
pub open spec fn first_of(candidates: Seq<Candidate>, account: Seq<u8>) -> int
    decreases candidates.len(),
{
    if candidates.len() == 0 || candidates[0].who == account {
        0
    } else {
        1 + first_of(candidates.drop_first(), account)
    }
}

/// The collator's rank among the candidates, counted from one.
pub open spec fn rank_of(candidates: Seq<Candidate>, account: Seq<u8>) -> Option<int> {
    let ranked = ranking(candidates);
    let k = first_of(ranked, account);
    if k < ranked.len() {
        Some(k + 1)
    } else {
        None
    }
}

/// The first position of an account is where it is found and not before.
pub proof fn lemma_first_of(candidates: Seq<Candidate>, account: Seq<u8>, k: int)
    requires
        0 <= k <= candidates.len(),
        k < candidates.len() ==> candidates[k].who == account,
        forall|j: int| 0 <= j < k ==> (#[trigger] candidates[j]).who != account,
    ensures
        first_of(candidates, account) == k,
    decreases candidates.len(),
{
    if candidates.len() > 0 && k > 0 {
        let rest = candidates.drop_first();
        assert(candidates[0].who != account);
        assert forall|j: int| 0 <= j < k - 1 implies (#[trigger] rest[j]).who != account by {
            assert(rest[j] == candidates[j + 1]);
        }
        lemma_first_of(rest, account, k - 1);
    }
}

/// What the first position of an account means.
pub proof fn lemma_first_of_meaning(candidates: Seq<Candidate>, account: Seq<u8>)
    ensures
        0 <= first_of(candidates, account) <= candidates.len(),
        first_of(candidates, account) < candidates.len() ==> candidates[first_of(
            candidates,
            account,
        )].who == account,
        forall|j: int|
            0 <= j < first_of(candidates, account) ==> (#[trigger] candidates[j]).who != account,
    decreases candidates.len(),
{
    if candidates.len() > 0 && candidates[0].who != account {
        let rest = candidates.drop_first();
        lemma_first_of_meaning(rest, account);
        assert forall|j: int| 0 < j < candidates.len() implies #[trigger] candidates[j] == rest[j
            - 1] by {}
    }
}

/// Whether deposits never rise along the list.
pub open spec fn falling(list: Seq<Candidate>) -> bool {
    forall|i: int, j: int| 0 <= i <= j < list.len() ==> list[i].deposit >= list[j].deposit
}

proof fn lemma_ranked_insert(list: Seq<Candidate>, c: Candidate)
    requires
        falling(list),
    ensures
        falling(ranked_insert(list, c)),
        ranked_insert(list, c).len() == list.len() + 1,
        ranked_insert(list, c).to_multiset() == list.to_multiset().insert(c),
    decreases list.len(),
{
    broadcast use vstd::seq_lib::group_to_multiset_ensures;

    let r = ranked_insert(list, c);
    if list.len() == 0 || list.last().deposit >= c.deposit {
        assert(list.push(c).to_multiset() =~= list.to_multiset().insert(c));
    } else {
        let rest = list.drop_last();
        lemma_ranked_insert(rest, c);
        let inner = ranked_insert(rest, c);
        assert(list =~= rest.push(list.last()));
        assert(r.to_multiset() =~= list.to_multiset().insert(c));
        assert forall|i: int| 0 <= i < inner.len() implies (#[trigger] inner[i]).deposit
            >= list.last().deposit by {
            assert(inner.to_multiset().contains(inner[i]));
            if inner[i] != c {
                assert(rest.to_multiset().contains(inner[i]));
                let k = choose|k: int| 0 <= k < rest.len() && rest[k] == inner[i];
                assert(list[k].deposit >= list[list.len() - 1].deposit);
            }
        }
    }
}

/// The candidates with a bond above zero.
pub open spec fn bonded(candidates: Seq<Candidate>) -> Seq<Candidate> {
    candidates.filter(|c: Candidate| c.deposit > 0)
}

/// The ranking holds exactly the candidates with a bond above zero, and no bond
/// in it is above the one before.
pub proof fn law_ranking_sorts_the_bonded(candidates: Seq<Candidate>)
    ensures
        falling(ranking(candidates)),
        ranking(candidates).to_multiset() == bonded(candidates).to_multiset(),
    decreases candidates.len(),
{
    broadcast use vstd::seq_lib::group_to_multiset_ensures;

    reveal(Seq::filter);
    if candidates.len() > 0 {
        let rest = candidates.drop_last();
        law_ranking_sorts_the_bonded(rest);
        if candidates.last().deposit > 0 {
            lemma_ranked_insert(ranking(rest), candidates.last());
            assert(bonded(candidates) =~= bonded(rest).push(candidates.last()));
        } else {
            assert(bonded(candidates) =~= bonded(rest));
        }
    }
}

/// Where a candidate goes in a ranking: behind every bond that is not lower.
proof fn lemma_insertion_point(list: Seq<Candidate>, c: Candidate, k: int)
    requires
        0 <= k <= list.len(),
        k > 0 ==> list[k - 1].deposit >= c.deposit,
        forall|j: int| k <= j < list.len() ==> (#[trigger] list[j]).deposit < c.deposit,
    ensures
        ranked_insert(list, c) == list.insert(k, c),
    decreases list.len(),
{
    if list.len() == 0 || list.last().deposit >= c.deposit {
        assert(k == list.len());
        assert(list.insert(k, c) =~= list.push(c));
    } else {
        let rest = list.drop_last();
        lemma_insertion_point(rest, c, k);
        assert(list.insert(k, c) =~= rest.insert(k, c).push(list.last()));
    }
}

/// The ranking of the candidates.
pub fn rank_candidates(candidates: &Vec<CandidateInfo>) -> (r: Vec<CandidateInfo>)
    ensures
        candidate_views(r@) == ranking(candidate_views(candidates@)),
{
    let ghost views = candidate_views(candidates@);
    let mut r: Vec<CandidateInfo> = Vec::new();
    let mut i: usize = 0;
    assert(candidate_views(r@) =~= ranking(views.take(0)));
    while i < candidates.len()
        invariant
            i <= candidates@.len(),
            views == candidate_views(candidates@),
            candidate_views(r@) == ranking(views.take(i as int)),
        decreases candidates@.len() - i,
    {
        let c: CandidateInfo = candidates[i];
        proof {
            assert(views.take(i + 1).drop_last() =~= views.take(i as int));
            assert(views.take(i + 1).last() == c@);
        }
        if c.deposit > 0 {
            let ghost list = candidate_views(r@);
            let mut k: usize = r.len();
            while k > 0 && r[k - 1].deposit < c.deposit
                invariant
                    k <= r@.len(),
                    list == candidate_views(r@),
                    forall|j: int|
                        k <= j < list.len() ==> (#[trigger] list[j]).deposit < c.deposit,
                decreases k,
            {
                assert(list[k - 1] == r@[k - 1]@);
                k = k - 1;
            }
            proof {
                if k > 0 {
                    assert(list[k - 1] == r@[k - 1]@);
                }
                lemma_insertion_point(list, c@, k as int);
            }
            r.insert(k, c);
            assert(candidate_views(r@) =~= list.insert(k as int, c@));
        }
        i = i + 1;
    }
    assert(views.take(i as int) =~= views);
    r
}

/// The collator's rank among the candidates, counted from one.
pub fn find_rank(candidates: &Vec<CandidateInfo>, account: &AccountId32) -> (r: Option<usize>)
    ensures
        match r {
            Some(n) => rank_of(candidate_views(candidates@), account@) == Some(n as int),
            None => rank_of(candidate_views(candidates@), account@) is None,
        },
{
    let ranked = rank_candidates(candidates);
    let ghost views = candidate_views(ranked@);
    let mut i: usize = 0;
    while i < ranked.len()
        invariant
            i <= ranked@.len(),
            views == candidate_views(ranked@),
            views == ranking(candidate_views(candidates@)),
            forall|j: int| 0 <= j < i ==> (#[trigger] views[j]).who != account@,
        decreases ranked@.len() - i,
    {
        assert(views[i as int] == ranked@[i as int]@);
        if ranked[i].who.same(account) {
            proof {
                lemma_first_of(views, account@, i as int);
            }
            return Some(i + 1);
        }
        i = i + 1;
    }
    proof {
        lemma_first_of(views, account@, views.len() as int);
    }
    None
}

/// The collator's rank is its place in the ranking: no bond before it is lower,
/// and none behind it is higher.
pub proof fn law_rank_is_the_place_in_the_ranking(candidates: Seq<Candidate>, account: Seq<u8>)
    ensures
        match rank_of(candidates, account) {
            Some(n) => {
                let ranked = ranking(candidates);
                &&& 1 <= n <= ranked.len()
                &&& ranked[n - 1].who == account
                &&& forall|i: int| 0 <= i < n - 1 ==> (#[trigger] ranked[i]).who != account
                &&& forall|i: int|
                    0 <= i < n - 1 ==> (#[trigger] ranked[i]).deposit >= ranked[n - 1].deposit
                &&& forall|i: int|
                    n <= i < ranked.len() ==> (#[trigger] ranked[i]).deposit <= ranked[n
                        - 1].deposit
            },
            None => forall|i: int|
                0 <= i < ranking(candidates).len() ==> (#[trigger] ranking(candidates)[i]).who
                    != account,
        },
{
    law_ranking_sorts_the_bonded(candidates);
    lemma_first_of_meaning(ranking(candidates), account);
}

proof fn lemma_insert_keeps_order(list: Seq<Candidate>, c: Candidate, deposit: u128)
    requires
        falling(list),
    ensures
        ranked_insert(list, c).filter(|x: Candidate| x.deposit == deposit) == (if c.deposit
            == deposit {
            list.filter(|x: Candidate| x.deposit == deposit).push(c)
        } else {
            list.filter(|x: Candidate| x.deposit == deposit)
        }),
    decreases list.len(),
{
    reveal(Seq::filter);
    if list.len() == 0 || list.last().deposit >= c.deposit {
        assert(list.push(c).drop_last() =~= list);
    } else {
        let rest = list.drop_last();
        lemma_insert_keeps_order(rest, c, deposit);
        let inner = ranked_insert(rest, c);
        assert(inner.push(list.last()).drop_last() =~= inner);
    }
}

/// Candidates with equal bonds stand in the ranking in the order in which they are
/// listed, all of them, where the bond is above zero; the others are left out. No
/// bond in the ranking is above an earlier one.
pub proof fn law_ranking_keeps_the_order_of_equals(candidates: Seq<Candidate>, deposit: u128)
    ensures
        ranking(candidates).filter(|x: Candidate| x.deposit == deposit) == (if deposit > 0 {
            candidates.filter(|x: Candidate| x.deposit == deposit)
        } else {
            Seq::empty()
        }),
        forall|i: int, j: int|
            0 <= i < j < ranking(candidates).len() ==> (#[trigger] ranking(candidates)[i]).deposit
                >= (#[trigger] ranking(candidates)[j]).deposit,
    decreases candidates.len(),
{
    reveal(Seq::filter);
    law_ranking_sorts_the_bonded(candidates);
    if candidates.len() > 0 {
        let rest = candidates.drop_last();
        law_ranking_keeps_the_order_of_equals(rest, deposit);
        law_ranking_sorts_the_bonded(rest);
        if candidates.last().deposit > 0 {
            lemma_insert_keeps_order(ranking(rest), candidates.last(), deposit);
        }
    }
}

} // verus!
