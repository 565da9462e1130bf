use vstd::prelude::*;
use crate::address::Address;

verus! {

/// One donor's cumulative contribution to the campaign.
pub struct Donation {
    pub donor: Address,
    pub amount: i128,
}

/// What a list of donation records says each donor has given.
pub open spec fn donations_map(s: Seq<Donation>) -> Map<Seq<u8>, int>
    decreases s.len(),
{
    if s.len() == 0 {
        Map::empty()
    } else {
        donations_map(s.drop_last()).insert(s.last().donor@, s.last().amount as int)
    }
}

/// The sum of all amounts in a list of donation records.
pub open spec fn amounts_sum(s: Seq<Donation>) -> int
    decreases s.len(),
{
    if s.len() == 0 {
        0
    } else {
        amounts_sum(s.drop_last()) + s.last().amount
    }
}

/// No donor appears twice.
pub open spec fn donors_unique(s: Seq<Donation>) -> bool {
    forall|i: int, j: int| 0 <= i < j < s.len() ==> s[i].donor@ != s[j].donor@
}

/// Every recorded amount is strictly positive.
pub open spec fn amounts_positive(s: Seq<Donation>) -> bool {
    forall|i: int| 0 <= i < s.len() ==> s[i].amount > 0
}

pub(crate) proof fn lemma_map_push(s: Seq<Donation>, e: Donation)
    ensures
        donations_map(s.push(e)) == donations_map(s).insert(e.donor@, e.amount as int),
        amounts_sum(s.push(e)) == amounts_sum(s) + e.amount,
{
    assert(s.push(e).drop_last() =~= s);
}

pub(crate) proof fn lemma_map_lookup(s: Seq<Donation>, i: int)
    requires
        donors_unique(s),
        0 <= i < s.len(),
    ensures
        donations_map(s).contains_key(s[i].donor@),
        donations_map(s)[s[i].donor@] == s[i].amount as int,
    decreases s.len(),
{
    if i < s.len() - 1 {
        lemma_map_lookup(s.drop_last(), i);
        assert(s.drop_last()[i] == s[i]);
    }
}

pub(crate) proof fn lemma_map_absent(s: Seq<Donation>, k: Seq<u8>)
    requires
        forall|i: int| 0 <= i < s.len() ==> s[i].donor@ != k,
    ensures
        !donations_map(s).contains_key(k),
    decreases s.len(),
{
    if s.len() > 0 {
        assert(s[s.len() - 1].donor@ != k);
        lemma_map_absent(s.drop_last(), k);
    }
}

pub(crate) proof fn lemma_map_update(s: Seq<Donation>, i: int, e: Donation)
    requires
        donors_unique(s),
        0 <= i < s.len(),
        e.donor@ == s[i].donor@,
    ensures
        donations_map(s.update(i, e)) == donations_map(s).insert(e.donor@, e.amount as int),
        amounts_sum(s.update(i, e)) == amounts_sum(s) - s[i].amount + e.amount,
    decreases s.len(),
{
    let t = s.update(i, e);
    let n = s.len() - 1;
    if i == n {
        assert(t.drop_last() =~= s.drop_last());
        assert(donations_map(t) =~= donations_map(s).insert(e.donor@, e.amount as int));
    } else {
        assert(t.drop_last() =~= s.drop_last().update(i, e));
        lemma_map_update(s.drop_last(), i, e);
        assert(s[i].donor@ != s[n].donor@);
        assert(donations_map(t) =~= donations_map(s).insert(e.donor@, e.amount as int));
    }
}

pub(crate) proof fn lemma_amount_within_sum(s: Seq<Donation>, i: int)
    requires
        amounts_positive(s),
        0 <= i < s.len(),
    ensures
        0 < s[i].amount <= amounts_sum(s),
    decreases s.len(),
{
    lemma_sum_nonnegative(s.drop_last());
    if i < s.len() - 1 {
        lemma_amount_within_sum(s.drop_last(), i);
    }
}

pub(crate) proof fn lemma_sum_nonnegative(s: Seq<Donation>)
    requires
        amounts_positive(s),
    ensures
        amounts_sum(s) >= 0,
    decreases s.len(),
{
    if s.len() > 0 {
        lemma_sum_nonnegative(s.drop_last());
    }
}

pub(crate) proof fn lemma_prefix_step(s: Seq<Donation>, i: int)
    requires
        0 <= i < s.len(),
    ensures
        amounts_sum(s.subrange(0, i + 1)) == amounts_sum(s.subrange(0, i)) + s[i].amount,
        donations_map(s.subrange(0, i + 1)) == donations_map(s.subrange(0, i)).insert(
            s[i].donor@,
            s[i].amount as int,
        ),
{
    assert(s.subrange(0, i + 1).drop_last() =~= s.subrange(0, i));
}

pub(crate) proof fn lemma_prefix_within_sum(s: Seq<Donation>, k: int)
    requires
        amounts_positive(s),
        0 <= k <= s.len(),
    ensures
        amounts_sum(s.subrange(0, k)) <= amounts_sum(s),
    decreases s.len() - k,
{
    if k < s.len() {
        lemma_prefix_step(s, k);
        lemma_prefix_within_sum(s, k + 1);
    } else {
        assert(s.subrange(0, k) =~= s);
    }
}

/// The index of `donor`'s record, if it has one.
pub fn find_donor(s: &Vec<Donation>, donor: &Address) -> (r: Option<usize>)
    ensures
        match r {
            Some(i) => i < s@.len() && s@[i as int].donor@ == donor@,
            None => forall|i: int| 0 <= i < s@.len() ==> s@[i].donor@ != donor@,
        },
{
    let mut i: usize = 0;
    while i < s.len()
        invariant
            i <= s@.len(),
            forall|j: int| 0 <= j < i ==> s@[j].donor@ != donor@,
        decreases s@.len() - i,
    {
        if s[i].donor == *donor {
            return Some(i);
        }
        i = i + 1;
    }
    None
}

} // verus!
