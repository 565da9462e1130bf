use vstd::prelude::*;
use crate::ledger::{
    CampaignView,
    LedgerCall,
    LedgerError,
    after_call,
    credited,
    donated,
    donation_error,
    fresh_campaign,
    given_by,
    initialized,
    raised,
};

verus! {

/// The campaign after each of `gifts` (donor, amount) has been recorded in turn.
pub open spec fn credit_all(c: CampaignView, gifts: Seq<(Seq<u8>, int)>) -> CampaignView
    decreases gifts.len(),
{
    if gifts.len() == 0 {
        c
    } else {
        credited(credit_all(c, gifts.drop_last()), gifts.last().0, gifts.last().1)
    }
}

/// The sum of all amounts in `gifts`.
pub open spec fn gifts_sum(gifts: Seq<(Seq<u8>, int)>) -> int
    decreases gifts.len(),
{
    if gifts.len() == 0 {
        0
    } else {
        gifts_sum(gifts.drop_last()) + gifts.last().1
    }
}

/// The sum of the amounts in `gifts` that came from `donor`.
pub open spec fn gifts_sum_from(gifts: Seq<(Seq<u8>, int)>, donor: Seq<u8>) -> int
    decreases gifts.len(),
{
    if gifts.len() == 0 {
        0
    } else {
        gifts_sum_from(gifts.drop_last(), donor) + if gifts.last().0 == donor {
            gifts.last().1
        } else {
            0
        }
    }
}

/// The ledger after `calls`, made one after another.
pub open spec fn after_calls(v: Option<CampaignView>, calls: Seq<LedgerCall>) -> Option<CampaignView>
    decreases calls.len(),
{
    if calls.len() == 0 {
        v
    } else {
        after_call(after_calls(v, calls.drop_last()), calls.last())
    }
}

/// Whether a call initializes the campaign (an initialization by its owner).
pub open spec fn sets_up(call: LedgerCall) -> bool {
    call matches LedgerCall::Initialize { caller, owner, .. } && caller == owner
}

/// After a run of successful donations to a freshly initialized campaign, the
/// total raised is the sum of all amounts, and each donor's contribution is
/// the sum of that donor's amounts.
pub proof fn law_totals_add_up(
    owner: Seq<u8>,
    goal: int,
    deadline: int,
    token: Seq<u8>,
    gifts: Seq<(Seq<u8>, int)>,
    donor: Seq<u8>,
)
    ensures
        credit_all(fresh_campaign(owner, goal, deadline, token), gifts).total_raised == gifts_sum(
            gifts,
        ),
        given_by(credit_all(fresh_campaign(owner, goal, deadline, token), gifts).donations, donor)
            == gifts_sum_from(gifts, donor),
    decreases gifts.len(),
{
    if gifts.len() > 0 {
        law_totals_add_up(owner, goal, deadline, token, gifts.drop_last(), donor);
    }
}

/// A donation of zero or less is always refused and changes nothing; once the
/// caller is the donor, the campaign exists and the deadline has not passed,
/// it is refused as an invalid amount.
pub proof fn law_nonpositive_amount_refused(
    v: Option<CampaignView>,
    caller: Seq<u8>,
    donor: Seq<u8>,
    amount: int,
    now: int,
    transferred: bool,
)
    requires
        amount <= 0,
    ensures
        donation_error(v, caller, donor, amount, now) is Some,
        after_call(v, LedgerCall::Donate { caller, donor, amount, now, transferred }) == v,
        caller == donor && v is Some && now <= v->Some_0.deadline ==> donation_error(
            v,
            caller,
            donor,
            amount,
            now,
        ) == Some(LedgerError::InvalidAmount),
{
}

/// A valid donation is accepted at the deadline itself and refused one second
/// later because the campaign has ended.
pub proof fn law_deadline_inclusive(c: CampaignView, donor: Seq<u8>, amount: int)
    requires
        amount > 0,
    ensures
        donation_error(Some(c), donor, donor, amount, c.deadline) is None,
        donation_error(Some(c), donor, donor, amount, c.deadline + 1) == Some(
            LedgerError::CampaignEnded,
        ),
{
}

/// An identity that never donated has given zero: before initialization,
/// right after it, and after any run of donations by others.
pub proof fn law_non_donor_has_zero(
    owner: Seq<u8>,
    goal: int,
    deadline: int,
    token: Seq<u8>,
    gifts: Seq<(Seq<u8>, int)>,
    donor: Seq<u8>,
)
    requires
        forall|i: int| 0 <= i < gifts.len() ==> gifts[i].0 != donor,
    ensures
        donated(None, donor) == 0,
        donated(Some(fresh_campaign(owner, goal, deadline, token)), donor) == 0,
        donated(Some(credit_all(fresh_campaign(owner, goal, deadline, token), gifts)), donor)
            == 0,
    decreases gifts.len(),
{
    law_totals_add_up(owner, goal, deadline, token, gifts, donor);
    lemma_sum_from_absent(gifts, donor);
}

proof fn lemma_sum_from_absent(gifts: Seq<(Seq<u8>, int)>, donor: Seq<u8>)
    requires
        forall|i: int| 0 <= i < gifts.len() ==> gifts[i].0 != donor,
    ensures
        gifts_sum_from(gifts, donor) == 0,
    decreases gifts.len(),
{
    if gifts.len() > 0 {
        assert(gifts[gifts.len() - 1].0 != donor);
        lemma_sum_from_absent(gifts.drop_last(), donor);
    }
}

/// Once initialized, the campaign stays initialized whatever calls follow; and
/// calls that include no initialization by the owner never initialize it.
pub proof fn law_initialized_persists(v: Option<CampaignView>, calls: Seq<LedgerCall>)
    ensures
        initialized(v) ==> initialized(after_calls(v, calls)),
        (forall|i: int| 0 <= i < calls.len() ==> !sets_up(#[trigger] calls[i])) ==> initialized(
            after_calls(v, calls),
        ) == initialized(v),
    decreases calls.len(),
{
    if calls.len() > 0 {
        law_initialized_persists(v, calls.drop_last());
        if forall|i: int| 0 <= i < calls.len() ==> !sets_up(#[trigger] calls[i]) {
            assert forall|i: int| 0 <= i < calls.drop_last().len() implies !sets_up(
                #[trigger] calls.drop_last()[i],
            ) by {
                assert(calls.drop_last()[i] == calls[i]);
            }
            assert(!sets_up(calls[calls.len() - 1]));
        }
    }
}

/// Initializing again discards everything recorded before: nothing raised,
/// nothing donated by anyone.
pub proof fn law_reinitialize_resets(
    v: Option<CampaignView>,
    owner: Seq<u8>,
    goal: int,
    deadline: int,
    token: Seq<u8>,
    donor: Seq<u8>,
)
    ensures
        raised(
            after_call(v, LedgerCall::Initialize { caller: owner, owner, goal, deadline, token }),
        ) == 0,
        donated(
            after_call(v, LedgerCall::Initialize { caller: owner, owner, goal, deadline, token }),
            donor,
        ) == 0,
{
}

} // verus!
