use vstd::prelude::*;
use crate::address::Address;
use crate::donations::{
    Donation,
    donations_map,
    amounts_sum,
    donors_unique,
    amounts_positive,
    find_donor,
    lemma_map_push,
    lemma_map_lookup,
    lemma_map_absent,
    lemma_map_update,
    lemma_amount_within_sum,
    lemma_prefix_step,
    lemma_prefix_within_sum,
};

verus! {

/// Why a ledger operation was refused. A refused operation changes nothing.
#[derive(PartialEq, Eq, Structural, Clone, Copy, Debug)]
pub enum LedgerError {
    /// The verified caller is not the identity the operation acts for.
    Unauthorized,
    /// A donation was attempted before the campaign was set up.
    NotInitialized,
    /// A donation was attempted after the deadline.
    CampaignEnded,
    /// A donation amount was zero or negative.
    InvalidAmount,
    /// The token transfer that backs a donation did not go through.
    TransferFailed,
    /// The running total would leave the range of `i128`.
    Overflow,
}

/// The campaign as a mathematical value.
pub struct CampaignView {
    pub owner: Seq<u8>,
    pub goal: int,
    pub deadline: int,
    pub token: Seq<u8>,
    pub total_raised: int,
    /// Each donor's cumulative contribution; donors who gave nothing are absent.
    pub donations: Map<Seq<u8>, int>,
}

/// The token movement a donation needs before it can be recorded: `amount`
/// units of the asset at `token`, from `from` into the campaign's custody.
pub struct TransferOrder {
    pub token: Address,
    pub from: Address,
    pub amount: i128,
}

struct Campaign {
    owner: Address,
    goal: i128,
    deadline: u64,
    token: Address,
    total_raised: i128,
    donations: Vec<Donation>,
}

impl Campaign {
    spec fn model(&self) -> CampaignView {
        CampaignView {
            owner: self.owner@,
            goal: self.goal as int,
            deadline: self.deadline as int,
            token: self.token@,
            total_raised: self.total_raised as int,
            donations: donations_map(self.donations@),
        }
    }

    spec fn wf(&self) -> bool {
        &&& donors_unique(self.donations@)
        &&& amounts_positive(self.donations@)
        &&& self.total_raised == amounts_sum(self.donations@)
    }
}

/// A single crowdfunding campaign: its settings and the donations made toward it.
pub struct CrowdfundingContract {
    campaign: Option<Campaign>,
}

impl View for CrowdfundingContract {
    type V = Option<CampaignView>;

    /// `None` until the campaign is initialized.
    closed spec fn view(&self) -> Option<CampaignView> {
        match self.campaign {
            Some(c) => Some(c.model()),
            None => None,
        }
    }
}

/// Whether the campaign has been initialized.
pub open spec fn initialized(v: Option<CampaignView>) -> bool {
    v is Some
}

/// The total raised, zero before initialization.
pub open spec fn raised(v: Option<CampaignView>) -> int {
    match v {
        Some(c) => c.total_raised,
        None => 0,
    }
}

/// What a donor has given in all, zero if nothing.
pub open spec fn given_by(m: Map<Seq<u8>, int>, donor: Seq<u8>) -> int {
    if m.contains_key(donor) {
        m[donor]
    } else {
        0
    }
}

/// What `donor` has given toward the campaign, zero before initialization.
pub open spec fn donated(v: Option<CampaignView>, donor: Seq<u8>) -> int {
    match v {
        Some(c) => given_by(c.donations, donor),
        None => 0,
    }
}

/// The campaign as `initialize` sets it up: nothing raised, nothing donated.
pub open spec fn fresh_campaign(owner: Seq<u8>, goal: int, deadline: int, token: Seq<u8>) -> CampaignView {
    CampaignView {
        owner,
        goal,
        deadline,
        token,
        total_raised: 0,
        donations: Map::empty(),
    }
}

/// Why a donation would be refused before any transfer, checked in this order;
/// `None` if the transfer may be made.
pub open spec fn donation_error(
    v: Option<CampaignView>,
    caller: Seq<u8>,
    donor: Seq<u8>,
    amount: int,
    now: int,
) -> Option<LedgerError> {
    if caller != donor {
        Some(LedgerError::Unauthorized)
    } else {
        match v {
            None => Some(LedgerError::NotInitialized),
            Some(c) => if now > c.deadline {
                Some(LedgerError::CampaignEnded)
            } else if amount <= 0 {
                Some(LedgerError::InvalidAmount)
            } else {
                None
            },
        }
    }
}

/// Whether recording `amount` would take the total raised past `i128::MAX`.
pub open spec fn overflows(c: CampaignView, amount: int) -> bool {
    c.total_raised + amount > i128::MAX
}

/// The campaign once `amount` from `donor` is recorded.
pub open spec fn credited(c: CampaignView, donor: Seq<u8>, amount: int) -> CampaignView {
    CampaignView {
        total_raised: c.total_raised + amount,
        donations: c.donations.insert(donor, given_by(c.donations, donor) + amount),
        ..c
    }
}

/// A state-changing call on the ledger, with what the host supplied for it.
pub enum LedgerCall {
    Initialize { caller: Seq<u8>, owner: Seq<u8>, goal: int, deadline: int, token: Seq<u8> },
    Donate { caller: Seq<u8>, donor: Seq<u8>, amount: int, now: int, transferred: bool },
}

/// The ledger after one call, whether the call succeeds or is refused.
pub open spec fn after_call(v: Option<CampaignView>, call: LedgerCall) -> Option<CampaignView> {
    match call {
        LedgerCall::Initialize { caller, owner, goal, deadline, token } => if caller == owner {
            Some(fresh_campaign(owner, goal, deadline, token))
        } else {
            v
        },
        LedgerCall::Donate { caller, donor, amount, now, transferred } => if donation_error(
            v,
            caller,
            donor,
            amount,
            now,
        ) is None && transferred && !overflows(v->Some_0, amount) {
            Some(credited(v->Some_0, donor, amount))
        } else {
            v
        },
    }
}

impl Campaign {
    fn credit(&mut self, donor: &Address, amount: i128)
        requires
            old(self).wf(),
            amount > 0,
            old(self).total_raised + amount <= i128::MAX,
        ensures
            final(self).wf(),
            final(self).model() == credited(old(self).model(), donor@, amount as int),
    {
        let ghost s = self.donations@;
        match find_donor(&self.donations, donor) {
            Some(i) => {
                proof {
                    lemma_amount_within_sum(s, i as int);
                    lemma_map_lookup(s, i as int);
                }
                let before = self.donations[i].amount;
                let entry = Donation { donor: donor.clone(), amount: before + amount };
                proof {
                    lemma_map_update(s, i as int, entry);
                }
                self.donations.set(i, entry);
                self.total_raised = self.total_raised + amount;
                assert(self.donations@ == s.update(i as int, entry));
                assert forall|a: int, b: int|
                    0 <= a < b < self.donations@.len() implies self.donations@[a].donor@
                        != self.donations@[b].donor@ by {
                    assert(s[a].donor@ != s[b].donor@);
                }
            },
            None => {
                proof {
                    lemma_map_absent(s, donor@);
                }
                let entry = Donation { donor: donor.clone(), amount };
                proof {
                    lemma_map_push(s, entry);
                }
                self.donations.push(entry);
                self.total_raised = self.total_raised + amount;
                assert(self.donations@ == s.push(entry));
            },
        }
        assert(self.model().donations =~= credited(old(self).model(), donor@, amount as int).donations);
    }
}

impl CrowdfundingContract {
    pub closed spec fn wf(&self) -> bool {
        match self.campaign {
            Some(c) => c.wf(),
            None => true,
        }
    }

    /// A ledger whose campaign has not been initialized yet.
    pub fn new() -> (r: CrowdfundingContract)
        ensures
            r.wf(),
            r@ == None::<CampaignView>,
    {
        CrowdfundingContract { campaign: None }
    }

    /// Sets up the campaign, discarding whatever was recorded before.
    ///
    /// `caller` is the identity whose authorization the host has verified for
    /// this call; it must be `owner`.
    pub fn initialize(
        &mut self,
        caller: &Address,
        owner: Address,
        goal: i128,
        deadline: u64,
        token: Address,
    ) -> (r: Result<(), LedgerError>)
        requires
            old(self).wf(),
        ensures
            final(self).wf(),
            caller@ != owner@ ==> r == Err::<(), LedgerError>(LedgerError::Unauthorized)
                && final(self)@ == old(self)@,
            caller@ == owner@ ==> r is Ok && final(self)@ == Some(
                fresh_campaign(owner@, goal as int, deadline as int, token@),
            ),
            final(self)@ == after_call(
                old(self)@,
                LedgerCall::Initialize {
                    caller: caller@,
                    owner: owner@,
                    goal: goal as int,
                    deadline: deadline as int,
                    token: token@,
                },
            ),
    {
        if *caller != owner {
            return Err(LedgerError::Unauthorized);
        }
        self.campaign = Some(
            Campaign { owner, goal, deadline, token, total_raised: 0, donations: Vec::new() },
        );
        assert(donations_map(Seq::<Donation>::empty()) =~= Map::<Seq<u8>, int>::empty());
        Ok(())
    }

    /// Decides whether `donor` may give `amount` at time `now`, and if so
    /// which transfer has to happen before the donation is recorded.
    pub fn donation_order(&self, caller: &Address, donor: &Address, amount: i128, now: u64) -> (r:
        Result<TransferOrder, LedgerError>)
        requires
            self.wf(),
        ensures
            match donation_error(self@, caller@, donor@, amount as int, now as int) {
                Some(e) => r == Err::<TransferOrder, LedgerError>(e),
                None => r matches Ok(o) && o.token@ == self@->Some_0.token && o.from@ == donor@
                    && o.amount == amount,
            },
    {
        if *caller != *donor {
            return Err(LedgerError::Unauthorized);
        }
        match &self.campaign {
            None => Err(LedgerError::NotInitialized),
            Some(c) => {
                if now > c.deadline {
                    Err(LedgerError::CampaignEnded)
                } else if amount <= 0 {
                    Err(LedgerError::InvalidAmount)
                } else {
                    Ok(TransferOrder { token: c.token.clone(), from: donor.clone(), amount })
                }
            },
        }
    }

    /// Records a donation of `amount` from `donor` at time `now`.
    ///
    /// `caller` is the identity whose authorization the host has verified, and
    /// `transferred` tells whether the transfer named by `donation_order` went
    /// through. The checks of `donation_order` come first, then the transfer's
    /// outcome, then the bound on the total. Nothing changes unless all pass.
    pub fn donate(
        &mut self,
        caller: &Address,
        donor: &Address,
        amount: i128,
        now: u64,
        transferred: bool,
    ) -> (r: Result<(), LedgerError>)
        requires
            old(self).wf(),
        ensures
            final(self).wf(),
            match donation_error(old(self)@, caller@, donor@, amount as int, now as int) {
                Some(e) => r == Err::<(), LedgerError>(e) && final(self)@ == old(self)@,
                None => if !transferred {
                    r == Err::<(), LedgerError>(LedgerError::TransferFailed) && final(self)@
                        == old(self)@
                } else if overflows(old(self)@->Some_0, amount as int) {
                    r == Err::<(), LedgerError>(LedgerError::Overflow) && final(self)@
                        == old(self)@
                } else {
                    r is Ok && final(self)@ == Some(
                        credited(old(self)@->Some_0, donor@, amount as int),
                    )
                },
            },
            final(self)@ == after_call(
                old(self)@,
                LedgerCall::Donate {
                    caller: caller@,
                    donor: donor@,
                    amount: amount as int,
                    now: now as int,
                    transferred,
                },
            ),
    {
        match self.donation_order(caller, donor, amount, now) {
            Err(e) => {
                return Err(e);
            },
            Ok(_) => {},
        }
        if !transferred {
            return Err(LedgerError::TransferFailed);
        }
        match &mut self.campaign {
            Some(c) => {
                if c.total_raised > i128::MAX - amount {
                    return Err(LedgerError::Overflow);
                }
                c.credit(donor, amount);
            },
            None => {},
        }
        Ok(())
    }

    /// The total raised so far; zero before initialization.
    pub fn get_total_raised(&self) -> (r: i128)
        requires
            self.wf(),
        ensures
            r == raised(self@),
    {
        match &self.campaign {
            Some(c) => c.total_raised,
            None => 0,
        }
    }

    /// What `donor` has given in all; zero if nothing, or before initialization.
    pub fn get_donation(&self, donor: &Address) -> (r: i128)
        requires
            self.wf(),
        ensures
            r == donated(self@, donor@),
    {
        match &self.campaign {
            None => 0,
            Some(c) => match find_donor(&c.donations, donor) {
                Some(i) => {
                    proof {
                        lemma_map_lookup(c.donations@, i as int);
                    }
                    c.donations[i].amount
                },
                None => {
                    proof {
                        lemma_map_absent(c.donations@, donor@);
                    }
                    0
                },
            },
        }
    }

    /// Rebuilds a ledger from stored settings and donation records.
    ///
    /// The records are accepted only if no donor appears twice, every amount
    /// is positive and their sum, the total raised, fits in an `i128`.
    pub fn restore(
        owner: Address,
        goal: i128,
        deadline: u64,
        token: Address,
        records: Vec<Donation>,
    ) -> (r: Option<CrowdfundingContract>)
        ensures
            r is Some <==> donors_unique(records@) && amounts_positive(records@) && amounts_sum(
                records@,
            ) <= i128::MAX,
            r matches Some(l) ==> l.wf() && l@ == Some(
                CampaignView {
                    owner: owner@,
                    goal: goal as int,
                    deadline: deadline as int,
                    token: token@,
                    total_raised: amounts_sum(records@),
                    donations: donations_map(records@),
                },
            ),
    {
        let ghost s = records@;
        let mut total: i128 = 0;
        let mut i: usize = 0;
        while i < records.len()
            invariant
                i <= s.len(),
                records@ == s,
                donors_unique(s.subrange(0, i as int)),
                amounts_positive(s.subrange(0, i as int)),
                total as int == amounts_sum(s.subrange(0, i as int)),
            decreases s.len() - i,
        {
            proof {
                lemma_prefix_step(s, i as int);
            }
            let amount = records[i].amount;
            if amount <= 0 {
                return None;
            }
            let mut j: usize = 0;
            while j < i
                invariant
                    j <= i < s.len(),
                    records@ == s,
                    forall|k: int| 0 <= k < j ==> s[k].donor@ != s[i as int].donor@,
                decreases i - j,
            {
                if records[j].donor == records[i].donor {
                    return None;
                }
                j = j + 1;
            }
            if total > i128::MAX - amount {
                proof {
                    assert(amounts_positive(s) ==> amounts_sum(s.subrange(0, i + 1)) <= amounts_sum(
                        s,
                    )) by {
                        if amounts_positive(s) {
                            lemma_prefix_within_sum(s, i + 1);
                        }
                    }
                }
                return None;
            }
            total = total + amount;
            i = i + 1;
            assert(donors_unique(s.subrange(0, i as int))) by {
                let p = s.subrange(0, i as int);
                assert forall|a: int, b: int| 0 <= a < b < p.len() implies p[a].donor@
                    != p[b].donor@ by {
                    if b < i - 1 {
                        assert(s.subrange(0, i - 1)[a] == p[a]);
                        assert(s.subrange(0, i - 1)[b] == p[b]);
                    }
                }
            }
            assert(amounts_positive(s.subrange(0, i as int))) by {
                let p = s.subrange(0, i as int);
                assert forall|a: int| 0 <= a < p.len() implies p[a].amount > 0 by {
                    if a < i - 1 {
                        assert(s.subrange(0, i - 1)[a] == p[a]);
                    }
                }
            }
        }
        assert(s.subrange(0, s.len() as int) =~= s);
        Some(
            CrowdfundingContract {
                campaign: Some(
                    Campaign { owner, goal, deadline, token, total_raised: total, donations: records },
                ),
            },
        )
    }

    /// The campaign's owner, once initialized.
    pub fn owner(&self) -> (r: Option<&Address>)
        ensures
            r matches Some(a) ==> self@ matches Some(c) && a@ == c.owner,
            r is None <==> self@ is None,
    {
        match &self.campaign {
            Some(c) => Some(&c.owner),
            None => None,
        }
    }

    /// The campaign's goal, once initialized.
    pub fn goal(&self) -> (r: Option<i128>)
        ensures
            r matches Some(g) ==> self@ matches Some(c) && g as int == c.goal,
            r is None <==> self@ is None,
    {
        match &self.campaign {
            Some(c) => Some(c.goal),
            None => None,
        }
    }

    /// The campaign's deadline, once initialized.
    pub fn deadline(&self) -> (r: Option<u64>)
        ensures
            r matches Some(d) ==> self@ matches Some(c) && d as int == c.deadline,
            r is None <==> self@ is None,
    {
        match &self.campaign {
            Some(c) => Some(c.deadline),
            None => None,
        }
    }

    /// The address of the token that donations are made in, once initialized.
    pub fn token(&self) -> (r: Option<&Address>)
        ensures
            r matches Some(a) ==> self@ matches Some(c) && a@ == c.token,
            r is None <==> self@ is None,
    {
        match &self.campaign {
            Some(c) => Some(&c.token),
            None => None,
        }
    }

    /// The donation records, one per donor; empty before initialization.
    pub fn donation_records(&self) -> (r: &[Donation])
        requires
            self.wf(),
        ensures
            donations_map(r@) == match self@ {
                Some(c) => c.donations,
                None => Map::<Seq<u8>, int>::empty(),
            },
            donors_unique(r@),
            amounts_positive(r@),
            amounts_sum(r@) == raised(self@),
    {
        match &self.campaign {
            Some(c) => c.donations.as_slice(),
            None => {
                assert(donations_map(Seq::<Donation>::empty()) =~= Map::<Seq<u8>, int>::empty());
                &[]
            },
        }
    }

    /// Whether the campaign has been initialized.
    pub fn get_is_already_init(&self) -> (r: bool)
        ensures
            r == initialized(self@),
    {
        self.campaign.is_some()
    }
}

} // verus!
