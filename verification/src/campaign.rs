use vstd::prelude::*;
use crate::errors::Error;
use crate::ledger::{
    lemma_absent_get_zero, lemma_entry_le_sum, lemma_find_is_first, lemma_put_preserves_shape,
    lemma_put_sum, lemma_sum_nonneg, ledger_put,
};
use crate::model::{
    spec_claim, spec_claim_check, spec_donate, spec_donate_check, spec_initialize, CampaignView,
};

verus! {

/// A snapshot of the campaign configuration and accounting state, as
/// returned by `get_campaign`.
#[derive(Clone, Copy, Debug, PartialEq, Eq, Structural)]
pub struct CampaignInfo {
    pub owner: u64,
    pub token: u64,
    pub goal: i128,
    pub deadline: u64,
    pub total_raised: i128,
    pub claimed: bool,
}

/// What `get_campaign` returns: the whole stored campaign, or
/// `NotInitialized` before `initialize` has succeeded.
pub open spec fn spec_get_campaign(s: CampaignView) -> Result<CampaignInfo, Error> {
    if !s.initialized {
        Err(Error::NotInitialized)
    } else {
        Ok(
            CampaignInfo {
                owner: s.owner,
                token: s.token,
                goal: s.goal as i128,
                deadline: s.deadline as u64,
                total_raised: s.total_raised as i128,
                claimed: s.claimed,
            },
        )
    }
}

/// One crowdfunding campaign instance.
///
/// The struct is the durable state the host persists between calls.
/// Each operation takes the outcomes of the host's collaborators — the
/// authorization oracle as `auth_ok`, the clock as `now`, the
/// value-transfer service as `transfer_ok` — and is verified for every
/// combination of them.  The caller must attempt a transfer only after
/// the matching `_check` operation has passed; the transition functions
/// ignore `transfer_ok` whenever a check fails, so a transfer that was
/// wrongly attempted can never be accounted.
pub struct CrowdfundContract {
    initialized: bool,
    owner: u64,
    token: u64,
    goal: i128,
    deadline: u64,
    total_raised: i128,
    claimed: bool,
    ledger: Vec<(u64, i128)>,
    roster: Vec<u64>,
}

impl View for CrowdfundContract {
    type V = CampaignView;

    closed spec fn view(&self) -> CampaignView {
        CampaignView {
            initialized: self.initialized,
            owner: self.owner,
            token: self.token,
            goal: self.goal as int,
            deadline: self.deadline as int,
            total_raised: self.total_raised as int,
            claimed: self.claimed,
            ledger: self.ledger@.map_values(|p: (u64, i128)| (p.0, p.1 as int)),
            roster: self.roster@,
        }
    }
}

impl CrowdfundContract {
    /// A fresh, uninitialized instance.
    pub fn new() -> (c: CrowdfundContract)
        ensures
            c@ == CampaignView::uninitialized(),
            c@.wf(),
    {
        let c = CrowdfundContract {
            initialized: false,
            owner: 0,
            token: 0,
            goal: 0,
            deadline: 0,
            total_raised: 0,
            claimed: false,
            ledger: Vec::new(),
            roster: Vec::new(),
        };
        proof {
            assert(c@.ledger =~= Seq::<(u64, int)>::empty());
            assert(c@.roster =~= Seq::<u64>::empty());
        }
        c
    }

    /// Create the campaign: record owner, asset, goal and deadline, and
    /// start the accounting at zero.  Fails with `AlreadyInitialized` on
    /// any second call, with `AuthorizationFailed` if the caller did not
    /// prove the owner's identity; on failure nothing changes.
    pub fn initialize(
        &mut self,
        owner: u64,
        token: u64,
        goal: i128,
        deadline: u64,
        auth_ok: bool,
    ) -> (r: Result<(), Error>)
        requires
            old(self)@.wf(),
        ensures
            final(self)@.wf(),
            final(self)@ == spec_initialize(old(self)@, owner, token, goal, deadline, auth_ok).0,
            r == spec_initialize(old(self)@, owner, token, goal, deadline, auth_ok).1,
    {
        if self.initialized {
            return Err(Error::AlreadyInitialized);
        }
        if !auth_ok {
            return Err(Error::AuthorizationFailed);
        }
        self.initialized = true;
        self.owner = owner;
        self.token = token;
        self.goal = goal;
        self.deadline = deadline;
        self.total_raised = 0;
        self.claimed = false;
        self.ledger = Vec::new();
        self.roster = Vec::new();
        proof {
            assert(self@.ledger =~= Seq::<(u64, int)>::empty());
            assert(self@.roster =~= Seq::<u64>::empty());
        }
        Ok(())
    }

    /// The checks a contribution must pass, in evaluation order, before
    /// the host may attempt the transfer of `amount` from the donor.
    pub fn donate_check(&self, amount: i128, now: u64, auth_ok: bool) -> (r: Result<(), Error>)
        ensures
            r == spec_donate_check(self@, amount, now, auth_ok),
    {
        if !auth_ok {
            return Err(Error::AuthorizationFailed);
        }
        if !self.initialized {
            return Err(Error::NotInitialized);
        }
        if now > self.deadline {
            return Err(Error::CampaignEnded);
        }
        if amount <= 0 {
            return Err(Error::InvalidAmount);
        }
        Ok(())
    }

    /// Record a contribution whose transfer the host has carried out
    /// with outcome `transfer_ok`.  On success the new running total is
    /// returned (the payload of the contribution notification); on any
    /// failure the state is unchanged and the failed check's error is
    /// returned, `TransferFailed` if only the transfer failed.
    pub fn donate(
        &mut self,
        donor: u64,
        amount: i128,
        now: u64,
        auth_ok: bool,
        transfer_ok: bool,
    ) -> (r: Result<i128, Error>)
        requires
            old(self)@.wf(),
            old(self)@.total_raised + amount <= i128::MAX,
        ensures
            final(self)@.wf(),
            final(self)@ == spec_donate(old(self)@, donor, amount, now, auth_ok, transfer_ok).0,
            r == spec_donate(old(self)@, donor, amount, now, auth_ok, transfer_ok).1,
    {
        if !auth_ok {
            return Err(Error::AuthorizationFailed);
        }
        if !self.initialized {
            return Err(Error::NotInitialized);
        }
        if now > self.deadline {
            return Err(Error::CampaignEnded);
        }
        if amount <= 0 {
            return Err(Error::InvalidAmount);
        }
        if !transfer_ok {
            return Err(Error::TransferFailed);
        }
        let ghost s0 = self@;
        let n: usize = self.ledger.len();
        let mut i: usize = 0;
        while i < n && self.ledger[i].0 != donor
            invariant
                n == self.ledger.len(),
                i <= n,
                forall|j: int| 0 <= j < i ==> self@.ledger[j].0 != donor,
            decreases n - i,
        {
            i += 1;
        }
        proof {
            lemma_sum_nonneg(s0.ledger);
        }
        let new_total: i128 = self.total_raised + amount;
        if i < n {
            proof {
                lemma_find_is_first(s0.ledger, donor, i as int);
                lemma_entry_le_sum(s0.ledger, i as int);
            }
            let prev: i128 = self.ledger[i].1;
            self.ledger.set(i, (donor, prev + amount));
        } else {
            proof {
                lemma_absent_get_zero(s0.ledger, donor);
            }
            self.ledger.push((donor, amount));
        }
        self.total_raised = new_total;
        self.roster.push(donor);
        proof {
            assert(self@.ledger =~= ledger_put(s0.ledger, donor, amount as int));
            lemma_put_sum(s0.ledger, donor, amount as int);
            lemma_put_preserves_shape(s0.ledger, donor, amount as int);
        }
        Ok(new_total)
    }

    /// The checks a claim must pass, in evaluation order, before the
    /// host may attempt the release transfer; on success the returned
    /// amount is the whole raised total to move to the owner.
    pub fn claim_check(&self, now: u64, auth_ok: bool) -> (r: Result<i128, Error>)
        ensures
            r == spec_claim_check(self@, now, auth_ok),
    {
        if !self.initialized {
            return Err(Error::NotInitialized);
        }
        if !auth_ok {
            return Err(Error::AuthorizationFailed);
        }
        if now <= self.deadline {
            return Err(Error::CampaignStillActive);
        }
        if self.total_raised < self.goal {
            return Err(Error::GoalNotReached);
        }
        if self.claimed {
            return Err(Error::AlreadyClaimed);
        }
        Ok(self.total_raised)
    }

    /// Mark the campaign claimed once the host has carried out the
    /// release transfer with outcome `transfer_ok`.  Succeeds only
    /// after the deadline, only for the authorized owner, only with the
    /// goal met and only once; `claimed` is set only when the transfer
    /// succeeded, and on any failure the state is unchanged.  On
    /// success the transferred total is returned (the payload of the
    /// claim notification).
    pub fn claim(&mut self, now: u64, auth_ok: bool, transfer_ok: bool) -> (r: Result<
        i128,
        Error,
    >)
        requires
            old(self)@.wf(),
        ensures
            final(self)@.wf(),
            final(self)@ == spec_claim(old(self)@, now, auth_ok, transfer_ok).0,
            r == spec_claim(old(self)@, now, auth_ok, transfer_ok).1,
    {
        if !self.initialized {
            return Err(Error::NotInitialized);
        }
        if !auth_ok {
            return Err(Error::AuthorizationFailed);
        }
        if now <= self.deadline {
            return Err(Error::CampaignStillActive);
        }
        if self.total_raised < self.goal {
            return Err(Error::GoalNotReached);
        }
        if self.claimed {
            return Err(Error::AlreadyClaimed);
        }
        if !transfer_ok {
            return Err(Error::TransferFailed);
        }
        self.claimed = true;
        Ok(self.total_raised)
    }

    /// Read the whole campaign, or `NotInitialized` before `initialize`
    /// has succeeded.  No authorization is required.
    pub fn get_campaign(&self) -> (r: Result<CampaignInfo, Error>)
        ensures
            r == spec_get_campaign(self@),
    {
        if !self.initialized {
            return Err(Error::NotInitialized);
        }
        Ok(
            CampaignInfo {
                owner: self.owner,
                token: self.token,
                goal: self.goal,
                deadline: self.deadline,
                total_raised: self.total_raised,
                claimed: self.claimed,
            },
        )
    }

    /// Read the cumulative amount contributed by `donor`; a contributor
    /// without a ledger entry reads as 0, never as an error.  No
    /// authorization is required.
    pub fn get_donation(&self, donor: u64) -> (r: i128)
        ensures
            r as int == self@.donation_of(donor),
    {
        let n: usize = self.ledger.len();
        let mut i: usize = 0;
        while i < n && self.ledger[i].0 != donor
            invariant
                n == self.ledger.len(),
                i <= n,
                forall|j: int| 0 <= j < i ==> self@.ledger[j].0 != donor,
            decreases n - i,
        {
            i += 1;
        }
        if i < n {
            proof {
                lemma_find_is_first(self@.ledger, donor, i as int);
            }
            self.ledger[i].1
        } else {
            proof {
                lemma_absent_get_zero(self@.ledger, donor);
            }
            0
        }
    }
}

} // verus!
