use vstd::prelude::*;
use crate::errors::Error;
use crate::ledger::{
    ledger_entries_positive, ledger_get, ledger_keys_unique, ledger_put, ledger_sum,
};

verus! {

/// The mathematical state of one campaign instance.
///
/// `owner`, `token` and every contributor are identities: opaque values
/// that the host's authorization oracle vouches for, carried here as
/// plain numbers.  Amounts are integers; the executable code keeps them
/// inside the 128-bit range.
pub struct CampaignView {
    pub initialized: bool,
    pub owner: u64,
    pub token: u64,
    pub goal: int,
    pub deadline: int,
    pub total_raised: int,
    pub claimed: bool,
    /// Per-contributor cumulative amounts; authoritative for balances.
    pub ledger: Seq<(u64, int)>,
    /// Append-only list of contributors, one entry per accepted
    /// contribution, so it may repeat an identity.
    pub roster: Seq<u64>,
}

impl CampaignView {
    /// Well-formedness: the running total is exactly the sum of the
    /// ledger, the ledger is a map with positive entries, and an
    /// uninitialized instance holds no accounting state at all.
    pub open spec fn wf(self) -> bool {
        &&& self.total_raised == ledger_sum(self.ledger)
        &&& ledger_keys_unique(self.ledger)
        &&& ledger_entries_positive(self.ledger)
        &&& (!self.initialized ==> {
            &&& self.total_raised == 0
            &&& !self.claimed
            &&& self.ledger.len() == 0
            &&& self.roster.len() == 0
        })
    }

    /// The cumulative amount contributed by `who`, 0 if `who` never
    /// contributed.
    pub open spec fn donation_of(self, who: u64) -> int {
        ledger_get(self.ledger, who)
    }

    /// The state of a freshly created instance.
    pub open spec fn uninitialized() -> CampaignView {
        CampaignView {
            initialized: false,
            owner: 0,
            token: 0,
            goal: 0,
            deadline: 0,
            total_raised: 0,
            claimed: false,
            ledger: Seq::empty(),
            roster: Seq::empty(),
        }
    }

    /// The immutable configuration agrees with `other`'s.
    pub open spec fn same_config(self, other: CampaignView) -> bool {
        &&& self.initialized == other.initialized
        &&& self.owner == other.owner
        &&& self.token == other.token
        &&& self.goal == other.goal
        &&& self.deadline == other.deadline
    }
}

/// Transition for `initialize`: at most once per instance, and only
/// with the owner's authorization; on success the accounting state
/// starts empty.
pub open spec fn spec_initialize(
    s: CampaignView,
    owner: u64,
    token: u64,
    goal: i128,
    deadline: u64,
    auth_ok: bool,
) -> (CampaignView, Result<(), Error>) {
    if s.initialized {
        (s, Err(Error::AlreadyInitialized))
    } else if !auth_ok {
        (s, Err(Error::AuthorizationFailed))
    } else {
        (
            CampaignView {
                initialized: true,
                owner: owner,
                token: token,
                goal: goal as int,
                deadline: deadline as int,
                total_raised: 0,
                claimed: false,
                ledger: Seq::empty(),
                roster: Seq::empty(),
            },
            Ok(()),
        )
    }
}

/// The checks a contribution must pass before the transfer may be
/// attempted, in the order the operation evaluates them.
pub open spec fn spec_donate_check(
    s: CampaignView,
    amount: i128,
    now: u64,
    auth_ok: bool,
) -> Result<(), Error> {
    if !auth_ok {
        Err(Error::AuthorizationFailed)
    } else if !s.initialized {
        Err(Error::NotInitialized)
    } else if now as int > s.deadline {
        Err(Error::CampaignEnded)
    } else if amount <= 0 {
        Err(Error::InvalidAmount)
    } else {
        Ok(())
    }
}

/// Transition for `donate`: if every check passes and the transfer
/// succeeded, the total, the contributor's ledger entry and the roster
/// each record the amount; on any failure the state is unchanged.
pub open spec fn spec_donate(
    s: CampaignView,
    donor: u64,
    amount: i128,
    now: u64,
    auth_ok: bool,
    transfer_ok: bool,
) -> (CampaignView, Result<i128, Error>) {
    match spec_donate_check(s, amount, now, auth_ok) {
        Err(e) => (s, Err(e)),
        Ok(_) => if !transfer_ok {
            (s, Err(Error::TransferFailed))
        } else {
            (
                CampaignView {
                    total_raised: s.total_raised + amount,
                    ledger: ledger_put(s.ledger, donor, amount as int),
                    roster: s.roster.push(donor),
                    ..s
                },
                Ok((s.total_raised + amount) as i128),
            )
        },
    }
}

/// The checks a claim must pass before the transfer may be attempted,
/// in the order the operation evaluates them; on success the whole
/// raised total is the amount to move.
pub open spec fn spec_claim_check(s: CampaignView, now: u64, auth_ok: bool) -> Result<
    i128,
    Error,
> {
    if !s.initialized {
        Err(Error::NotInitialized)
    } else if !auth_ok {
        Err(Error::AuthorizationFailed)
    } else if now as int <= s.deadline {
        Err(Error::CampaignStillActive)
    } else if s.total_raised < s.goal {
        Err(Error::GoalNotReached)
    } else if s.claimed {
        Err(Error::AlreadyClaimed)
    } else {
        Ok(s.total_raised as i128)
    }
}

/// Transition for `claim`: only after the deadline, only by the owner,
/// only with the goal met, and only once; `claimed` is set only after
/// the transfer succeeded.
pub open spec fn spec_claim(
    s: CampaignView,
    now: u64,
    auth_ok: bool,
    transfer_ok: bool,
) -> (CampaignView, Result<i128, Error>) {
    match spec_claim_check(s, now, auth_ok) {
        Err(e) => (s, Err(e)),
        Ok(total) => if !transfer_ok {
            (s, Err(Error::TransferFailed))
        } else {
            (CampaignView { claimed: true, ..s }, Ok(total))
        },
    }
}

/// One attempted contribution: the call's arguments together with the
/// outcomes of the authorization oracle and the transfer collaborator.
pub struct DonateEvent {
    pub donor: u64,
    pub amount: i128,
    pub now: u64,
    pub auth_ok: bool,
    pub transfer_ok: bool,
}

/// Whether a contribution attempt is accepted by a campaign whose
/// initialization state and deadline are as given.  Acceptance depends
/// only on this fixed configuration, never on the accounting state.
pub open spec fn accepted(initialized: bool, deadline: int, e: DonateEvent) -> bool {
    e.auth_ok && initialized && e.now as int <= deadline && e.amount > 0 && e.transfer_ok
}

/// The state after a sequence of contribution attempts.
pub open spec fn run_donations(s: CampaignView, events: Seq<DonateEvent>) -> CampaignView
    decreases events.len(),
{
    if events.len() == 0 {
        s
    } else {
        let e = events[0];
        run_donations(
            spec_donate(s, e.donor, e.amount, e.now, e.auth_ok, e.transfer_ok).0,
            events.drop_first(),
        )
    }
}

/// The sum of the amounts of the accepted attempts.
pub open spec fn accepted_total(initialized: bool, deadline: int, events: Seq<DonateEvent>) -> int
    decreases events.len(),
{
    if events.len() == 0 {
        0
    } else {
        (if accepted(initialized, deadline, events[0]) {
            events[0].amount as int
        } else {
            0
        }) + accepted_total(initialized, deadline, events.drop_first())
    }
}

/// The sum of the amounts of the accepted attempts made by `donor`.
pub open spec fn accepted_total_of(
    initialized: bool,
    deadline: int,
    donor: u64,
    events: Seq<DonateEvent>,
) -> int
    decreases events.len(),
{
    if events.len() == 0 {
        0
    } else {
        (if accepted(initialized, deadline, events[0]) && events[0].donor == donor {
            events[0].amount as int
        } else {
            0
        }) + accepted_total_of(initialized, deadline, donor, events.drop_first())
    }
}

} // verus!
