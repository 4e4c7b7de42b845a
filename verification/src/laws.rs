use vstd::prelude::*;
use crate::errors::Error;
use crate::ledger::{
    lemma_put_get, lemma_put_get_other, lemma_put_preserves_shape, lemma_put_sum,
};
use crate::model::{
    accepted, accepted_total, accepted_total_of, run_donations, spec_claim, spec_claim_check,
    spec_donate, spec_donate_check, spec_initialize, CampaignView, DonateEvent,
};

verus! {

/// One contribution attempt: it preserves well-formedness and the whole
/// configuration, never touches `claimed`, and moves the total and the
/// donor's ledger entry by exactly the amount when it is accepted — and
/// by nothing at all when it is not.
pub proof fn lemma_donate_step(s: CampaignView, e: DonateEvent)
    requires
        s.wf(),
    ensures
        ({
            let s2 = spec_donate(s, e.donor, e.amount, e.now, e.auth_ok, e.transfer_ok).0;
            &&& s2.wf()
            &&& s2.same_config(s)
            &&& s2.claimed == s.claimed
            &&& s2.total_raised == s.total_raised + (if accepted(s.initialized, s.deadline, e) {
                e.amount as int
            } else {
                0
            })
            &&& s2.donation_of(e.donor) == s.donation_of(e.donor) + (if accepted(
                s.initialized,
                s.deadline,
                e,
            ) {
                e.amount as int
            } else {
                0
            })
            &&& (forall|w: u64| w != e.donor ==> s2.donation_of(w) == s.donation_of(w))
            &&& (spec_donate(s, e.donor, e.amount, e.now, e.auth_ok, e.transfer_ok).1 is Ok
                <==> accepted(s.initialized, s.deadline, e))
            &&& (!accepted(s.initialized, s.deadline, e) ==> s2 == s)
        }),
{
    if accepted(s.initialized, s.deadline, e) {
        let s2 = spec_donate(s, e.donor, e.amount, e.now, e.auth_ok, e.transfer_ok).0;
        lemma_put_sum(s.ledger, e.donor, e.amount as int);
        lemma_put_get(s.ledger, e.donor, e.amount as int);
        lemma_put_preserves_shape(s.ledger, e.donor, e.amount as int);
        assert forall|w: u64| w != e.donor implies s2.donation_of(w) == s.donation_of(w) by {
            lemma_put_get_other(s.ledger, e.donor, e.amount as int, w);
        }
    }
}

/// Over every sequence of contribution attempts, the raised total grows
/// by exactly the sum of the accepted amounts; rejected attempts never
/// change it.
pub proof fn lemma_total_tracks_accepted(s: CampaignView, events: Seq<DonateEvent>)
    requires
        s.wf(),
    ensures
        run_donations(s, events).wf(),
        run_donations(s, events).same_config(s),
        run_donations(s, events).total_raised == s.total_raised + accepted_total(
            s.initialized,
            s.deadline,
            events,
        ),
    decreases events.len(),
{
    if events.len() > 0 {
        let e = events[0];
        let s1 = spec_donate(s, e.donor, e.amount, e.now, e.auth_ok, e.transfer_ok).0;
        lemma_donate_step(s, e);
        lemma_total_tracks_accepted(s1, events.drop_first());
    }
}

/// Over every sequence of contribution attempts, one contributor's
/// ledger entry grows by exactly the sum of that contributor's accepted
/// amounts.
pub proof fn lemma_donation_tracks_accepted(s: CampaignView, events: Seq<DonateEvent>, d: u64)
    requires
        s.wf(),
    ensures
        run_donations(s, events).donation_of(d) == s.donation_of(d) + accepted_total_of(
            s.initialized,
            s.deadline,
            d,
            events,
        ),
    decreases events.len(),
{
    if events.len() > 0 {
        let e = events[0];
        let s1 = spec_donate(s, e.donor, e.amount, e.now, e.auth_ok, e.transfer_ok).0;
        lemma_donate_step(s, e);
        lemma_donation_tracks_accepted(s1, events.drop_first(), d);
    }
}

/// An identity that never contributed reads as exactly 0, whatever
/// contributions everyone else made.
pub proof fn lemma_never_contributed_reads_zero(
    s: CampaignView,
    events: Seq<DonateEvent>,
    d: u64,
)
    requires
        s.wf(),
        s.donation_of(d) == 0,
        forall|i: int| 0 <= i < events.len() ==> events[i].donor != d,
    ensures
        run_donations(s, events).donation_of(d) == 0,
{
    lemma_donation_tracks_accepted(s, events, d);
    lemma_accepted_total_of_no_events(s.initialized, s.deadline, d, events);
}

proof fn lemma_accepted_total_of_no_events(
    initialized: bool,
    deadline: int,
    d: u64,
    events: Seq<DonateEvent>,
)
    requires
        forall|i: int| 0 <= i < events.len() ==> events[i].donor != d,
    ensures
        accepted_total_of(initialized, deadline, d, events) == 0,
    decreases events.len(),
{
    if events.len() > 0 {
        assert forall|i: int| 0 <= i < events.drop_first().len() implies events.drop_first()[i].donor
            != d by {
            assert(events.drop_first()[i] == events[i + 1]);
        }
        lemma_accepted_total_of_no_events(initialized, deadline, d, events.drop_first());
    }
}

/// Once an `initialize` has succeeded, every further `initialize` fails
/// with `AlreadyInitialized` and changes nothing, whatever identities
/// or parameters it passes and whether or not it is authorized.
pub proof fn lemma_initialize_at_most_once(
    s: CampaignView,
    owner1: u64,
    token1: u64,
    goal1: i128,
    deadline1: u64,
    auth1: bool,
    owner2: u64,
    token2: u64,
    goal2: i128,
    deadline2: u64,
    auth2: bool,
)
    requires
        spec_initialize(s, owner1, token1, goal1, deadline1, auth1).1 is Ok,
    ensures
        ({
            let s1 = spec_initialize(s, owner1, token1, goal1, deadline1, auth1).0;
            &&& spec_initialize(s1, owner2, token2, goal2, deadline2, auth2).0 == s1
            &&& spec_initialize(s1, owner2, token2, goal2, deadline2, auth2).1 == Err::<
                (),
                Error,
            >(Error::AlreadyInitialized)
        }),
{
}

/// After the deadline, every authorized contribution attempt fails with
/// `CampaignEnded` and changes nothing, whatever the goal status, the
/// amount, or the transfer outcome.
pub proof fn lemma_donate_after_deadline_fails(
    s: CampaignView,
    donor: u64,
    amount: i128,
    now: u64,
    transfer_ok: bool,
)
    requires
        s.initialized,
        now as int > s.deadline,
    ensures
        spec_donate(s, donor, amount, now, true, transfer_ok).0 == s,
        spec_donate(s, donor, amount, now, true, transfer_ok).1 == Err::<i128, Error>(
            Error::CampaignEnded,
        ),
{
}

/// At or before the deadline, every authorized claim fails with
/// `CampaignStillActive` and changes nothing, even if the goal is
/// already met.
pub proof fn lemma_claim_before_deadline_fails(
    s: CampaignView,
    now: u64,
    transfer_ok: bool,
)
    requires
        s.initialized,
        now as int <= s.deadline,
    ensures
        spec_claim(s, now, true, transfer_ok).0 == s,
        spec_claim(s, now, true, transfer_ok).1 == Err::<i128, Error>(Error::CampaignStillActive),
{
}

/// One claim attempt: the configuration and the whole accounting state
/// stay untouched, and `claimed` flips to true exactly when the claim
/// succeeds — which it does if and only if the campaign is initialized,
/// the caller is authorized, the deadline has passed, the goal is met,
/// no claim succeeded before, and the release transfer went through.
pub proof fn lemma_claim_step(s: CampaignView, now: u64, auth_ok: bool, transfer_ok: bool)
    requires
        s.wf(),
    ensures
        ({
            let s2 = spec_claim(s, now, auth_ok, transfer_ok).0;
            let r = spec_claim(s, now, auth_ok, transfer_ok).1;
            &&& s2.wf()
            &&& s2.same_config(s)
            &&& s2.total_raised == s.total_raised
            &&& s2.ledger == s.ledger
            &&& s2.roster == s.roster
            &&& (r is Ok <==> s.initialized && auth_ok && now as int > s.deadline
                && s.total_raised >= s.goal && !s.claimed && transfer_ok)
            &&& (r is Ok ==> s2.claimed && r == Ok::<i128, Error>(s.total_raised as i128))
            &&& (r is Err ==> s2 == s)
        }),
{
}

/// `claim` succeeds at most once: after one success, every further
/// authorized post-deadline claim fails with `AlreadyClaimed` and
/// changes nothing, whatever the transfer outcome.
pub proof fn lemma_claim_at_most_once(
    s: CampaignView,
    now1: u64,
    auth1: bool,
    transfer1: bool,
    now2: u64,
    transfer2: bool,
)
    requires
        spec_claim(s, now1, auth1, transfer1).1 is Ok,
        now2 as int > s.deadline,
    ensures
        ({
            let s1 = spec_claim(s, now1, auth1, transfer1).0;
            &&& spec_claim(s1, now2, true, transfer2).0 == s1
            &&& spec_claim(s1, now2, true, transfer2).1 == Err::<i128, Error>(
                Error::AlreadyClaimed,
            )
        }),
{
}

/// `donate` agrees with `donate_check`: when a check fails, its error
/// decides the outcome alone and the transfer outcome is never
/// consulted; once every check passes, only the transfer outcome
/// decides.  The host may therefore attempt the transfer exactly when
/// `donate_check` passes.
pub proof fn lemma_donate_follows_check(
    s: CampaignView,
    donor: u64,
    amount: i128,
    now: u64,
    auth_ok: bool,
    transfer_ok: bool,
)
    ensures
        ({
            let chk = spec_donate_check(s, amount, now, auth_ok);
            let step = spec_donate(s, donor, amount, now, auth_ok, transfer_ok);
            &&& (chk matches Err(e) ==> step.0 == s && step.1 == Err::<i128, Error>(e))
            &&& (chk is Ok && !transfer_ok ==> step.0 == s && step.1 == Err::<i128, Error>(
                Error::TransferFailed,
            ))
            &&& (chk is Ok && transfer_ok ==> step.1 is Ok)
        }),
{
}

/// `claim` agrees with `claim_check` in the same way, and a successful
/// claim releases exactly the amount `claim_check` promised.
pub proof fn lemma_claim_follows_check(
    s: CampaignView,
    now: u64,
    auth_ok: bool,
    transfer_ok: bool,
)
    ensures
        ({
            let chk = spec_claim_check(s, now, auth_ok);
            let step = spec_claim(s, now, auth_ok, transfer_ok);
            &&& (chk matches Err(e) ==> step.0 == s && step.1 == Err::<i128, Error>(e))
            &&& (chk is Ok && !transfer_ok ==> step.0 == s && step.1 == Err::<i128, Error>(
                Error::TransferFailed,
            ))
            &&& (chk matches Ok(total) ==> transfer_ok ==> step.1 == Ok::<i128, Error>(total)
                && step.0.claimed)
        }),
{
}

} // verus!
