use vstd::prelude::*;

use crate::contract::{
    contributed_amount, donated_amount, contributor_index, donor_index, lemma_campaign_position, lemma_contributor_index,
    lemma_donor_index, CrowdfundingContract,
};
use crate::errors::CrowdfundingError;
use crate::events::Event;
use crate::ledger::lemma_sum_bounds;
use crate::pool::state_update_allowed;
use crate::types::{
    Address, CampaignId, EmergencyWithdrawal, PoolState, Transfer, EMERGENCY_WITHDRAWAL_DELAY,
};

verus! {

/// A successful donation raises the campaign's total and the donor's
/// cumulative amount by exactly the amount given, and the donor count by one
/// on the donor's first donation and by zero after that.
pub proof fn donation_accounting(
    before: CrowdfundingContract,
    after: CrowdfundingContract,
    id: CampaignId,
    donor: Address,
    asset: Address,
    amount: i128,
    now: u64,
)
    requires
        before.wf(),
        after.wf(),
        before.donate_error(id, donor@, asset@, amount, now) is None,
        CrowdfundingContract::donated(before, after, id, donor, amount, now),
    ensures
        after.has_campaign(id),
        after.campaign(id).details.total_raised == before.campaign(id).details.total_raised
            + amount,
        after.campaign(id).metrics.total_raised == before.campaign(id).metrics.total_raised
            + amount,
        after.contribution_of(id, donor@) == before.contribution_of(id, donor@) + amount,
        after.campaign(id).metrics.contributor_count == before.campaign(
            id,
        ).metrics.contributor_count + if before.contribution_of(id, donor@) == 0 {
            1int
        } else {
            0int
        },
{
    let i = before.campaign_index(id);
    assert(after.campaigns@[i].details.id == before.campaigns@[i].details.id);
    lemma_campaign_position(after.campaigns@, id@, i);
    let o = before.campaigns@[i];
    let n = after.campaigns@[i];
    assert(o.wf());
    assert(n.wf());
    let j = donor_index(o.contributions@, donor@);
    lemma_sum_bounds(o.contributions@, donated_amount());
    if j < 0 {
        lemma_donor_index(n.contributions@, donor@, o.contributions@.len() as int);
    } else {
        assert(donated_amount()(o.contributions@[j]) == o.contributions@[j].amount);
        if exists|k: int| 0 <= k < o.contributions@.len() && o.contributions@[k].contributor@ == donor@ {
            assert(o.contributions@[j].contributor@ == donor@);
        }
        assert(o.contributions@[j].amount > 0);
        lemma_donor_index(n.contributions@, donor@, j);
    }
}

/// Whether a campaign counts as completed (its balance against its goal) and
/// whether its recorded total has reached its goal always agree.
pub proof fn completion_matches_total(s: CrowdfundingContract, id: CampaignId)
    requires
        s.wf(),
        s.has_campaign(id),
    ensures
        (s.campaign(id).metrics.total_raised >= s.campaign(id).details.goal) == (s.campaign(
            id,
        ).details.total_raised >= s.campaign(id).details.goal),
{
    assert(s.campaigns@[s.campaign_index(id)].wf());
}

/// Once a live campaign's deadline has come, a donation of any positive
/// amount fails with CampaignExpired.
pub proof fn donation_after_deadline_fails(
    s: CrowdfundingContract,
    id: CampaignId,
    donor: Seq<char>,
    asset: Seq<char>,
    amount: i128,
    now: u64,
)
    requires
        s.wf(),
        !s.paused,
        s.has_campaign(id),
        amount > 0,
        now >= s.campaign(id).details.deadline,
    ensures
        s.donate_error(id, donor, asset, amount, now) == Some(CrowdfundingError::CampaignExpired),
{
}

/// Before its deadline, a donation of any positive amount to a campaign whose
/// total has reached its goal fails with CampaignAlreadyFunded.
pub proof fn donation_to_funded_campaign_fails(
    s: CrowdfundingContract,
    id: CampaignId,
    donor: Seq<char>,
    asset: Seq<char>,
    amount: i128,
    now: u64,
)
    requires
        s.wf(),
        !s.paused,
        s.has_campaign(id),
        amount > 0,
        now < s.campaign(id).details.deadline,
        s.campaign(id).details.total_raised >= s.campaign(id).details.goal,
    ensures
        s.donate_error(id, donor, asset, amount, now) == Some(
            CrowdfundingError::CampaignAlreadyFunded,
        ),
{
}

/// A successful contribution raises the pool's total and the contributor's
/// holding in the pool by exactly the amount given.
pub proof fn contribution_accounting(
    before: CrowdfundingContract,
    after: CrowdfundingContract,
    pool_id: u64,
    contributor: Address,
    asset: Address,
    amount: i128,
    is_private: bool,
    now: u64,
)
    requires
        before.wf(),
        after.wf(),
        before.contribute_error(pool_id, contributor@, amount) is None,
        CrowdfundingContract::contributed(
            before,
            after,
            pool_id,
            contributor,
            asset,
            amount,
            is_private,
            now,
        ),
    ensures
        after.has_pool(pool_id),
        after.pool(pool_id).metrics.total_raised == before.pool(pool_id).metrics.total_raised
            + amount,
        after.pool_contribution_of(pool_id, contributor@) == before.pool_contribution_of(
            pool_id,
            contributor@,
        ) + amount,
{
    let i = pool_id - 1;
    let o = before.pools@[i];
    let n = after.pools@[i];
    assert(o.wf());
    assert(n.wf());
    let j = contributor_index(o.contributions@, contributor@);
    lemma_sum_bounds(o.contributions@, contributed_amount());
    if j < 0 {
        lemma_contributor_index(n.contributions@, contributor@, o.contributions@.len() as int);
    } else {
        if exists|k: int|
            0 <= k < o.contributions@.len() && o.contributions@[k].contributor@ == contributor@ {
            assert(o.contributions@[j].contributor@ == contributor@);
        }
        assert(contributed_amount()(o.contributions@[j]) == o.contributions@[j].amount);
        lemma_contributor_index(n.contributions@, contributor@, j);
    }
}

/// A successful refund pays the contributor back exactly what they held,
/// lowers the pool's total by that amount, leaves them holding nothing, and
/// any further refund to them fails with NoContributionToRefund.
pub proof fn refund_accounting(
    before: CrowdfundingContract,
    after: CrowdfundingContract,
    pool_id: u64,
    contributor: Address,
    now: u64,
    t: Transfer,
    later: u64,
)
    requires
        before.wf(),
        after.wf(),
        before.refund_error(pool_id, contributor@, now) is None,
        CrowdfundingContract::refunded(before, after, pool_id, contributor, now, t),
        later >= now,
    ensures
        t.from == before.address,
        t.to == contributor,
        t.amount == before.pool_contribution_of(pool_id, contributor@),
        after.has_pool(pool_id),
        after.pool(pool_id).metrics.total_raised == before.pool(pool_id).metrics.total_raised
            - before.pool_contribution_of(pool_id, contributor@),
        after.pool_contribution_of(pool_id, contributor@) == 0,
        after.refund_error(pool_id, contributor@, later) == Some(
            CrowdfundingError::NoContributionToRefund,
        ),
{
    let i = pool_id - 1;
    let o = before.pools@[i];
    let n = after.pools@[i];
    assert(o.wf());
    assert(n.wf());
    let j = contributor_index(o.contributions@, contributor@);
    lemma_sum_bounds(o.contributions@, contributed_amount());
    assert(j >= 0);
    if exists|k: int|
        0 <= k < o.contributions@.len() && o.contributions@[k].contributor@ == contributor@ {
        assert(o.contributions@[j].contributor@ == contributor@);
    }
    assert(contributed_amount()(o.contributions@[j]) == o.contributions@[j].amount);
    lemma_contributor_index(n.contributions@, contributor@, j);
}

/// A completed or cancelled pool rejects every state update, to any state,
/// its own included, with InvalidPoolState.
pub proof fn frozen_pool_rejects_updates(s: CrowdfundingContract, pool_id: u64, target: PoolState)
    requires
        !s.paused,
        s.has_pool(pool_id),
        s.pool(pool_id).state == PoolState::Completed || s.pool(pool_id).state
            == PoolState::Cancelled,
    ensures
        !state_update_allowed(s.pool(pool_id).state, target),
        s.update_pool_state_error(pool_id, target) == Some(CrowdfundingError::InvalidPoolState),
{
}

/// On an initialized ledger, closing an existing pool succeeds exactly when
/// the pool is disbursed or cancelled and the caller is the administrator.
pub proof fn close_pool_condition(s: CrowdfundingContract, pool_id: u64, caller: Seq<char>)
    requires
        s.has_pool(pool_id),
        s.config is Some,
    ensures
        (s.close_pool_error(pool_id, caller) is None) <==> ((s.pool(pool_id).state
            == PoolState::Disbursed || s.pool(pool_id).state == PoolState::Cancelled) && caller
            == s.admin()@),
{
}

/// After a pool is closed it reads as closed, and closing it again fails with
/// PoolAlreadyClosed, whoever asks.
pub proof fn closed_pool_stays_closed(
    before: CrowdfundingContract,
    after: CrowdfundingContract,
    pool_id: u64,
    event: Event,
    caller: Seq<char>,
)
    requires
        before.has_pool(pool_id),
        CrowdfundingContract::pool_state_set(before, after, pool_id, PoolState::Closed, event),
    ensures
        after.has_pool(pool_id),
        after.pool(pool_id).state == PoolState::Closed,
        after.close_pool_error(pool_id, caller) == Some(CrowdfundingError::PoolAlreadyClosed),
{
}

/// While a withdrawal request is pending, the administrator cannot file
/// another, and cannot execute it before its delay has passed.
pub proof fn pending_withdrawal_guards(
    s: CrowdfundingContract,
    w: EmergencyWithdrawal,
    caller: Seq<char>,
    now: u64,
)
    requires
        s.wf(),
        s.config is Some,
        caller == s.admin()@,
        s.emergency_withdrawal == Some(w),
        now < w.requested_at + EMERGENCY_WITHDRAWAL_DELAY,
    ensures
        s.request_emergency_withdraw_error(caller) == Some(
            CrowdfundingError::EmergencyWithdrawalAlreadyRequested,
        ),
        s.execute_emergency_withdraw_error(caller, now) == Some(
            CrowdfundingError::EmergencyWithdrawalPeriodNotPassed,
        ),
{
}

} // verus!
