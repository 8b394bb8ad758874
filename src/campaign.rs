use vstd::prelude::*;

use crate::contract::{
    campaign_raised, donated_amount, donor_index, find_donor,
    CampaignRecord, CrowdfundingContract,
};
use crate::errors::CrowdfundingError;
use crate::events::Event;
use crate::ledger::{lemma_sum_bounds, lemma_sum_push, lemma_sum_update};
use crate::types::{
    string_is_empty, Address, CampaignDetails, CampaignId, CampaignMetrics, Contribution, Transfer,
};

verus! {

impl CrowdfundingContract {
    /// The error that `create_campaign` reports on these arguments, if any.
    pub open spec fn create_campaign_error(
        &self,
        id: CampaignId,
        title: Seq<char>,
        goal: i128,
        deadline: u64,
        creator_balance: i128,
        now: u64,
    ) -> Option<CrowdfundingError> {
        if self.paused {
            Some(CrowdfundingError::ContractPaused)
        } else if title.len() == 0 {
            Some(CrowdfundingError::InvalidTitle)
        } else if goal <= 0 {
            Some(CrowdfundingError::InvalidGoal)
        } else if deadline <= now {
            Some(CrowdfundingError::InvalidDeadline)
        } else if self.creation_fee() > 0 && creator_balance < self.creation_fee() {
            Some(CrowdfundingError::InsufficientBalance)
        } else if self.has_campaign(id) {
            Some(CrowdfundingError::CampaignAlreadyExists)
        } else {
            None
        }
    }

    /// Opens a campaign. `creator_balance` is the creator's balance in the
    /// configured token; it is read only when a creation fee is configured,
    /// and the fee transfer to carry out is then returned.
    pub fn create_campaign(
        &mut self,
        id: CampaignId,
        title: String,
        creator: Address,
        goal: i128,
        deadline: u64,
        token_address: Address,
        creator_balance: i128,
        now: u64,
    ) -> (r: Result<Option<Transfer>, CrowdfundingError>)
        requires
            old(self).wf(),
        ensures
            final(self).wf(),
            match r {
                Err(e) => {
                    &&& *final(self) == *old(self)
                    &&& old(self).create_campaign_error(
                        id,
                        title@,
                        goal,
                        deadline,
                        creator_balance,
                        now,
                    ) == Some(e)
                },
                Ok(t) => {
                    let n = final(self).campaigns@.last();
                    &&& old(self).create_campaign_error(
                        id,
                        title@,
                        goal,
                        deadline,
                        creator_balance,
                        now,
                    ) is None
                    &&& final(self).same_settings(old(self))
                    &&& final(self).pools == old(self).pools
                    &&& final(self).campaigns@.len() == old(self).campaigns@.len() + 1
                    &&& forall|k: int|
                        0 <= k < old(self).campaigns@.len() ==> final(self).campaigns@[k]
                            == old(self).campaigns@[k]
                    &&& n.details == (CampaignDetails {
                        id,
                        title,
                        creator,
                        goal,
                        deadline,
                        total_raised: 0,
                        token_address,
                    })
                    &&& n.metrics == (CampaignMetrics {
                        total_raised: 0,
                        contributor_count: 0,
                        last_donation_at: 0,
                    })
                    &&& n.contributions@.len() == 0
                    &&& if old(self).creation_fee() > 0 {
                        &&& t == Some(
                            (Transfer {
                                token: old(self).config->Some_0.token,
                                from: creator,
                                to: old(self).address,
                                amount: old(self).creation_fee(),
                            }),
                        )
                        &&& final(self).events@ == old(self).events@.push(
                            (Event::CreationFeePaid { creator, amount: old(self).creation_fee() }),
                        ).push((Event::CampaignCreated { id, title, creator, goal, deadline }))
                    } else {
                        &&& t is None
                        &&& final(self).events@ == old(self).events@.push(
                            (Event::CampaignCreated { id, title, creator, goal, deadline }),
                        )
                    }
                },
            },
    {
        if self.paused {
            return Err(CrowdfundingError::ContractPaused);
        }
        if string_is_empty(&title) {
            return Err(CrowdfundingError::InvalidTitle);
        }
        if goal <= 0 {
            return Err(CrowdfundingError::InvalidGoal);
        }
        if deadline <= now {
            return Err(CrowdfundingError::InvalidDeadline);
        }
        let transfer: Option<Transfer> = match &self.config {
            Some(c) => {
                if c.creation_fee > 0 {
                    if creator_balance < c.creation_fee {
                        return Err(CrowdfundingError::InsufficientBalance);
                    }
                    Some(
                        Transfer {
                            token: c.token.clone(),
                            from: creator.clone(),
                            to: self.address.clone(),
                            amount: c.creation_fee,
                        },
                    )
                } else {
                    None
                }
            },
            None => None,
        };
        if self.find_campaign(&id).is_some() {
            return Err(CrowdfundingError::CampaignAlreadyExists);
        }
        match &transfer {
            Some(t) => {
                self.events.push(Event::CreationFeePaid { creator: creator.clone(), amount: t.amount });
            },
            None => {},
        }
        self.events.push(
            Event::CampaignCreated { id, title: title.clone(), creator: creator.clone(), goal, deadline },
        );
        let ghost old_campaigns = self.campaigns@;
        let record = CampaignRecord {
            details: CampaignDetails {
                id,
                title,
                creator,
                goal,
                deadline,
                total_raised: 0,
                token_address,
            },
            metrics: CampaignMetrics::new(),
            contributions: Vec::new(),
        };
        self.campaigns.push(record);
        proof {
            assert(campaign_raised(self.campaigns@.last().contributions@) == 0);
            assert forall|k: int| 0 <= k < self.campaigns@.len() implies #[trigger] self.campaigns@[k].wf() by {
                if k < old_campaigns.len() {
                    assert(self.campaigns@[k] == old_campaigns[k]);
                }
            }
            assert forall|a: int, b: int|
                0 <= a < self.campaigns@.len() && 0 <= b < self.campaigns@.len() && a != b
                implies self.campaigns@[a].details.id@ != self.campaigns@[b].details.id@ by {
                if a < old_campaigns.len() && b < old_campaigns.len() {
                    assert(self.campaigns@[a] == old_campaigns[a]);
                    assert(self.campaigns@[b] == old_campaigns[b]);
                } else if a < old_campaigns.len() {
                    assert(self.campaigns@[a] == old_campaigns[a]);
                } else {
                    assert(self.campaigns@[b] == old_campaigns[b]);
                }
            }
        }
        Ok(transfer)
    }

    /// The error that `donate` reports on these arguments, if any.
    pub open spec fn donate_error(
        &self,
        id: CampaignId,
        donor: Seq<char>,
        asset: Seq<char>,
        amount: i128,
        now: u64,
    ) -> Option<CrowdfundingError> {
        let c = self.campaign(id);
        if self.paused {
            Some(CrowdfundingError::ContractPaused)
        } else if amount <= 0 {
            Some(CrowdfundingError::InvalidDonationAmount)
        } else if !self.has_campaign(id) {
            Some(CrowdfundingError::CampaignNotFound)
        } else if now >= c.details.deadline {
            Some(CrowdfundingError::CampaignExpired)
        } else if c.details.total_raised >= c.details.goal {
            Some(CrowdfundingError::CampaignAlreadyFunded)
        } else if asset != c.details.token_address@ {
            Some(CrowdfundingError::TokenTransferFailed)
        } else if c.details.total_raised + amount > i128::MAX {
            Some(CrowdfundingError::ArithmeticOverflow)
        } else if donor_index(c.contributions@, donor) < 0 && c.metrics.contributor_count
            == u32::MAX {
            Some(CrowdfundingError::ArithmeticOverflow)
        } else {
            None
        }
    }

    /// How a successful `donate` changes the ledger: the campaign's totals and
    /// the donor's cumulative amount grow by `amount`, the donor count grows by
    /// one on the donor's first donation, and the donation is announced.
    pub open spec fn donated(
        old_state: Self,
        new_state: Self,
        id: CampaignId,
        donor: Address,
        amount: i128,
        now: u64,
    ) -> bool {
        let i = old_state.campaign_index(id);
        let o = old_state.campaigns@[i];
        let n = new_state.campaigns@[i];
        let j = donor_index(o.contributions@, donor@);
        let total = (o.details.total_raised + amount) as i128;
        &&& new_state.same_settings(&old_state)
        &&& new_state.pools == old_state.pools
        &&& new_state.campaigns@.len() == old_state.campaigns@.len()
        &&& forall|k: int|
            0 <= k < old_state.campaigns@.len() && k != i ==> new_state.campaigns@[k]
                == old_state.campaigns@[k]
        &&& n.details == (CampaignDetails { total_raised: total, ..o.details })
        &&& n.metrics == (CampaignMetrics {
            total_raised: total,
            contributor_count: if j < 0 {
                (o.metrics.contributor_count + 1) as u32
            } else {
                o.metrics.contributor_count
            },
            last_donation_at: now,
        })
        &&& n.contributions@ == if j < 0 {
            o.contributions@.push((Contribution { contributor: donor, amount }))
        } else {
            o.contributions@.update(
                j,
                (Contribution {
                    contributor: o.contributions@[j].contributor,
                    amount: (o.contributions@[j].amount + amount) as i128,
                }),
            )
        }
        &&& new_state.events@ == old_state.events@.push(
            (Event::DonationMade { campaign_id: id, contributor: donor, amount }),
        )
    }

    /// Records a donation of `amount` of `asset` from `donor`, whose
    /// authorization the caller has checked. Returns the transfer from the
    /// donor to the ledger that must be carried out for the donation to stand.
    pub fn donate(
        &mut self,
        campaign_id: CampaignId,
        donor: Address,
        asset: Address,
        amount: i128,
        now: u64,
    ) -> (r: Result<Transfer, CrowdfundingError>)
        requires
            old(self).wf(),
        ensures
            final(self).wf(),
            match r {
                Err(e) => {
                    &&& *final(self) == *old(self)
                    &&& old(self).donate_error(campaign_id, donor@, asset@, amount, now) == Some(e)
                },
                Ok(t) => {
                    &&& old(self).donate_error(campaign_id, donor@, asset@, amount, now) is None
                    &&& Self::donated(*old(self), *final(self), campaign_id, donor, amount, now)
                    &&& t == (Transfer { token: asset, from: donor, to: old(self).address, amount })
                },
            },
    {
        if self.paused {
            return Err(CrowdfundingError::ContractPaused);
        }
        if amount <= 0 {
            return Err(CrowdfundingError::InvalidDonationAmount);
        }
        let i = match self.find_campaign(&campaign_id) {
            Some(i) => i,
            None => {
                return Err(CrowdfundingError::CampaignNotFound);
            },
        };
        let total = self.campaigns[i].details.total_raised;
        if now >= self.campaigns[i].details.deadline {
            return Err(CrowdfundingError::CampaignExpired);
        }
        if total >= self.campaigns[i].details.goal {
            return Err(CrowdfundingError::CampaignAlreadyFunded);
        }
        if !(asset == self.campaigns[i].details.token_address) {
            return Err(CrowdfundingError::TokenTransferFailed);
        }
        if total > i128::MAX - amount {
            return Err(CrowdfundingError::ArithmeticOverflow);
        }
        proof {
            assert(self.campaigns@[i as int].wf());
        }
        let j = find_donor(&self.campaigns[i].contributions, &donor);
        let count = self.campaigns[i].metrics.contributor_count;
        if j.is_none() && count == u32::MAX {
            return Err(CrowdfundingError::ArithmeticOverflow);
        }
        let ghost old_campaigns = self.campaigns@;
        let ghost o = self.campaigns@[i as int];
        proof {
            assert(o.wf());
            lemma_sum_bounds(o.contributions@, donated_amount());
        }
        let transfer = Transfer {
            token: asset,
            from: donor.clone(),
            to: self.address.clone(),
            amount,
        };
        self.events.push(
            Event::DonationMade { campaign_id, contributor: donor.clone(), amount },
        );
        self.campaigns[i].details.total_raised = total + amount;
        self.campaigns[i].metrics.total_raised = total + amount;
        self.campaigns[i].metrics.last_donation_at = now;
        match j {
            Some(j) => {
                let prev = self.campaigns[i].contributions[j].amount;
                proof {
                    assert(donated_amount()(o.contributions@[j as int]) == prev);
                }
                self.campaigns[i].contributions[j].amount = prev + amount;
                proof {
                    let s = o.contributions@;
                    let c = Contribution { contributor: s[j as int].contributor, amount: (prev + amount) as i128 };
                    assert(self.campaigns@[i as int].contributions@ =~= s.update(j as int, c));
                    lemma_sum_update(s, j as int, c, donated_amount());
                }
            },
            None => {
                self.campaigns[i].metrics.contributor_count = count + 1;
                self.campaigns[i].contributions.push(Contribution { contributor: donor, amount });
                proof {
                    let s = o.contributions@;
                    let c = Contribution { contributor: donor, amount };
                    lemma_sum_push(s, c, donated_amount());
                }
            },
        }
        proof {
            let n = self.campaigns@[i as int];
            assert(n.wf());
            assert forall|k: int| 0 <= k < self.campaigns@.len() implies #[trigger] self.campaigns@[k].wf() by {
                if k != i {
                    assert(self.campaigns@[k] == old_campaigns[k]);
                }
            }
            assert forall|a: int, b: int|
                0 <= a < self.campaigns@.len() && 0 <= b < self.campaigns@.len() && a != b
                implies self.campaigns@[a].details.id@ != self.campaigns@[b].details.id@ by {
                assert(self.campaigns@[a].details.id == old_campaigns[a].details.id);
                assert(self.campaigns@[b].details.id == old_campaigns[b].details.id);
            }
        }
        Ok(transfer)
    }

    pub fn get_campaign(&self, id: CampaignId) -> (r: Result<CampaignDetails, CrowdfundingError>)
        requires
            self.wf(),
        ensures
            match r {
                Ok(d) => self.has_campaign(id) && d == self.campaign(id).details,
                Err(e) => !self.has_campaign(id) && e == CrowdfundingError::CampaignNotFound,
            },
    {
        match self.find_campaign(&id) {
            Some(i) => Ok(self.campaigns[i].details.clone()),
            None => Err(CrowdfundingError::CampaignNotFound),
        }
    }

    /// The ids of all campaigns, in order of creation.
    pub fn get_all_campaigns(&self) -> (r: Vec<CampaignId>)
        ensures
            r@.len() == self.campaigns@.len(),
            forall|k: int| 0 <= k < r@.len() ==> r@[k] == self.campaigns@[k].details.id,
    {
        let mut r: Vec<CampaignId> = Vec::new();
        let mut i: usize = 0;
        while i < self.campaigns.len()
            invariant
                i <= self.campaigns@.len(),
                r@.len() == i,
                forall|k: int| 0 <= k < i ==> r@[k] == self.campaigns@[k].details.id,
            decreases self.campaigns@.len() - i,
        {
            r.push(self.campaigns[i].details.id);
            i = i + 1;
        }
        r
    }

    /// The number of distinct donors of the campaign.
    pub fn get_donor_count(&self, campaign_id: CampaignId) -> (r: Result<u32, CrowdfundingError>)
        requires
            self.wf(),
        ensures
            match r {
                Ok(n) => self.has_campaign(campaign_id) && n == self.campaign(
                    campaign_id,
                ).metrics.contributor_count,
                Err(e) => !self.has_campaign(campaign_id) && e
                    == CrowdfundingError::CampaignNotFound,
            },
    {
        match self.find_campaign(&campaign_id) {
            Some(i) => Ok(self.campaigns[i].metrics.contributor_count),
            None => Err(CrowdfundingError::CampaignNotFound),
        }
    }

    /// The total raised, as the campaign's metrics hold it.
    pub fn get_campaign_balance(&self, campaign_id: CampaignId) -> (r: Result<
        i128,
        CrowdfundingError,
    >)
        requires
            self.wf(),
        ensures
            match r {
                Ok(n) => self.has_campaign(campaign_id) && n == self.campaign(
                    campaign_id,
                ).metrics.total_raised,
                Err(e) => !self.has_campaign(campaign_id) && e
                    == CrowdfundingError::CampaignNotFound,
            },
    {
        match self.find_campaign(&campaign_id) {
            Some(i) => Ok(self.campaigns[i].metrics.total_raised),
            None => Err(CrowdfundingError::CampaignNotFound),
        }
    }

    /// The total raised, as the campaign record holds it.
    pub fn get_total_raised(&self, campaign_id: CampaignId) -> (r: Result<i128, CrowdfundingError>)
        requires
            self.wf(),
        ensures
            match r {
                Ok(n) => self.has_campaign(campaign_id) && n == self.campaign(
                    campaign_id,
                ).details.total_raised,
                Err(e) => !self.has_campaign(campaign_id) && e
                    == CrowdfundingError::CampaignNotFound,
            },
    {
        match self.find_campaign(&campaign_id) {
            Some(i) => Ok(self.campaigns[i].details.total_raised),
            None => Err(CrowdfundingError::CampaignNotFound),
        }
    }

    /// What `contributor` has given to the campaign so far; zero for one who
    /// never gave.
    pub fn get_contribution(&self, campaign_id: CampaignId, contributor: &Address) -> (r: Result<
        i128,
        CrowdfundingError,
    >)
        requires
            self.wf(),
        ensures
            match r {
                Ok(n) => self.has_campaign(campaign_id) && n == self.contribution_of(
                    campaign_id,
                    contributor@,
                ),
                Err(e) => !self.has_campaign(campaign_id) && e
                    == CrowdfundingError::CampaignNotFound,
            },
    {
        match self.find_campaign(&campaign_id) {
            Some(i) => {
                proof {
                    assert(self.campaigns@[i as int].wf());
                }
                match find_donor(&self.campaigns[i].contributions, contributor) {
                    Some(j) => Ok(self.campaigns[i].contributions[j].amount),
                    None => Ok(0),
                }
            },
            None => Err(CrowdfundingError::CampaignNotFound),
        }
    }

    pub fn get_campaign_goal(&self, campaign_id: CampaignId) -> (r: Result<i128, CrowdfundingError>)
        requires
            self.wf(),
        ensures
            match r {
                Ok(n) => self.has_campaign(campaign_id) && n == self.campaign(
                    campaign_id,
                ).details.goal,
                Err(e) => !self.has_campaign(campaign_id) && e
                    == CrowdfundingError::CampaignNotFound,
            },
    {
        match self.find_campaign(&campaign_id) {
            Some(i) => Ok(self.campaigns[i].details.goal),
            None => Err(CrowdfundingError::CampaignNotFound),
        }
    }

    /// Whether the campaign's balance has reached its goal.
    pub fn is_campaign_completed(&self, campaign_id: CampaignId) -> (r: Result<
        bool,
        CrowdfundingError,
    >)
        requires
            self.wf(),
        ensures
            match r {
                Ok(b) => self.has_campaign(campaign_id) && b == (self.campaign(
                    campaign_id,
                ).metrics.total_raised >= self.campaign(campaign_id).details.goal),
                Err(e) => !self.has_campaign(campaign_id) && e
                    == CrowdfundingError::CampaignNotFound,
            },
    {
        match self.find_campaign(&campaign_id) {
            Some(i) => Ok(self.campaigns[i].metrics.total_raised >= self.campaigns[i].details.goal),
            None => Err(CrowdfundingError::CampaignNotFound),
        }
    }
}

} // verus!
