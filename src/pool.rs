use vstd::prelude::*;

use crate::contract::{
    contributed_amount, contributor_index, find_contributor, pool_raised, CrowdfundingContract,
    PoolRecord,
};
use crate::errors::CrowdfundingError;
use crate::events::Event;
use crate::ledger::{lemma_sum_bounds, lemma_sum_push, lemma_sum_update};
use crate::types::{
    string_byte_len, string_is_empty, Address, MultiSigConfig, PoolConfig, PoolContribution,
    PoolMetadata, PoolMetrics, PoolState, MAX_DESCRIPTION_LENGTH, MAX_HASH_LENGTH, MAX_URL_LENGTH,
    REFUND_GRACE_PERIOD, Transfer,
};

verus! {

/// The transition table of `update_pool_state`: a completed or cancelled pool
/// is frozen, and no pool is closed this way.
pub open spec fn state_update_allowed(from: PoolState, to: PoolState) -> bool {
    match from {
        PoolState::Completed => false,
        PoolState::Cancelled => false,
        _ => to != PoolState::Closed,
    }
}

pub fn can_update_state(from: PoolState, to: PoolState) -> (r: bool)
    ensures
        r == state_update_allowed(from, to),
{
    match from {
        PoolState::Completed => false,
        PoolState::Cancelled => false,
        _ => match to {
            PoolState::Closed => false,
            _ => true,
        },
    }
}

/// The pools other than the one at index `i` are unchanged.
pub open spec fn pools_same_except(old_pools: Seq<PoolRecord>, new_pools: Seq<PoolRecord>, i: int) -> bool {
    &&& new_pools.len() == old_pools.len()
    &&& forall|k: int| 0 <= k < old_pools.len() && k != i ==> new_pools[k] == old_pools[k]
}

/// The error that the signer settings of `save_pool` give, if any: both or
/// neither must be present, and the threshold must lie between one and the
/// number of signers.
pub open spec fn multi_sig_error(required_signatures: Option<u32>, signers: Option<Seq<Address>>) -> Option<
    CrowdfundingError,
> {
    match (required_signatures, signers) {
        (Some(req), Some(list)) => {
            if req == 0 || req > list.len() {
                Some(CrowdfundingError::InvalidMultiSigConfig)
            } else if list.len() == 0 {
                Some(CrowdfundingError::InvalidSignerCount)
            } else {
                None
            }
        },
        (None, None) => None,
        _ => Some(CrowdfundingError::InvalidMultiSigConfig),
    }
}

pub open spec fn signers_view(signers: Option<Vec<Address>>) -> Option<Seq<Address>> {
    match signers {
        Some(l) => Some(l@),
        None => None,
    }
}

impl CrowdfundingContract {
    /// The error that `save_pool` reports on these arguments, if any.
    pub open spec fn save_pool_error(
        &self,
        name: Seq<char>,
        metadata: PoolMetadata,
        target_amount: i128,
        deadline: u64,
        required_signatures: Option<u32>,
        signers: Option<Seq<Address>>,
        now: u64,
    ) -> Option<CrowdfundingError> {
        if self.paused {
            Some(CrowdfundingError::ContractPaused)
        } else if name.len() == 0 {
            Some(CrowdfundingError::InvalidPoolName)
        } else if target_amount <= 0 {
            Some(CrowdfundingError::InvalidPoolTarget)
        } else if deadline <= now {
            Some(CrowdfundingError::InvalidPoolDeadline)
        } else if !metadata.within_bounds() {
            Some(CrowdfundingError::InvalidMetadata)
        } else if multi_sig_error(required_signatures, signers) is Some {
            multi_sig_error(required_signatures, signers)
        } else if self.pools@.len() + 1 >= u64::MAX {
            Some(CrowdfundingError::PoolAlreadyExists)
        } else {
            None
        }
    }

    /// A new pool was appended with this configuration, metadata and signer
    /// set, in state Active with zero metrics and no contributions, and the
    /// rest of the ledger is as it was.
    pub open spec fn pool_appended(
        old_state: Self,
        new_state: Self,
        config: PoolConfig,
        metadata: Option<PoolMetadata>,
        multi_sig: Option<MultiSigConfig>,
    ) -> bool {
        let n = new_state.pools@.last();
        &&& new_state.same_settings(&old_state)
        &&& new_state.campaigns == old_state.campaigns
        &&& new_state.pools@.len() == old_state.pools@.len() + 1
        &&& forall|k: int|
            0 <= k < old_state.pools@.len() ==> new_state.pools@[k] == old_state.pools@[k]
        &&& n.config == config
        &&& n.metadata == metadata
        &&& n.state == PoolState::Active
        &&& n.metrics == (PoolMetrics { total_raised: 0, contributor_count: 0, last_donation_at: 0 })
        &&& n.multi_sig == multi_sig
        &&& n.contributions@.len() == 0
    }

    proof fn lemma_append_pool_wf(&self, old_state: Self)
        requires
            old_state.wf(),
            self.pools@.len() == old_state.pools@.len() + 1,
            self.pools@.len() < u64::MAX,
            forall|k: int| 0 <= k < old_state.pools@.len() ==> self.pools@[k] == old_state.pools@[k],
            self.pools@.last().wf(),
            self.same_settings(&old_state),
            self.campaigns == old_state.campaigns,
        ensures
            self.wf(),
    {
        assert forall|k: int| 0 <= k < self.pools@.len() implies #[trigger] self.pools@[k].wf() by {
            if k < old_state.pools@.len() {
                assert(self.pools@[k] == old_state.pools@[k]);
            }
        }
    }

    proof fn lemma_change_pool_wf(&self, old_state: Self, i: int)
        requires
            old_state.wf(),
            0 <= i < old_state.pools@.len(),
            pools_same_except(old_state.pools@, self.pools@, i),
            self.pools@[i].wf(),
            self.same_settings(&old_state),
            self.campaigns == old_state.campaigns,
        ensures
            self.wf(),
    {
        assert forall|k: int| 0 <= k < self.pools@.len() implies #[trigger] self.pools@[k].wf() by {
            if k != i {
                assert(self.pools@[k] == old_state.pools@[k]);
            }
        }
    }

    /// Creates a pool that ends at `deadline`, with its metadata and an
    /// optional signer set, and returns its id.
    pub fn save_pool(
        &mut self,
        name: String,
        metadata: PoolMetadata,
        creator: Address,
        target_amount: i128,
        deadline: u64,
        required_signatures: Option<u32>,
        signers: Option<Vec<Address>>,
        now: u64,
    ) -> (r: Result<u64, CrowdfundingError>)
        requires
            old(self).wf(),
        ensures
            final(self).wf(),
            match r {
                Err(e) => {
                    &&& *final(self) == *old(self)
                    &&& old(self).save_pool_error(
                        name@,
                        metadata,
                        target_amount,
                        deadline,
                        required_signatures,
                        signers_view(signers),
                        now,
                    ) == Some(e)
                },
                Ok(pool_id) => {
                    &&& old(self).save_pool_error(
                        name@,
                        metadata,
                        target_amount,
                        deadline,
                        required_signatures,
                        signers_view(signers),
                        now,
                    ) is None
                    &&& pool_id == old(self).pools@.len() + 1
                    &&& Self::pool_appended(
                        *old(self),
                        *final(self),
                        (PoolConfig {
                            name,
                            description: metadata.description,
                            target_amount,
                            is_private: false,
                            duration: (deadline - now) as u64,
                            created_at: now,
                        }),
                        Some(metadata),
                        match (required_signatures, signers) {
                            (Some(req), Some(list)) => Some(
                                (MultiSigConfig { required_signatures: req, signers: list }),
                            ),
                            _ => None,
                        },
                    )
                    &&& final(self).events@ == old(self).events@.push(
                        (Event::PoolCreated {
                            pool_id,
                            name,
                            description: metadata.description,
                            creator,
                            target_amount,
                            deadline,
                        }),
                    )
                },
            },
    {
        if self.paused {
            return Err(CrowdfundingError::ContractPaused);
        }
        if string_is_empty(&name) {
            return Err(CrowdfundingError::InvalidPoolName);
        }
        if target_amount <= 0 {
            return Err(CrowdfundingError::InvalidPoolTarget);
        }
        if deadline <= now {
            return Err(CrowdfundingError::InvalidPoolDeadline);
        }
        if string_byte_len(&metadata.description) > MAX_DESCRIPTION_LENGTH as usize
            || string_byte_len(&metadata.external_url) > MAX_URL_LENGTH as usize
            || string_byte_len(&metadata.image_hash) > MAX_HASH_LENGTH as usize {
            return Err(CrowdfundingError::InvalidMetadata);
        }
        let multi_sig: Option<MultiSigConfig> = match (required_signatures, signers) {
            (Some(req), Some(list)) => {
                if req == 0 || req as usize > list.len() {
                    return Err(CrowdfundingError::InvalidMultiSigConfig);
                }
                if list.len() == 0 {
                    return Err(CrowdfundingError::InvalidSignerCount);
                }
                Some(MultiSigConfig { required_signatures: req, signers: list })
            },
            (None, None) => None,
            _ => {
                return Err(CrowdfundingError::InvalidMultiSigConfig);
            },
        };
        if self.pools.len() as u64 >= u64::MAX - 1 {
            return Err(CrowdfundingError::PoolAlreadyExists);
        }
        let pool_id = self.pools.len() as u64 + 1;
        self.events.push(
            Event::PoolCreated {
                pool_id,
                name: name.clone(),
                description: metadata.description.clone(),
                creator,
                target_amount,
                deadline,
            },
        );
        let config = PoolConfig {
            name,
            description: metadata.description.clone(),
            target_amount,
            is_private: false,
            duration: deadline - now,
            created_at: now,
        };
        let ghost old_state = *old(self);
        self.pools.push(
            PoolRecord {
                config,
                metadata: Some(metadata),
                state: PoolState::Active,
                metrics: PoolMetrics::new(),
                multi_sig,
                contributions: Vec::new(),
            },
        );
        proof {
            assert(pool_raised(self.pools@.last().contributions@) == 0);
            self.lemma_append_pool_wf(old_state);
        }
        Ok(pool_id)
    }

    /// Creates a pool from a configuration whose deadline is
    /// `created_at + duration`, and returns its id. An invalid configuration
    /// is a caller's fault and is ruled out by the precondition.
    pub fn create_pool(&mut self, creator: Address, config: PoolConfig) -> (r: Result<
        u64,
        CrowdfundingError,
    >)
        requires
            old(self).wf(),
            config.is_valid(),
            config.created_at + config.duration <= u64::MAX,
        ensures
            final(self).wf(),
            match r {
                Err(e) => {
                    &&& *final(self) == *old(self)
                    &&& if old(self).paused {
                        e == CrowdfundingError::ContractPaused
                    } else {
                        old(self).pools@.len() + 1 >= u64::MAX && e
                            == CrowdfundingError::PoolAlreadyExists
                    }
                },
                Ok(pool_id) => {
                    &&& !old(self).paused
                    &&& old(self).pools@.len() + 1 < u64::MAX
                    &&& pool_id == old(self).pools@.len() + 1
                    &&& Self::pool_appended(*old(self), *final(self), config, None, None)
                    &&& final(self).events@ == old(self).events@.push(
                        (Event::PoolCreated {
                            pool_id,
                            name: config.name,
                            description: config.description,
                            creator,
                            target_amount: config.target_amount,
                            deadline: (config.created_at + config.duration) as u64,
                        }),
                    )
                },
            },
    {
        if self.paused {
            return Err(CrowdfundingError::ContractPaused);
        }
        if self.pools.len() as u64 >= u64::MAX - 1 {
            return Err(CrowdfundingError::PoolAlreadyExists);
        }
        let pool_id = self.pools.len() as u64 + 1;
        self.events.push(
            Event::PoolCreated {
                pool_id,
                name: config.name.clone(),
                description: config.description.clone(),
                creator,
                target_amount: config.target_amount,
                deadline: config.created_at + config.duration,
            },
        );
        let ghost old_state = *old(self);
        self.pools.push(
            PoolRecord {
                config,
                metadata: None,
                state: PoolState::Active,
                metrics: PoolMetrics::new(),
                multi_sig: None,
                contributions: Vec::new(),
            },
        );
        proof {
            assert(pool_raised(self.pools@.last().contributions@) == 0);
            self.lemma_append_pool_wf(old_state);
        }
        Ok(pool_id)
    }

    /// The pool's configuration, if the pool exists.
    pub fn get_pool(&self, pool_id: u64) -> (r: Option<PoolConfig>)
        ensures
            match r {
                Some(c) => self.has_pool(pool_id) && c == self.pool(pool_id).config,
                None => !self.has_pool(pool_id),
            },
    {
        if pool_id >= 1 && pool_id <= self.pools.len() as u64 {
            Some(self.pools[(pool_id - 1) as usize].config.clone())
        } else {
            None
        }
    }

    /// The pool's description, external URL and image hash; empty strings
    /// where the pool or its metadata is missing.
    pub fn get_pool_metadata(&self, pool_id: u64) -> (r: (String, String, String))
        ensures
            if self.has_pool(pool_id) && self.pool(pool_id).metadata is Some {
                let m = self.pool(pool_id).metadata->Some_0;
                r.0 == m.description && r.1 == m.external_url && r.2 == m.image_hash
            } else {
                r.0@.len() == 0 && r.1@.len() == 0 && r.2@.len() == 0
            },
    {
        if pool_id >= 1 && pool_id <= self.pools.len() as u64 {
            match &self.pools[(pool_id - 1) as usize].metadata {
                Some(m) => {
                    return (m.description.clone(), m.external_url.clone(), m.image_hash.clone());
                },
                None => {},
            }
        }
        (String::new(), String::new(), String::new())
    }

    /// The pool's current state, if the pool exists.
    pub fn get_pool_state(&self, pool_id: u64) -> (r: Option<PoolState>)
        ensures
            match r {
                Some(st) => self.has_pool(pool_id) && st == self.pool(pool_id).state,
                None => !self.has_pool(pool_id),
            },
    {
        if pool_id >= 1 && pool_id <= self.pools.len() as u64 {
            Some(self.pools[(pool_id - 1) as usize].state)
        } else {
            None
        }
    }

    /// The pool's metrics, if the pool exists.
    pub fn get_pool_metrics(&self, pool_id: u64) -> (r: Option<PoolMetrics>)
        ensures
            match r {
                Some(m) => self.has_pool(pool_id) && m == self.pool(pool_id).metrics,
                None => !self.has_pool(pool_id),
            },
    {
        if pool_id >= 1 && pool_id <= self.pools.len() as u64 {
            Some(self.pools[(pool_id - 1) as usize].metrics)
        } else {
            None
        }
    }

    /// What `contributor` holds in the pool now (zero after a refund, and for
    /// one who never contributed), if the pool exists.
    pub fn get_pool_contribution(&self, pool_id: u64, contributor: &Address) -> (r: Option<i128>)
        requires
            self.wf(),
        ensures
            match r {
                Some(a) => self.has_pool(pool_id) && a == self.pool_contribution_of(
                    pool_id,
                    contributor@,
                ),
                None => !self.has_pool(pool_id),
            },
    {
        if pool_id >= 1 && pool_id <= self.pools.len() as u64 {
            let i = (pool_id - 1) as usize;
            proof {
                assert(self.pools@[i as int].wf());
            }
            match find_contributor(&self.pools[i].contributions, contributor) {
                Some(j) => Some(self.pools[i].contributions[j].amount),
                None => Some(0),
            }
        } else {
            None
        }
    }

    /// The error that `update_pool_state` reports on these arguments, if any.
    pub open spec fn update_pool_state_error(&self, pool_id: u64, new_state: PoolState) -> Option<
        CrowdfundingError,
    > {
        if self.paused {
            Some(CrowdfundingError::ContractPaused)
        } else if !self.has_pool(pool_id) {
            Some(CrowdfundingError::PoolNotFound)
        } else if !state_update_allowed(self.pool(pool_id).state, new_state) {
            Some(CrowdfundingError::InvalidPoolState)
        } else {
            None
        }
    }

    /// Only the state of the pool `pool_id` changed, to `new_state`, and
    /// `event` was announced.
    pub open spec fn pool_state_set(
        old_state: Self,
        new_state: Self,
        pool_id: u64,
        st: PoolState,
        event: Event,
    ) -> bool {
        let i = pool_id - 1;
        &&& new_state.same_settings(&old_state)
        &&& new_state.campaigns == old_state.campaigns
        &&& pools_same_except(old_state.pools@, new_state.pools@, i)
        &&& new_state.pools@[i] == (PoolRecord { state: st, ..old_state.pools@[i] })
        &&& new_state.events@ == old_state.events@.push(event)
    }

    /// Moves a pool to `new_state`, where the transition table allows it.
    pub fn update_pool_state(&mut self, pool_id: u64, new_state: PoolState) -> (r: Result<
        (),
        CrowdfundingError,
    >)
        requires
            old(self).wf(),
        ensures
            final(self).wf(),
            match r {
                Err(e) => {
                    &&& *final(self) == *old(self)
                    &&& old(self).update_pool_state_error(pool_id, new_state) == Some(e)
                },
                Ok(_) => {
                    &&& old(self).update_pool_state_error(pool_id, new_state) is None
                    &&& Self::pool_state_set(
                        *old(self),
                        *final(self),
                        pool_id,
                        new_state,
                        (Event::PoolStateUpdated { pool_id, new_state }),
                    )
                },
            },
    {
        if self.paused {
            return Err(CrowdfundingError::ContractPaused);
        }
        if pool_id < 1 || pool_id > self.pools.len() as u64 {
            return Err(CrowdfundingError::PoolNotFound);
        }
        let i = (pool_id - 1) as usize;
        if !can_update_state(self.pools[i].state, new_state) {
            return Err(CrowdfundingError::InvalidPoolState);
        }
        let ghost old_state = *old(self);
        self.pools[i].state = new_state;
        self.events.push(Event::PoolStateUpdated { pool_id, new_state });
        proof {
            assert(self.pools@[i as int] == (PoolRecord { state: new_state, ..old_state.pools@[i as int] }));
            assert(old_state.pools@[i as int].wf());
            self.lemma_change_pool_wf(old_state, i as int);
        }
        Ok(())
    }

    /// The error that `close_pool` reports on these arguments, if any.
    pub open spec fn close_pool_error(&self, pool_id: u64, caller: Seq<char>) -> Option<
        CrowdfundingError,
    > {
        let st = self.pool(pool_id).state;
        if !self.has_pool(pool_id) {
            Some(CrowdfundingError::PoolNotFound)
        } else if st == PoolState::Closed {
            Some(CrowdfundingError::PoolAlreadyClosed)
        } else if st != PoolState::Disbursed && st != PoolState::Cancelled {
            Some(CrowdfundingError::PoolNotDisbursedOrRefunded)
        } else if self.config is None {
            Some(CrowdfundingError::NotInitialized)
        } else if caller != self.config->Some_0.admin@ {
            Some(CrowdfundingError::Unauthorized)
        } else {
            None
        }
    }

    /// Closes a disbursed or cancelled pool; only the administrator may.
    pub fn close_pool(&mut self, pool_id: u64, caller: Address, now: u64) -> (r: Result<
        (),
        CrowdfundingError,
    >)
        requires
            old(self).wf(),
        ensures
            final(self).wf(),
            match r {
                Err(e) => {
                    &&& *final(self) == *old(self)
                    &&& old(self).close_pool_error(pool_id, caller@) == Some(e)
                },
                Ok(_) => {
                    &&& old(self).close_pool_error(pool_id, caller@) is None
                    &&& Self::pool_state_set(
                        *old(self),
                        *final(self),
                        pool_id,
                        PoolState::Closed,
                        (Event::PoolClosed { pool_id, closed_by: caller, timestamp: now }),
                    )
                },
            },
    {
        if pool_id < 1 || pool_id > self.pools.len() as u64 {
            return Err(CrowdfundingError::PoolNotFound);
        }
        let i = (pool_id - 1) as usize;
        let st = self.pools[i].state;
        if st == PoolState::Closed {
            return Err(CrowdfundingError::PoolAlreadyClosed);
        }
        if st != PoolState::Disbursed && st != PoolState::Cancelled {
            return Err(CrowdfundingError::PoolNotDisbursedOrRefunded);
        }
        match &self.config {
            None => {
                return Err(CrowdfundingError::NotInitialized);
            },
            Some(c) => {
                if !(caller == c.admin) {
                    return Err(CrowdfundingError::Unauthorized);
                }
            },
        }
        let ghost old_state = *old(self);
        self.pools[i].state = PoolState::Closed;
        self.events.push(Event::PoolClosed { pool_id, closed_by: caller, timestamp: now });
        proof {
            assert(self.pools@[i as int] == (PoolRecord { state: PoolState::Closed, ..old_state.pools@[i as int] }));
            assert(old_state.pools@[i as int].wf());
            self.lemma_change_pool_wf(old_state, i as int);
        }
        Ok(())
    }

    /// Whether the pool has been closed.
    pub fn is_closed(&self, pool_id: u64) -> (r: Result<bool, CrowdfundingError>)
        ensures
            match r {
                Ok(b) => self.has_pool(pool_id) && b == (self.pool(pool_id).state
                    == PoolState::Closed),
                Err(e) => !self.has_pool(pool_id) && e == CrowdfundingError::PoolNotFound,
            },
    {
        if pool_id < 1 || pool_id > self.pools.len() as u64 {
            return Err(CrowdfundingError::PoolNotFound);
        }
        Ok(self.pools[(pool_id - 1) as usize].state == PoolState::Closed)
    }

    /// The error that `contribute` reports on these arguments, if any.
    pub open spec fn contribute_error(
        &self,
        pool_id: u64,
        contributor: Seq<char>,
        amount: i128,
    ) -> Option<CrowdfundingError> {
        let p = self.pool(pool_id);
        if self.paused {
            Some(CrowdfundingError::ContractPaused)
        } else if amount <= 0 {
            Some(CrowdfundingError::InvalidAmount)
        } else if !self.has_pool(pool_id) {
            Some(CrowdfundingError::PoolNotFound)
        } else if p.state != PoolState::Active {
            Some(CrowdfundingError::InvalidPoolState)
        } else if p.metrics.total_raised + amount > i128::MAX {
            Some(CrowdfundingError::ArithmeticOverflow)
        } else if self.pool_contribution_of(pool_id, contributor) == 0
            && p.metrics.contributor_count == u32::MAX {
            Some(CrowdfundingError::ArithmeticOverflow)
        } else {
            None
        }
    }

    /// How a successful `contribute` changes the ledger: the pool's total and
    /// the contributor's cumulative amount grow by `amount`, the contributor
    /// count grows by one when the contributor held nothing in the pool, the
    /// asset is remembered for refunds, and the contribution is announced.
    pub open spec fn contributed(
        old_state: Self,
        new_state: Self,
        pool_id: u64,
        contributor: Address,
        asset: Address,
        amount: i128,
        is_private: bool,
        now: u64,
    ) -> bool {
        let i = pool_id - 1;
        let o = old_state.pools@[i];
        let n = new_state.pools@[i];
        let j = contributor_index(o.contributions@, contributor@);
        let prior = old_state.pool_contribution_of(pool_id, contributor@);
        &&& new_state.same_settings(&old_state)
        &&& new_state.campaigns == old_state.campaigns
        &&& pools_same_except(old_state.pools@, new_state.pools@, i)
        &&& n.config == o.config
        &&& n.metadata == o.metadata
        &&& n.state == o.state
        &&& n.multi_sig == o.multi_sig
        &&& n.metrics == (PoolMetrics {
            total_raised: (o.metrics.total_raised + amount) as i128,
            contributor_count: if prior == 0 {
                (o.metrics.contributor_count + 1) as u32
            } else {
                o.metrics.contributor_count
            },
            last_donation_at: now,
        })
        &&& n.contributions@ == if j < 0 {
            o.contributions@.push((PoolContribution { contributor, amount, asset }))
        } else {
            o.contributions@.update(
                j,
                (PoolContribution {
                    contributor: o.contributions@[j].contributor,
                    amount: (prior + amount) as i128,
                    asset,
                }),
            )
        }
        &&& new_state.events@ == old_state.events@.push(
            (Event::Contribution {
                pool_id,
                contributor,
                asset,
                amount,
                timestamp: now,
                is_private,
            }),
        )
    }

    /// Records a contribution of `amount` of `asset` to an active pool from
    /// `contributor`, whose authorization the caller has checked. Returns the
    /// transfer from the contributor to the ledger that must be carried out.
    pub fn contribute(
        &mut self,
        pool_id: u64,
        contributor: Address,
        asset: Address,
        amount: i128,
        is_private: bool,
        now: u64,
    ) -> (r: Result<Transfer, CrowdfundingError>)
        requires
            old(self).wf(),
        ensures
            final(self).wf(),
            match r {
                Err(e) => {
                    &&& *final(self) == *old(self)
                    &&& old(self).contribute_error(pool_id, contributor@, amount) == Some(e)
                },
                Ok(t) => {
                    &&& old(self).contribute_error(pool_id, contributor@, amount) is None
                    &&& Self::contributed(
                        *old(self),
                        *final(self),
                        pool_id,
                        contributor,
                        asset,
                        amount,
                        is_private,
                        now,
                    )
                    &&& t == (Transfer {
                        token: asset,
                        from: contributor,
                        to: old(self).address,
                        amount,
                    })
                },
            },
    {
        if self.paused {
            return Err(CrowdfundingError::ContractPaused);
        }
        if amount <= 0 {
            return Err(CrowdfundingError::InvalidAmount);
        }
        if pool_id < 1 || pool_id > self.pools.len() as u64 {
            return Err(CrowdfundingError::PoolNotFound);
        }
        let i = (pool_id - 1) as usize;
        if self.pools[i].state != PoolState::Active {
            return Err(CrowdfundingError::InvalidPoolState);
        }
        let total = self.pools[i].metrics.total_raised;
        if total > i128::MAX - amount {
            return Err(CrowdfundingError::ArithmeticOverflow);
        }
        let ghost old_state = *old(self);
        let ghost o = self.pools@[i as int];
        proof {
            assert(o.wf());
            lemma_sum_bounds(o.contributions@, contributed_amount());
        }
        let j = find_contributor(&self.pools[i].contributions, &contributor);
        let prior: i128 = match j {
            Some(j) => self.pools[i].contributions[j].amount,
            None => 0,
        };
        let count = self.pools[i].metrics.contributor_count;
        if prior == 0 && count == u32::MAX {
            return Err(CrowdfundingError::ArithmeticOverflow);
        }
        proof {
            if j is Some {
                assert(contributed_amount()(o.contributions@[j->Some_0 as int]) == prior);
            }
        }
        let transfer = Transfer {
            token: asset.clone(),
            from: contributor.clone(),
            to: self.address.clone(),
            amount,
        };
        self.events.push(
            Event::Contribution {
                pool_id,
                contributor: contributor.clone(),
                asset: asset.clone(),
                amount,
                timestamp: now,
                is_private,
            },
        );
        if prior == 0 {
            self.pools[i].metrics.contributor_count = count + 1;
        }
        self.pools[i].metrics.total_raised = total + amount;
        self.pools[i].metrics.last_donation_at = now;
        match j {
            Some(j) => {
                let c = PoolContribution {
                    contributor: self.pools[i].contributions[j].contributor.clone(),
                    amount: prior + amount,
                    asset,
                };
                proof {
                    lemma_sum_update(o.contributions@, j as int, c, contributed_amount());
                }
                self.pools[i].contributions.set(j, c);
            },
            None => {
                let c = PoolContribution { contributor, amount, asset };
                proof {
                    lemma_sum_push(o.contributions@, c, contributed_amount());
                }
                self.pools[i].contributions.push(c);
            },
        }
        proof {
            assert(self.pools@[i as int].wf());
            self.lemma_change_pool_wf(old_state, i as int);
        }
        Ok(transfer)
    }

    /// The error that `refund` reports on these arguments, if any.
    pub open spec fn refund_error(&self, pool_id: u64, contributor: Seq<char>, now: u64) -> Option<
        CrowdfundingError,
    > {
        let p = self.pool(pool_id);
        if self.paused {
            Some(CrowdfundingError::ContractPaused)
        } else if !self.has_pool(pool_id) {
            Some(CrowdfundingError::PoolNotFound)
        } else if p.config.duration == 0 {
            Some(CrowdfundingError::RefundNotAvailable)
        } else if now < p.deadline() {
            Some(CrowdfundingError::PoolNotExpired)
        } else if p.state == PoolState::Disbursed {
            Some(CrowdfundingError::PoolAlreadyDisbursed)
        } else if now < p.deadline() + REFUND_GRACE_PERIOD {
            Some(CrowdfundingError::RefundGracePeriodNotPassed)
        } else if self.pool_contribution_of(pool_id, contributor) <= 0 {
            Some(CrowdfundingError::NoContributionToRefund)
        } else {
            None
        }
    }

    /// How a successful `refund` changes the ledger: the contributor's record
    /// drops to zero (and stays, so that it cannot be refunded twice), the
    /// pool's total drops by the refunded amount, the contributor count is
    /// kept, the refund is announced, and `t` moves the whole holding from the
    /// ledger back to the contributor in the asset last contributed.
    pub open spec fn refunded(
        old_state: Self,
        new_state: Self,
        pool_id: u64,
        contributor: Address,
        now: u64,
        t: Transfer,
    ) -> bool {
        let i = pool_id - 1;
        let o = old_state.pools@[i];
        let n = new_state.pools@[i];
        let j = contributor_index(o.contributions@, contributor@);
        let c = o.contributions@[j];
        &&& t == (Transfer {
            token: c.asset,
            from: old_state.address,
            to: contributor,
            amount: c.amount,
        })
        &&& new_state.same_settings(&old_state)
        &&& new_state.campaigns == old_state.campaigns
        &&& pools_same_except(old_state.pools@, new_state.pools@, i)
        &&& n.config == o.config
        &&& n.metadata == o.metadata
        &&& n.state == o.state
        &&& n.multi_sig == o.multi_sig
        &&& n.metrics == (PoolMetrics {
            total_raised: (o.metrics.total_raised - c.amount) as i128,
            ..o.metrics
        })
        &&& n.contributions@ == o.contributions@.update(
            j,
            (PoolContribution { contributor: c.contributor, amount: 0, asset: c.asset }),
        )
        &&& new_state.events@ == old_state.events@.push(
            (Event::Refund {
                pool_id,
                contributor,
                asset: c.asset,
                amount: c.amount,
                timestamp: now,
            }),
        )
    }

    /// Returns to `contributor`, whose authorization the caller has checked,
    /// everything they hold in a pool whose deadline and grace period have
    /// passed. Returns the transfer from the ledger that must be carried out.
    pub fn refund(&mut self, pool_id: u64, contributor: Address, now: u64) -> (r: Result<
        Transfer,
        CrowdfundingError,
    >)
        requires
            old(self).wf(),
        ensures
            final(self).wf(),
            match r {
                Err(e) => {
                    &&& *final(self) == *old(self)
                    &&& old(self).refund_error(pool_id, contributor@, now) == Some(e)
                },
                Ok(t) => {
                    &&& old(self).refund_error(pool_id, contributor@, now) is None
                    &&& Self::refunded(*old(self), *final(self), pool_id, contributor, now, t)
                    &&& t.amount == old(self).pool_contribution_of(pool_id, contributor@)
                },
            },
    {
        if self.paused {
            return Err(CrowdfundingError::ContractPaused);
        }
        if pool_id < 1 || pool_id > self.pools.len() as u64 {
            return Err(CrowdfundingError::PoolNotFound);
        }
        let i = (pool_id - 1) as usize;
        let ghost old_state = *old(self);
        let ghost o = self.pools@[i as int];
        proof {
            assert(o.wf());
        }
        let duration = self.pools[i].config.duration;
        if duration == 0 {
            return Err(CrowdfundingError::RefundNotAvailable);
        }
        let deadline = self.pools[i].config.created_at + duration;
        if now < deadline {
            return Err(CrowdfundingError::PoolNotExpired);
        }
        if self.pools[i].state == PoolState::Disbursed {
            return Err(CrowdfundingError::PoolAlreadyDisbursed);
        }
        if (now as u128) < deadline as u128 + REFUND_GRACE_PERIOD as u128 {
            return Err(CrowdfundingError::RefundGracePeriodNotPassed);
        }
        let j = match find_contributor(&self.pools[i].contributions, &contributor) {
            Some(j) => j,
            None => {
                return Err(CrowdfundingError::NoContributionToRefund);
            },
        };
        let amount = self.pools[i].contributions[j].amount;
        if amount <= 0 {
            return Err(CrowdfundingError::NoContributionToRefund);
        }
        proof {
            lemma_sum_bounds(o.contributions@, contributed_amount());
            assert(contributed_amount()(o.contributions@[j as int]) == amount);
        }
        let asset = self.pools[i].contributions[j].asset.clone();
        let transfer = Transfer {
            token: asset.clone(),
            from: self.address.clone(),
            to: contributor.clone(),
            amount,
        };
        self.events.push(
            Event::Refund { pool_id, contributor, asset: asset.clone(), amount, timestamp: now },
        );
        let total = self.pools[i].metrics.total_raised;
        self.pools[i].metrics.total_raised = total - amount;
        let c = PoolContribution {
            contributor: self.pools[i].contributions[j].contributor.clone(),
            amount: 0,
            asset,
        };
        proof {
            lemma_sum_update(o.contributions@, j as int, c, contributed_amount());
        }
        self.pools[i].contributions.set(j, c);
        proof {
            assert(self.pools@[i as int].wf());
            self.lemma_change_pool_wf(old_state, i as int);
        }
        Ok(transfer)
    }
}

} // verus!
