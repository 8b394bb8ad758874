use vstd::prelude::*;

use crate::types::{Address, CampaignId, PoolState};

verus! {

/// A notification that an operation appends to the ledger's event log.
#[derive(Clone, Debug)]
pub enum Event {
    CampaignCreated { id: CampaignId, title: String, creator: Address, goal: i128, deadline: u64 },
    PoolCreated {
        pool_id: u64,
        name: String,
        description: String,
        creator: Address,
        target_amount: i128,
        deadline: u64,
    },
    PoolStateUpdated { pool_id: u64, new_state: PoolState },
    ContractPaused { admin: Address, timestamp: u64 },
    ContractUnpaused { admin: Address, timestamp: u64 },
    DonationMade { campaign_id: CampaignId, contributor: Address, amount: i128 },
    Contribution {
        pool_id: u64,
        contributor: Address,
        asset: Address,
        amount: i128,
        timestamp: u64,
        is_private: bool,
    },
    EmergencyWithdrawRequested { admin: Address, token: Address, amount: i128, unlock_time: u64 },
    EmergencyWithdrawExecuted { admin: Address, token: Address, amount: i128 },
    CrowdfundingTokenSet { admin: Address, token: Address },
    CreationFeeSet { admin: Address, fee: i128 },
    CreationFeePaid { creator: Address, amount: i128 },
    Refund { pool_id: u64, contributor: Address, asset: Address, amount: i128, timestamp: u64 },
    PoolClosed { pool_id: u64, closed_by: Address, timestamp: u64 },
}

} // verus!
