#![allow(dead_code)]

use std::collections::HashMap;

use crowdfunding::contract::CrowdfundingContract;
use crowdfunding::errors::CrowdfundingError;
use crowdfunding::events::Event;
use crowdfunding::types::{
    Address, CampaignDetails, CampaignId, PoolConfig, PoolMetadata, PoolMetrics, PoolState,
    Transfer,
};

/// A transfer that the token ledger refused.
#[derive(Debug, PartialEq)]
struct HostError;

type Outcome<T> = Result<T, Result<CrowdfundingError, HostError>>;

/// The ledger together with what surrounds it in a deployment: a clock, an
/// asset ledger that carries out the transfers, and fresh addresses.
struct Env {
    ledger: CrowdfundingContract,
    balances: HashMap<(String, String), i128>,
    timestamp: u64,
    generated: u32,
}

fn text(s: &str) -> String {
    s.to_string()
}

fn create_test_campaign_id(seed: u8) -> CampaignId {
    let mut bytes = [0u8; 32];
    bytes[0] = seed;
    CampaignId::from_array(bytes)
}

fn metadata(description: &str, external_url: &str, image_hash: &str) -> PoolMetadata {
    PoolMetadata {
        description: text(description),
        external_url: text(external_url),
        image_hash: text(image_hash),
    }
}

impl Env {
    fn default() -> Env {
        Env {
            ledger: CrowdfundingContract::new(Address::new(text("CCROWDFUNDING"))),
            balances: HashMap::new(),
            timestamp: 0,
            generated: 0,
        }
    }

    fn generate(&mut self) -> Address {
        self.generated += 1;
        Address::new(format!("GACCOUNT{:04}", self.generated))
    }

    fn contract_id(&self) -> Address {
        self.ledger.address.clone()
    }

    fn set_timestamp(&mut self, t: u64) {
        self.timestamp = t;
    }

    fn mint(&mut self, token: &Address, to: &Address, amount: i128) {
        *self.balances.entry((token.key.clone(), to.key.clone())).or_insert(0) += amount;
    }

    fn balance(&self, token: &Address, who: &Address) -> i128 {
        *self.balances.get(&(token.key.clone(), who.key.clone())).unwrap_or(&0)
    }

    fn carry_out(&mut self, t: &Transfer) -> Result<(), HostError> {
        if t.amount < 0 || self.balance(&t.token, &t.from) < t.amount {
            return Err(HostError);
        }
        self.mint(&t.token, &t.from, -t.amount);
        self.mint(&t.token, &t.to, t.amount);
        Ok(())
    }

    /// Runs an operation on a copy of the ledger, carries out its transfer,
    /// and keeps the copy only when both succeed.
    fn invoke<T>(
        &mut self,
        op: impl FnOnce(&mut CrowdfundingContract, u64) -> Result<(T, Option<Transfer>), CrowdfundingError>,
    ) -> Outcome<T> {
        let mut next = self.ledger.clone();
        let (value, transfer) = op(&mut next, self.timestamp).map_err(Ok)?;
        if let Some(t) = transfer {
            self.carry_out(&t).map_err(Err)?;
        }
        self.ledger = next;
        Ok(value)
    }

    fn admin(&self) -> Address {
        match &self.ledger.config {
            Some(c) => c.admin.clone(),
            None => Address::new(text("")),
        }
    }

    fn try_initialize_with(&mut self, admin: &Address, token: &Address, fee: i128) -> Outcome<()> {
        let (a, t) = (admin.clone(), token.clone());
        self.invoke(|l, _| l.initialize(a, t, fee).map(|_| ((), None)))
    }

    fn initialize_with(&mut self, admin: &Address, token: &Address, fee: i128) {
        self.try_initialize_with(admin, token, fee).unwrap();
    }

    fn initialize(&mut self, admin: &Address) {
        let token = self.generate();
        self.initialize_with(admin, &token, 0);
    }

    fn try_pause_as(&mut self, caller: &Address) -> Outcome<()> {
        let c = caller.clone();
        self.invoke(|l, now| l.pause(c, now).map(|_| ((), None)))
    }

    fn try_pause(&mut self) -> Outcome<()> {
        let admin = self.admin();
        self.try_pause_as(&admin)
    }

    fn pause(&mut self) {
        self.try_pause().unwrap();
    }

    fn try_unpause(&mut self) -> Outcome<()> {
        let c = self.admin();
        self.invoke(|l, now| l.unpause(c, now).map(|_| ((), None)))
    }

    fn unpause(&mut self) {
        self.try_unpause().unwrap();
    }

    fn is_paused(&self) -> bool {
        self.ledger.is_paused()
    }

    fn try_create_campaign(
        &mut self,
        id: &CampaignId,
        title: &str,
        creator: &Address,
        goal: i128,
        deadline: u64,
        token: &Address,
    ) -> Outcome<()> {
        let balance = match self.ledger.get_crowdfunding_token() {
            Ok(t) => self.balance(&t, creator),
            Err(_) => 0,
        };
        let (id, title, creator, token) = (*id, text(title), creator.clone(), token.clone());
        self.invoke(|l, now| {
            l.create_campaign(id, title, creator, goal, deadline, token, balance, now)
                .map(|t| ((), t))
        })
    }

    fn create_campaign(
        &mut self,
        id: &CampaignId,
        title: &str,
        creator: &Address,
        goal: i128,
        deadline: u64,
        token: &Address,
    ) {
        self.try_create_campaign(id, title, creator, goal, deadline, token).unwrap();
    }

    fn try_get_campaign(&self, id: &CampaignId) -> Outcome<CampaignDetails> {
        self.ledger.get_campaign(*id).map_err(Ok)
    }

    fn get_campaign(&self, id: &CampaignId) -> CampaignDetails {
        self.ledger.get_campaign(*id).unwrap()
    }

    fn get_all_campaigns(&self) -> Vec<CampaignId> {
        self.ledger.get_all_campaigns()
    }

    fn get_donor_count(&self, id: &CampaignId) -> u32 {
        self.ledger.get_donor_count(*id).unwrap()
    }

    fn get_campaign_balance(&self, id: &CampaignId) -> i128 {
        self.ledger.get_campaign_balance(*id).unwrap()
    }

    fn get_total_raised(&self, id: &CampaignId) -> i128 {
        self.ledger.get_total_raised(*id).unwrap()
    }

    fn get_contribution(&self, id: &CampaignId, who: &Address) -> i128 {
        self.ledger.get_contribution(*id, who).unwrap()
    }

    fn get_campaign_goal(&self, id: &CampaignId) -> i128 {
        self.ledger.get_campaign_goal(*id).unwrap()
    }

    fn is_campaign_completed(&self, id: &CampaignId) -> bool {
        self.ledger.is_campaign_completed(*id).unwrap()
    }

    fn try_donate(&mut self, id: &CampaignId, donor: &Address, asset: &Address, amount: i128) -> Outcome<()> {
        let (id, donor, asset) = (*id, donor.clone(), asset.clone());
        self.invoke(|l, now| l.donate(id, donor, asset, amount, now).map(|t| ((), Some(t))))
    }

    fn donate(&mut self, id: &CampaignId, donor: &Address, asset: &Address, amount: i128) {
        self.try_donate(id, donor, asset, amount).unwrap();
    }

    fn try_save_pool(
        &mut self,
        name: &str,
        metadata: &PoolMetadata,
        creator: &Address,
        target_amount: i128,
        deadline: u64,
        required_signatures: Option<u32>,
        signers: Option<Vec<Address>>,
    ) -> Outcome<u64> {
        let (name, metadata, creator) = (text(name), metadata.clone(), creator.clone());
        self.invoke(|l, now| {
            l.save_pool(name, metadata, creator, target_amount, deadline, required_signatures, signers, now)
                .map(|id| (id, None))
        })
    }

    fn save_pool(
        &mut self,
        name: &str,
        metadata: &PoolMetadata,
        creator: &Address,
        target_amount: i128,
        deadline: u64,
    ) -> u64 {
        self.try_save_pool(name, metadata, creator, target_amount, deadline, None, None).unwrap()
    }

    fn create_pool(&mut self, creator: &Address, config: &PoolConfig) -> u64 {
        assert!(config.validate());
        let (creator, config) = (creator.clone(), config.clone());
        self.invoke(|l, _| l.create_pool(creator, config).map(|id| (id, None))).unwrap()
    }

    fn get_pool(&self, pool_id: u64) -> Option<PoolConfig> {
        self.ledger.get_pool(pool_id)
    }

    fn get_pool_metadata(&self, pool_id: u64) -> (String, String, String) {
        self.ledger.get_pool_metadata(pool_id)
    }

    fn get_pool_metrics(&self, pool_id: u64) -> PoolMetrics {
        self.ledger.get_pool_metrics(pool_id).unwrap()
    }

    fn try_update_pool_state(&mut self, pool_id: u64, state: PoolState) -> Outcome<()> {
        self.invoke(|l, _| l.update_pool_state(pool_id, state).map(|_| ((), None)))
    }

    fn update_pool_state(&mut self, pool_id: u64, state: PoolState) {
        self.try_update_pool_state(pool_id, state).unwrap();
    }

    fn try_contribute(
        &mut self,
        pool_id: u64,
        contributor: &Address,
        asset: &Address,
        amount: i128,
        is_private: bool,
    ) -> Outcome<()> {
        let (contributor, asset) = (contributor.clone(), asset.clone());
        self.invoke(|l, now| {
            l.contribute(pool_id, contributor, asset, amount, is_private, now).map(|t| ((), Some(t)))
        })
    }

    fn contribute(&mut self, pool_id: u64, contributor: &Address, asset: &Address, amount: i128, is_private: bool) {
        self.try_contribute(pool_id, contributor, asset, amount, is_private).unwrap();
    }

    fn try_refund(&mut self, pool_id: u64, contributor: &Address) -> Outcome<()> {
        let contributor = contributor.clone();
        self.invoke(|l, now| l.refund(pool_id, contributor, now).map(|t| ((), Some(t))))
    }

    fn refund(&mut self, pool_id: u64, contributor: &Address) {
        self.try_refund(pool_id, contributor).unwrap();
    }

    fn try_close_pool(&mut self, pool_id: u64, caller: &Address) -> Outcome<()> {
        let caller = caller.clone();
        self.invoke(|l, now| l.close_pool(pool_id, caller, now).map(|_| ((), None)))
    }

    fn close_pool(&mut self, pool_id: u64, caller: &Address) {
        self.try_close_pool(pool_id, caller).unwrap();
    }

    fn try_is_closed(&self, pool_id: u64) -> Outcome<bool> {
        self.ledger.is_closed(pool_id).map_err(Ok)
    }

    fn is_closed(&self, pool_id: u64) -> bool {
        self.ledger.is_closed(pool_id).unwrap()
    }

    fn try_request_emergency_withdraw(&mut self, token: &Address, amount: i128) -> Outcome<()> {
        let (caller, token) = (self.admin(), token.clone());
        self.invoke(|l, now| l.request_emergency_withdraw(caller, token, amount, now).map(|_| ((), None)))
    }

    fn try_execute_emergency_withdraw(&mut self) -> Outcome<()> {
        let caller = self.admin();
        self.invoke(|l, now| l.execute_emergency_withdraw(caller, now).map(|t| ((), Some(t))))
    }

    fn events(&self) -> &Vec<Event> {
        &self.ledger.events
    }
}

#[test]
fn goal_reached_then_further_donations_refused() {
    let mut env = Env::default();
    let t = 5_000u64;
    env.set_timestamp(t);
    let token = env.generate();
    let creator = env.generate();
    let donor = env.generate();
    let id = create_test_campaign_id(1);
    env.create_campaign(&id, "Goal", &creator, 1000, t + 86400, &token);
    env.mint(&token, &donor, 2000);
    env.set_timestamp(t + 1);
    env.donate(&id, &donor, &token, 1000);
    assert_eq!(env.get_total_raised(&id), 1000);
    assert!(env.is_campaign_completed(&id));
    env.set_timestamp(t + 2);
    let result = env.try_donate(&id, &donor, &token, 100);
    assert_eq!(result, Err(Ok(CrowdfundingError::CampaignAlreadyFunded)));
    assert_eq!(env.balance(&token, &donor), 1000);
}

#[test]
fn pool_contribution_refunded_after_grace_period() {
    let mut env = Env::default();
    let t = 50_000u64;
    env.set_timestamp(t);
    let token = env.generate();
    let creator = env.generate();
    let contributor = env.generate();
    let md = metadata("", "", "");
    let pool_id = env.save_pool("Pool", &md, &creator, 10000, t + 86400);
    assert_eq!(pool_id, 1);
    env.mint(&token, &contributor, 2000);
    env.set_timestamp(t + 10);
    env.contribute(1, &contributor, &token, 2000, false);
    let contract_id = env.contract_id();
    assert_eq!(env.balance(&token, &contract_id), 2000);
    env.set_timestamp(t + 11);
    assert_eq!(env.try_refund(1, &contributor), Err(Ok(CrowdfundingError::PoolNotExpired)));
    env.set_timestamp(t + 86400 + 604800 + 1);
    env.refund(1, &contributor);
    assert_eq!(env.balance(&token, &contributor), 2000);
    assert_eq!(env.balance(&token, &contract_id), 0);
}

#[test]
fn refund_opens_exactly_at_end_of_grace_period() {
    let mut env = Env::default();
    let token = env.generate();
    let creator = env.generate();
    let contributor = env.generate();
    let md = metadata("", "", "");
    let pool_id = env.save_pool("Pool", &md, &creator, 10000, 100);
    env.mint(&token, &contributor, 10);
    env.contribute(pool_id, &contributor, &token, 10, false);
    env.set_timestamp(100 + 604800 - 1);
    assert_eq!(
        env.try_refund(pool_id, &contributor),
        Err(Ok(CrowdfundingError::RefundGracePeriodNotPassed))
    );
    env.set_timestamp(100 + 604800);
    env.refund(pool_id, &contributor);
    assert_eq!(env.balance(&token, &contributor), 10);
}

#[test]
fn emergency_withdrawal_is_single_and_time_locked() {
    let mut env = Env::default();
    let admin = env.generate();
    let token = env.generate();
    env.initialize_with(&admin, &token, 0);
    let contract_id = env.contract_id();
    env.mint(&token, &contract_id, 700);
    env.set_timestamp(1_000);
    env.try_request_emergency_withdraw(&token, 500).unwrap();
    assert_eq!(
        env.try_request_emergency_withdraw(&token, 100),
        Err(Ok(CrowdfundingError::EmergencyWithdrawalAlreadyRequested))
    );
    env.set_timestamp(1_000 + 86400 - 1);
    assert_eq!(
        env.try_execute_emergency_withdraw(),
        Err(Ok(CrowdfundingError::EmergencyWithdrawalPeriodNotPassed))
    );
    env.set_timestamp(1_000 + 86400);
    env.try_execute_emergency_withdraw().unwrap();
    assert_eq!(env.balance(&token, &admin), 500);
    assert_eq!(env.balance(&token, &contract_id), 200);
    assert_eq!(
        env.try_execute_emergency_withdraw(),
        Err(Ok(CrowdfundingError::EmergencyWithdrawalNotRequested))
    );
    env.try_request_emergency_withdraw(&token, 100).unwrap();
    match env.events().last() {
        Some(Event::EmergencyWithdrawRequested { amount, unlock_time, .. }) => {
            assert_eq!((*amount, *unlock_time), (100, 1_000 + 86400 + 86400));
        },
        other => panic!("unexpected event {:?}", other),
    }
}

#[test]
fn emergency_withdrawal_needs_the_admin() {
    let mut env = Env::default();
    let token = env.generate();
    assert_eq!(
        env.try_request_emergency_withdraw(&token, 1),
        Err(Ok(CrowdfundingError::CampaignNotFound))
    );
    let admin = env.generate();
    env.initialize_with(&admin, &token, 0);
    let stranger = env.generate();
    let result = env.invoke(|l, now| {
        l.request_emergency_withdraw(stranger, token.clone(), 1, now).map(|_| ((), None))
    });
    assert_eq!(result, Err(Ok(CrowdfundingError::Unauthorized)));
}

#[test]
fn donation_accounting_counts_each_donor_once() {
    let mut env = Env::default();
    let token = env.generate();
    let creator = env.generate();
    let a = env.generate();
    let b = env.generate();
    let id = create_test_campaign_id(2);
    env.create_campaign(&id, "Count", &creator, 1_000_000, 10, &token);
    env.mint(&token, &a, 1000);
    env.mint(&token, &b, 1000);
    env.donate(&id, &a, &token, 300);
    env.donate(&id, &b, &token, 200);
    env.donate(&id, &a, &token, 5);
    assert_eq!(env.get_total_raised(&id), 505);
    assert_eq!(env.get_campaign_balance(&id), 505);
    assert_eq!(env.get_contribution(&id, &a), 305);
    assert_eq!(env.get_contribution(&id, &b), 200);
    assert_eq!(env.get_donor_count(&id), 2);
    match env.events().last() {
        Some(Event::DonationMade { contributor, amount, .. }) => {
            assert_eq!((contributor.clone(), *amount), (a.clone(), 5));
        },
        other => panic!("unexpected event {:?}", other),
    }
}

#[test]
fn expired_campaign_refuses_every_amount() {
    let mut env = Env::default();
    let token = env.generate();
    let creator = env.generate();
    let donor = env.generate();
    let id = create_test_campaign_id(3);
    env.create_campaign(&id, "Late", &creator, 1000, 50, &token);
    env.mint(&token, &donor, 10_000);
    env.set_timestamp(50);
    for amount in [1i128, 999, 1000, 5000] {
        assert_eq!(
            env.try_donate(&id, &donor, &token, amount),
            Err(Ok(CrowdfundingError::CampaignExpired))
        );
    }
}

#[test]
fn donation_overflow_is_refused() {
    let mut env = Env::default();
    let token = env.generate();
    let creator = env.generate();
    let small = env.generate();
    let large = env.generate();
    let id = create_test_campaign_id(4);
    env.create_campaign(&id, "Huge", &creator, i128::MAX, 50, &token);
    env.mint(&token, &small, 10);
    env.mint(&token, &large, i128::MAX);
    env.donate(&id, &small, &token, 10);
    assert_eq!(
        env.try_donate(&id, &large, &token, i128::MAX),
        Err(Ok(CrowdfundingError::ArithmeticOverflow))
    );
    assert_eq!(env.get_total_raised(&id), 10);
}

#[test]
fn refund_keeps_count_and_lowers_total() {
    let mut env = Env::default();
    let token = env.generate();
    let creator = env.generate();
    let a = env.generate();
    let b = env.generate();
    let md = metadata("", "", "");
    let pool_id = env.save_pool("Pool", &md, &creator, 10000, 100);
    env.mint(&token, &a, 1000);
    env.mint(&token, &b, 1000);
    env.contribute(pool_id, &a, &token, 400, false);
    env.contribute(pool_id, &b, &token, 250, true);
    assert_eq!(env.get_pool_metrics(pool_id).total_raised, 650);
    assert_eq!(env.get_pool_metrics(pool_id).contributor_count, 2);
    env.set_timestamp(100 + 604800);
    env.refund(pool_id, &a);
    assert_eq!(env.get_pool_metrics(pool_id).total_raised, 250);
    assert_eq!(env.get_pool_metrics(pool_id).contributor_count, 2);
    assert_eq!(env.ledger.get_pool_contribution(pool_id, &a), Some(0));
    assert_eq!(env.balance(&token, &a), 1000);
    assert_eq!(env.try_refund(pool_id, &a), Err(Ok(CrowdfundingError::NoContributionToRefund)));
}

#[test]
fn contribution_after_refund_counts_again() {
    let mut env = Env::default();
    let token = env.generate();
    let creator = env.generate();
    let a = env.generate();
    let md = metadata("", "", "");
    let pool_id = env.save_pool("Pool", &md, &creator, 10000, 100);
    env.mint(&token, &a, 1000);
    env.contribute(pool_id, &a, &token, 400, false);
    env.set_timestamp(100 + 604800);
    env.refund(pool_id, &a);
    env.contribute(pool_id, &a, &token, 100, false);
    assert_eq!(env.get_pool_metrics(pool_id).contributor_count, 2);
    assert_eq!(env.get_pool_metrics(pool_id).total_raised, 100);
    assert_eq!(env.get_pool_metrics(pool_id).last_donation_at, 100 + 604800);
}

#[test]
fn contribute_errors() {
    let mut env = Env::default();
    let admin = env.generate();
    env.initialize(&admin);
    let token = env.generate();
    let creator = env.generate();
    let a = env.generate();
    env.mint(&token, &a, 1000);
    let md = metadata("", "", "");
    let pool_id = env.save_pool("Pool", &md, &creator, 10000, 100);
    assert_eq!(env.try_contribute(pool_id, &a, &token, 0, false), Err(Ok(CrowdfundingError::InvalidAmount)));
    assert_eq!(env.try_contribute(7, &a, &token, 5, false), Err(Ok(CrowdfundingError::PoolNotFound)));
    env.update_pool_state(pool_id, PoolState::Paused);
    assert_eq!(
        env.try_contribute(pool_id, &a, &token, 5, false),
        Err(Ok(CrowdfundingError::InvalidPoolState))
    );
    env.update_pool_state(pool_id, PoolState::Active);
    env.pause();
    assert_eq!(env.try_contribute(pool_id, &a, &token, 5, false), Err(Ok(CrowdfundingError::ContractPaused)));
    env.unpause();
    env.contribute(pool_id, &a, &token, 5, false);
    assert_eq!(env.balance(&token, &a), 995);
    let poor = env.generate();
    assert_eq!(env.try_contribute(pool_id, &poor, &token, 5, false), Err(Err(HostError)));
    assert_eq!(env.get_pool_metrics(pool_id).contributor_count, 1);
}

#[test]
fn frozen_pools_reject_every_target() {
    let mut env = Env::default();
    let creator = env.generate();
    let md = metadata("", "", "");
    let targets = [
        PoolState::Active,
        PoolState::Paused,
        PoolState::Completed,
        PoolState::Cancelled,
        PoolState::Disbursed,
        PoolState::Closed,
    ];
    for frozen in [PoolState::Completed, PoolState::Cancelled] {
        let pool_id = env.save_pool("Pool", &md, &creator, 10, 100);
        env.update_pool_state(pool_id, frozen);
        for target in targets {
            assert_eq!(
                env.try_update_pool_state(pool_id, target),
                Err(Ok(CrowdfundingError::InvalidPoolState))
            );
        }
    }
}

#[test]
fn closed_is_reached_only_by_closing() {
    let mut env = Env::default();
    let admin = env.generate();
    env.initialize(&admin);
    let creator = env.generate();
    let md = metadata("", "", "");
    let pool_id = env.save_pool("Pool", &md, &creator, 10, 100);
    env.update_pool_state(pool_id, PoolState::Disbursed);
    assert_eq!(
        env.try_update_pool_state(pool_id, PoolState::Closed),
        Err(Ok(CrowdfundingError::InvalidPoolState))
    );
    let stranger = env.generate();
    assert_eq!(env.try_close_pool(pool_id, &stranger), Err(Ok(CrowdfundingError::Unauthorized)));
    env.close_pool(pool_id, &admin);
    assert!(env.is_closed(pool_id));
    assert_eq!(env.try_close_pool(pool_id, &stranger), Err(Ok(CrowdfundingError::PoolAlreadyClosed)));
}

#[test]
fn close_pool_before_initialization() {
    let mut env = Env::default();
    let creator = env.generate();
    let md = metadata("", "", "");
    let pool_id = env.save_pool("Pool", &md, &creator, 10, 100);
    env.update_pool_state(pool_id, PoolState::Cancelled);
    assert_eq!(env.try_close_pool(pool_id, &creator), Err(Ok(CrowdfundingError::NotInitialized)));
}

#[test]
fn creation_fee_is_charged_in_the_configured_token() {
    let mut env = Env::default();
    let admin = env.generate();
    let fee_token = env.generate();
    env.initialize_with(&admin, &fee_token, 50);
    let campaign_token = env.generate();
    let creator = env.generate();
    env.mint(&fee_token, &creator, 40);
    let id = create_test_campaign_id(5);
    assert_eq!(
        env.try_create_campaign(&id, "Fee", &creator, 100, 10, &campaign_token),
        Err(Ok(CrowdfundingError::InsufficientBalance))
    );
    env.mint(&fee_token, &creator, 60);
    env.create_campaign(&id, "Fee", &creator, 100, 10, &campaign_token);
    let contract_id = env.contract_id();
    assert_eq!(env.balance(&fee_token, &creator), 50);
    assert_eq!(env.balance(&fee_token, &contract_id), 50);
    assert_eq!(env.get_campaign(&id).token_address, campaign_token);
    let n = env.events().len();
    match (&env.events()[n - 2], &env.events()[n - 1]) {
        (Event::CreationFeePaid { amount, .. }, Event::CampaignCreated { title, .. }) => {
            assert_eq!((*amount, title.as_str()), (50, "Fee"));
        },
        other => panic!("unexpected events {:?}", other),
    }
}

#[test]
fn admin_settings() {
    let mut env = Env::default();
    assert_eq!(env.ledger.get_creation_fee(), Ok(0));
    assert_eq!(env.ledger.get_crowdfunding_token().err(), Some(CrowdfundingError::NotInitialized));
    let admin = env.generate();
    let token = env.generate();
    assert_eq!(env.ledger.set_creation_fee(admin.clone(), 5), Err(CrowdfundingError::NotInitialized));
    assert_eq!(env.try_initialize_with(&admin, &token, -1), Err(Ok(CrowdfundingError::InvalidFee)));
    env.initialize_with(&admin, &token, 7);
    assert_eq!(
        env.try_initialize_with(&admin, &token, 7),
        Err(Ok(CrowdfundingError::ContractAlreadyInitialized))
    );
    assert_eq!(env.ledger.get_creation_fee(), Ok(7));
    let stranger = env.generate();
    assert_eq!(env.ledger.set_creation_fee(stranger.clone(), 5), Err(CrowdfundingError::Unauthorized));
    assert_eq!(env.ledger.set_creation_fee(admin.clone(), -5), Err(CrowdfundingError::InvalidFee));
    assert_eq!(env.ledger.set_creation_fee(admin.clone(), 9), Ok(()));
    assert_eq!(env.ledger.get_creation_fee(), Ok(9));
    let other = env.generate();
    assert_eq!(
        env.ledger.set_crowdfunding_token(stranger.clone(), other.clone()),
        Err(CrowdfundingError::Unauthorized)
    );
    assert_eq!(env.ledger.set_crowdfunding_token(admin.clone(), other.clone()), Ok(()));
    assert_eq!(env.ledger.get_crowdfunding_token().ok(), Some(other));
    assert_eq!(env.ledger.get_creation_fee(), Ok(9));
    assert_eq!(env.try_pause_as(&stranger), Err(Ok(CrowdfundingError::Unauthorized)));
}

#[test]
fn pause_needs_initialization() {
    let mut env = Env::default();
    let someone = env.generate();
    assert_eq!(env.try_pause_as(&someone), Err(Ok(CrowdfundingError::NotInitialized)));
    assert!(!env.is_paused());
}

#[test]
fn metadata_bounds_are_in_bytes() {
    let mut env = Env::default();
    let creator = env.generate();
    let ok = metadata(&"d".repeat(500), &"u".repeat(200), &"h".repeat(100));
    assert_eq!(env.try_save_pool("Pool", &ok, &creator, 10, 100, None, None), Ok(1));
    let long_description = metadata(&"d".repeat(501), "", "");
    assert_eq!(
        env.try_save_pool("Pool", &long_description, &creator, 10, 100, None, None),
        Err(Ok(CrowdfundingError::InvalidMetadata))
    );
    let long_url = metadata("", &"\u{e9}".repeat(101), "");
    assert_eq!(
        env.try_save_pool("Pool", &long_url, &creator, 10, 100, None, None),
        Err(Ok(CrowdfundingError::InvalidMetadata))
    );
    let long_hash = metadata("", "", &"h".repeat(101));
    assert_eq!(
        env.try_save_pool("Pool", &long_hash, &creator, 10, 100, None, None),
        Err(Ok(CrowdfundingError::InvalidMetadata))
    );
    assert_eq!(env.get_pool_metadata(1).0.len(), 500);
}

#[test]
fn multi_sig_settings() {
    let mut env = Env::default();
    let creator = env.generate();
    let s1 = env.generate();
    let s2 = env.generate();
    let md = metadata("", "", "");
    let both = vec![s1.clone(), s2.clone()];
    assert_eq!(
        env.try_save_pool("P", &md, &creator, 10, 100, Some(0), Some(both.clone())),
        Err(Ok(CrowdfundingError::InvalidMultiSigConfig))
    );
    assert_eq!(
        env.try_save_pool("P", &md, &creator, 10, 100, Some(3), Some(both.clone())),
        Err(Ok(CrowdfundingError::InvalidMultiSigConfig))
    );
    assert_eq!(
        env.try_save_pool("P", &md, &creator, 10, 100, Some(1), Some(vec![])),
        Err(Ok(CrowdfundingError::InvalidMultiSigConfig))
    );
    assert_eq!(
        env.try_save_pool("P", &md, &creator, 10, 100, Some(1), None),
        Err(Ok(CrowdfundingError::InvalidMultiSigConfig))
    );
    assert_eq!(
        env.try_save_pool("P", &md, &creator, 10, 100, None, Some(both.clone())),
        Err(Ok(CrowdfundingError::InvalidMultiSigConfig))
    );
    assert_eq!(env.try_save_pool("P", &md, &creator, 10, 100, Some(2), Some(both)), Ok(1));
    let stored = env.ledger.pools[0].multi_sig.clone().unwrap();
    assert_eq!(stored.required_signatures, 2);
    assert_eq!(stored.signers, vec![s1, s2]);
}

#[test]
fn save_pool_derives_duration_from_deadline() {
    let mut env = Env::default();
    env.set_timestamp(1_000);
    let creator = env.generate();
    let md = metadata("About", "", "");
    let pool_id = env.save_pool("Pool", &md, &creator, 10, 4_000);
    let pool = env.get_pool(pool_id).unwrap();
    assert_eq!((pool.duration, pool.created_at, pool.is_private), (3_000, 1_000, false));
    assert_eq!(pool.description, "About");
    assert_eq!(env.ledger.get_pool_state(pool_id), Some(PoolState::Active));
    match env.events().last() {
        Some(Event::PoolCreated { pool_id: p, deadline, .. }) => assert_eq!((*p, *deadline), (1, 4_000)),
        other => panic!("unexpected event {:?}", other),
    }
}

#[test]
fn create_pool_keeps_given_schedule() {
    let mut env = Env::default();
    let admin = env.generate();
    env.initialize(&admin);
    let creator = env.generate();
    let config = PoolConfig {
        name: text("Direct"),
        description: text("No metadata"),
        target_amount: 5,
        is_private: true,
        duration: 20,
        created_at: 7,
    };
    let pool_id = env.create_pool(&creator, &config);
    assert_eq!(pool_id, 1);
    let pool = env.get_pool(pool_id).unwrap();
    assert_eq!((pool.duration, pool.created_at, pool.is_private), (20, 7, true));
    assert_eq!(env.get_pool_metadata(pool_id), (text(""), text(""), text("")));
    match env.events().last() {
        Some(Event::PoolCreated { deadline, .. }) => assert_eq!(*deadline, 27),
        other => panic!("unexpected event {:?}", other),
    }
    env.pause();
    let again = env.invoke(|l, _| l.create_pool(creator.clone(), config.clone()).map(|id| (id, None)));
    assert_eq!(again, Err(Ok(CrowdfundingError::ContractPaused)));
}

#[test]
fn campaign_getters_report_missing_campaigns() {
    let env = Env::default();
    let id = create_test_campaign_id(42);
    let who = Address::new(text("GSOMEONE"));
    assert_eq!(env.ledger.get_donor_count(id), Err(CrowdfundingError::CampaignNotFound));
    assert_eq!(env.ledger.get_campaign_balance(id), Err(CrowdfundingError::CampaignNotFound));
    assert_eq!(env.ledger.get_total_raised(id), Err(CrowdfundingError::CampaignNotFound));
    assert_eq!(env.ledger.get_contribution(id, &who), Err(CrowdfundingError::CampaignNotFound));
    assert_eq!(env.ledger.get_campaign_goal(id), Err(CrowdfundingError::CampaignNotFound));
    assert_eq!(env.ledger.is_campaign_completed(id), Err(CrowdfundingError::CampaignNotFound));
    assert_eq!(env.ledger.get_pool_metrics(1), None);
    assert_eq!(env.ledger.get_pool_state(0), None);
}

#[test]
fn campaign_ids_compare_by_every_byte() {
    let mut a = [0u8; 32];
    let mut b = [0u8; 32];
    a[31] = 1;
    b[31] = 2;
    assert_ne!(CampaignId::from_array(a), CampaignId::from_array(b));
    b[31] = 1;
    assert_eq!(CampaignId::from_array(a), CampaignId::from_array(b));
}
