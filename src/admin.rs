use vstd::prelude::*;

use crate::contract::{AdminConfig, CrowdfundingContract};
use crate::errors::CrowdfundingError;
use crate::events::Event;
use crate::types::{Address, EmergencyWithdrawal, Transfer, EMERGENCY_WITHDRAWAL_DELAY};

verus! {

/// The time an emergency withdrawal requested at `now` unlocks, capped at the
/// largest timestamp.
pub open spec fn unlock_time(now: u64) -> u64 {
    if now + EMERGENCY_WITHDRAWAL_DELAY > u64::MAX {
        u64::MAX
    } else {
        (now + EMERGENCY_WITHDRAWAL_DELAY) as u64
    }
}

impl CrowdfundingContract {
    /// The administrator; meaningful once the ledger is initialized.
    pub open spec fn admin(&self) -> Address {
        self.config->Some_0.admin
    }

    /// The error of an administrator-only operation called by `caller`:
    /// `missing` when there is no administrator yet, Unauthorized when the
    /// caller is someone else.
    pub open spec fn admin_error(&self, caller: Seq<char>, missing: CrowdfundingError) -> Option<
        CrowdfundingError,
    > {
        match self.config {
            None => Some(missing),
            Some(c) => if caller != c.admin@ {
                Some(CrowdfundingError::Unauthorized)
            } else {
                None
            },
        }
    }

    /// Checks that `caller` is the administrator, and returns a copy of the
    /// administrator's address.
    fn check_admin(&self, caller: &Address, missing: CrowdfundingError) -> (r: Result<
        Address,
        CrowdfundingError,
    >)
        ensures
            match r {
                Ok(a) => self.admin_error(caller@, missing) is None && a == self.admin(),
                Err(e) => self.admin_error(caller@, missing) == Some(e),
            },
    {
        match &self.config {
            None => Err(missing),
            Some(c) => {
                if c.admin == *caller {
                    Ok(c.admin.clone())
                } else {
                    Err(CrowdfundingError::Unauthorized)
                }
            },
        }
    }

    /// Only the settings changed: to `config` and `paused`, with `events`
    /// as the new log.
    pub open spec fn settings_set(
        old_state: Self,
        new_state: Self,
        config: Option<AdminConfig>,
        paused: bool,
        events: Seq<Event>,
    ) -> bool {
        &&& new_state.address == old_state.address
        &&& new_state.config == config
        &&& new_state.paused == paused
        &&& new_state.campaigns == old_state.campaigns
        &&& new_state.pools == old_state.pools
        &&& new_state.emergency_withdrawal == old_state.emergency_withdrawal
        &&& new_state.events@ == events
    }

    /// Sets the administrator, the token that creation fees are paid in and
    /// the fee itself, once.
    pub fn initialize(&mut self, admin: Address, token: Address, creation_fee: i128) -> (r: Result<
        (),
        CrowdfundingError,
    >)
        requires
            old(self).wf(),
        ensures
            final(self).wf(),
            match r {
                Err(e) => {
                    &&& *final(self) == *old(self)
                    &&& e == if old(self).config is Some {
                        CrowdfundingError::ContractAlreadyInitialized
                    } else {
                        CrowdfundingError::InvalidFee
                    }
                    &&& old(self).config is Some || creation_fee < 0
                },
                Ok(_) => {
                    &&& old(self).config is None
                    &&& creation_fee >= 0
                    &&& Self::settings_set(
                        *old(self),
                        *final(self),
                        Some((AdminConfig { admin, token, creation_fee })),
                        false,
                        old(self).events@,
                    )
                },
            },
    {
        if self.config.is_some() {
            return Err(CrowdfundingError::ContractAlreadyInitialized);
        }
        if creation_fee < 0 {
            return Err(CrowdfundingError::InvalidFee);
        }
        self.config = Some(AdminConfig { admin, token, creation_fee });
        self.paused = false;
        Ok(())
    }

    /// Stops every mutating operation until `unpause`.
    pub fn pause(&mut self, caller: Address, now: u64) -> (r: Result<(), CrowdfundingError>)
        requires
            old(self).wf(),
        ensures
            final(self).wf(),
            match r {
                Err(e) => {
                    &&& *final(self) == *old(self)
                    &&& e == match old(self).admin_error(caller@, CrowdfundingError::NotInitialized) {
                        Some(a) => a,
                        None => CrowdfundingError::ContractAlreadyPaused,
                    }
                    &&& old(self).admin_error(caller@, CrowdfundingError::NotInitialized) is Some
                        || old(self).paused
                },
                Ok(_) => {
                    &&& old(self).admin_error(caller@, CrowdfundingError::NotInitialized) is None
                    &&& !old(self).paused
                    &&& Self::settings_set(
                        *old(self),
                        *final(self),
                        old(self).config,
                        true,
                        old(self).events@.push(
                            (Event::ContractPaused { admin: old(self).admin(), timestamp: now }),
                        ),
                    )
                },
            },
    {
        let admin = match self.check_admin(&caller, CrowdfundingError::NotInitialized) {
            Ok(a) => a,
            Err(e) => {
                return Err(e);
            },
        };
        if self.paused {
            return Err(CrowdfundingError::ContractAlreadyPaused);
        }
        self.paused = true;
        self.events.push(Event::ContractPaused { admin, timestamp: now });
        Ok(())
    }

    /// Lets mutating operations run again.
    pub fn unpause(&mut self, caller: Address, now: u64) -> (r: Result<(), CrowdfundingError>)
        requires
            old(self).wf(),
        ensures
            final(self).wf(),
            match r {
                Err(e) => {
                    &&& *final(self) == *old(self)
                    &&& e == match old(self).admin_error(caller@, CrowdfundingError::NotInitialized) {
                        Some(a) => a,
                        None => CrowdfundingError::ContractAlreadyUnpaused,
                    }
                    &&& old(self).admin_error(caller@, CrowdfundingError::NotInitialized) is Some
                        || !old(self).paused
                },
                Ok(_) => {
                    &&& old(self).admin_error(caller@, CrowdfundingError::NotInitialized) is None
                    &&& old(self).paused
                    &&& Self::settings_set(
                        *old(self),
                        *final(self),
                        old(self).config,
                        false,
                        old(self).events@.push(
                            (Event::ContractUnpaused { admin: old(self).admin(), timestamp: now }),
                        ),
                    )
                },
            },
    {
        let admin = match self.check_admin(&caller, CrowdfundingError::NotInitialized) {
            Ok(a) => a,
            Err(e) => {
                return Err(e);
            },
        };
        if !self.paused {
            return Err(CrowdfundingError::ContractAlreadyUnpaused);
        }
        self.paused = false;
        self.events.push(Event::ContractUnpaused { admin, timestamp: now });
        Ok(())
    }

    pub fn is_paused(&self) -> (r: bool)
        ensures
            r == self.paused,
    {
        self.paused
    }

    /// Changes the token that creation fees are paid in.
    pub fn set_crowdfunding_token(&mut self, caller: Address, token: Address) -> (r: Result<
        (),
        CrowdfundingError,
    >)
        requires
            old(self).wf(),
        ensures
            final(self).wf(),
            match r {
                Err(e) => {
                    &&& *final(self) == *old(self)
                    &&& old(self).admin_error(caller@, CrowdfundingError::NotInitialized) == Some(e)
                },
                Ok(_) => {
                    &&& old(self).admin_error(caller@, CrowdfundingError::NotInitialized) is None
                    &&& Self::settings_set(
                        *old(self),
                        *final(self),
                        Some((AdminConfig { token, ..old(self).config->Some_0 })),
                        old(self).paused,
                        old(self).events@.push(
                            (Event::CrowdfundingTokenSet { admin: old(self).admin(), token }),
                        ),
                    )
                },
            },
    {
        let admin = match self.check_admin(&caller, CrowdfundingError::NotInitialized) {
            Ok(a) => a,
            Err(e) => {
                return Err(e);
            },
        };
        let fee = match &self.config {
            Some(c) => c.creation_fee,
            None => 0,
        };
        self.events.push(Event::CrowdfundingTokenSet { admin: admin.clone(), token: token.clone() });
        self.config = Some(AdminConfig { admin, token, creation_fee: fee });
        Ok(())
    }

    /// The token that creation fees are paid in.
    pub fn get_crowdfunding_token(&self) -> (r: Result<Address, CrowdfundingError>)
        ensures
            match r {
                Ok(t) => self.config is Some && t == self.config->Some_0.token,
                Err(e) => self.config is None && e == CrowdfundingError::NotInitialized,
            },
    {
        match &self.config {
            Some(c) => Ok(c.token.clone()),
            None => Err(CrowdfundingError::NotInitialized),
        }
    }

    /// Changes the fee charged for opening a campaign.
    pub fn set_creation_fee(&mut self, caller: Address, fee: i128) -> (r: Result<
        (),
        CrowdfundingError,
    >)
        requires
            old(self).wf(),
        ensures
            final(self).wf(),
            match r {
                Err(e) => {
                    &&& *final(self) == *old(self)
                    &&& e == match old(self).admin_error(caller@, CrowdfundingError::NotInitialized) {
                        Some(a) => a,
                        None => CrowdfundingError::InvalidFee,
                    }
                    &&& old(self).admin_error(caller@, CrowdfundingError::NotInitialized) is Some
                        || fee < 0
                },
                Ok(_) => {
                    &&& old(self).admin_error(caller@, CrowdfundingError::NotInitialized) is None
                    &&& fee >= 0
                    &&& Self::settings_set(
                        *old(self),
                        *final(self),
                        Some((AdminConfig { creation_fee: fee, ..old(self).config->Some_0 })),
                        old(self).paused,
                        old(self).events@.push(
                            (Event::CreationFeeSet { admin: old(self).admin(), fee }),
                        ),
                    )
                },
            },
    {
        let admin = match self.check_admin(&caller, CrowdfundingError::NotInitialized) {
            Ok(a) => a,
            Err(e) => {
                return Err(e);
            },
        };
        if fee < 0 {
            return Err(CrowdfundingError::InvalidFee);
        }
        let token = match &self.config {
            Some(c) => c.token.clone(),
            None => admin.clone(),
        };
        self.events.push(Event::CreationFeeSet { admin: admin.clone(), fee });
        self.config = Some(AdminConfig { admin, token, creation_fee: fee });
        Ok(())
    }

    /// The fee charged for opening a campaign; zero when none is configured.
    pub fn get_creation_fee(&self) -> (r: Result<i128, CrowdfundingError>)
        ensures
            r == Ok::<i128, CrowdfundingError>(self.creation_fee()),
    {
        match &self.config {
            Some(c) => Ok(c.creation_fee),
            None => Ok(0),
        }
    }

    /// The error that `request_emergency_withdraw` reports, if any.
    pub open spec fn request_emergency_withdraw_error(&self, caller: Seq<char>) -> Option<
        CrowdfundingError,
    > {
        if self.admin_error(caller, CrowdfundingError::CampaignNotFound) is Some {
            self.admin_error(caller, CrowdfundingError::CampaignNotFound)
        } else if self.emergency_withdrawal is Some {
            Some(CrowdfundingError::EmergencyWithdrawalAlreadyRequested)
        } else {
            None
        }
    }

    /// Asks to move `amount` of `token` to the administrator once
    /// `EMERGENCY_WITHDRAWAL_DELAY` seconds have passed. One request at a time.
    /// Before an administrator is set this reports CampaignNotFound.
    pub fn request_emergency_withdraw(
        &mut self,
        caller: Address,
        token: Address,
        amount: i128,
        now: u64,
    ) -> (r: Result<(), CrowdfundingError>)
        requires
            old(self).wf(),
        ensures
            final(self).wf(),
            match r {
                Err(e) => {
                    &&& *final(self) == *old(self)
                    &&& old(self).request_emergency_withdraw_error(caller@) == Some(e)
                },
                Ok(_) => {
                    &&& old(self).request_emergency_withdraw_error(caller@) is None
                    &&& final(self).address == old(self).address
                    &&& final(self).config == old(self).config
                    &&& final(self).paused == old(self).paused
                    &&& final(self).campaigns == old(self).campaigns
                    &&& final(self).pools == old(self).pools
                    &&& final(self).emergency_withdrawal == Some(
                        (EmergencyWithdrawal {
                            recipient: old(self).admin(),
                            token,
                            amount,
                            requested_at: now,
                            executed: false,
                        }),
                    )
                    &&& final(self).events@ == old(self).events@.push(
                        (Event::EmergencyWithdrawRequested {
                            admin: old(self).admin(),
                            token,
                            amount,
                            unlock_time: unlock_time(now),
                        }),
                    )
                },
            },
    {
        let admin = match self.check_admin(&caller, CrowdfundingError::CampaignNotFound) {
            Ok(a) => a,
            Err(e) => {
                return Err(e);
            },
        };
        if self.emergency_withdrawal.is_some() {
            return Err(CrowdfundingError::EmergencyWithdrawalAlreadyRequested);
        }
        let unlock = if now > u64::MAX - EMERGENCY_WITHDRAWAL_DELAY {
            u64::MAX
        } else {
            now + EMERGENCY_WITHDRAWAL_DELAY
        };
        self.events.push(
            Event::EmergencyWithdrawRequested {
                admin: admin.clone(),
                token: token.clone(),
                amount,
                unlock_time: unlock,
            },
        );
        self.emergency_withdrawal = Some(
            EmergencyWithdrawal {
                recipient: admin,
                token,
                amount,
                requested_at: now,
                executed: false,
            },
        );
        Ok(())
    }

    /// The error that `execute_emergency_withdraw` reports, if any.
    pub open spec fn execute_emergency_withdraw_error(&self, caller: Seq<char>, now: u64) -> Option<
        CrowdfundingError,
    > {
        let w = self.emergency_withdrawal->Some_0;
        if self.admin_error(caller, CrowdfundingError::CampaignNotFound) is Some {
            self.admin_error(caller, CrowdfundingError::CampaignNotFound)
        } else if self.emergency_withdrawal is None {
            Some(CrowdfundingError::EmergencyWithdrawalNotRequested)
        } else if w.executed {
            Some(CrowdfundingError::EmergencyWithdrawalAlreadyRequested)
        } else if now < w.requested_at + EMERGENCY_WITHDRAWAL_DELAY {
            Some(CrowdfundingError::EmergencyWithdrawalPeriodNotPassed)
        } else {
            None
        }
    }

    /// Carries out the pending emergency withdrawal once its delay has
    /// passed: the request is removed, so that a new one may follow, and the
    /// transfer to the administrator is returned. Before an administrator is
    /// set this reports CampaignNotFound.
    pub fn execute_emergency_withdraw(&mut self, caller: Address, now: u64) -> (r: Result<
        Transfer,
        CrowdfundingError,
    >)
        requires
            old(self).wf(),
        ensures
            final(self).wf(),
            match r {
                Err(e) => {
                    &&& *final(self) == *old(self)
                    &&& old(self).execute_emergency_withdraw_error(caller@, now) == Some(e)
                },
                Ok(t) => {
                    let w = old(self).emergency_withdrawal->Some_0;
                    &&& old(self).execute_emergency_withdraw_error(caller@, now) is None
                    &&& final(self).address == old(self).address
                    &&& final(self).config == old(self).config
                    &&& final(self).paused == old(self).paused
                    &&& final(self).campaigns == old(self).campaigns
                    &&& final(self).pools == old(self).pools
                    &&& final(self).emergency_withdrawal is None
                    &&& final(self).events@ == old(self).events@.push(
                        (Event::EmergencyWithdrawExecuted {
                            admin: old(self).admin(),
                            token: w.token,
                            amount: w.amount,
                        }),
                    )
                    &&& t == (Transfer {
                        token: w.token,
                        from: old(self).address,
                        to: old(self).admin(),
                        amount: w.amount,
                    })
                },
            },
    {
        let admin = match self.check_admin(&caller, CrowdfundingError::CampaignNotFound) {
            Ok(a) => a,
            Err(e) => {
                return Err(e);
            },
        };
        let (token, amount) = match &self.emergency_withdrawal {
            None => {
                return Err(CrowdfundingError::EmergencyWithdrawalNotRequested);
            },
            Some(w) => {
                if w.executed {
                    return Err(CrowdfundingError::EmergencyWithdrawalAlreadyRequested);
                }
                if (now as u128) < w.requested_at as u128 + EMERGENCY_WITHDRAWAL_DELAY as u128 {
                    return Err(CrowdfundingError::EmergencyWithdrawalPeriodNotPassed);
                }
                (w.token.clone(), w.amount)
            },
        };
        self.events.push(
            Event::EmergencyWithdrawExecuted { admin: admin.clone(), token: token.clone(), amount },
        );
        self.emergency_withdrawal = None;
        Ok(Transfer { token, from: self.address.clone(), to: admin, amount })
    }
}

} // verus!
