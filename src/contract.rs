use vstd::prelude::*;

use crate::events::Event;
use crate::ledger::sum_of;
use crate::types::{
    Address, CampaignDetails, CampaignId, CampaignMetrics, Contribution, EmergencyWithdrawal,
    MultiSigConfig, PoolConfig, PoolContribution, PoolMetadata, PoolMetrics, PoolState,
};

verus! {

/// The administrator and the settings that only the administrator changes.
#[derive(Clone)]
pub struct AdminConfig {
    pub admin: Address,
    pub token: Address,
    pub creation_fee: i128,
}

/// A campaign with its metrics and its per-donor ledger.
#[derive(Clone)]
pub struct CampaignRecord {
    pub details: CampaignDetails,
    pub metrics: CampaignMetrics,
    pub contributions: Vec<Contribution>,
}

/// A pool with its state, metrics, optional metadata and signer set, and its
/// per-contributor ledger. Pool `n` is the `n`-th pool created, counting from one.
#[derive(Clone)]
pub struct PoolRecord {
    pub config: PoolConfig,
    pub metadata: Option<PoolMetadata>,
    pub state: PoolState,
    pub metrics: PoolMetrics,
    pub multi_sig: Option<MultiSigConfig>,
    pub contributions: Vec<PoolContribution>,
}

/// The whole ledger state. Every operation either applies all its changes
/// or returns an error and leaves the state as it was.
#[derive(Clone)]
pub struct CrowdfundingContract {
    /// The ledger's own address, which holds the funds it receives.
    pub address: Address,
    pub config: Option<AdminConfig>,
    pub paused: bool,
    /// Campaigns in order of creation.
    pub campaigns: Vec<CampaignRecord>,
    /// Pools in order of creation; the pool with id `n` is at index `n - 1`.
    pub pools: Vec<PoolRecord>,
    pub emergency_withdrawal: Option<EmergencyWithdrawal>,
    /// Notifications, oldest first.
    pub events: Vec<Event>,
}

pub open spec fn donated_amount() -> spec_fn(Contribution) -> int {
    |c: Contribution| c.amount as int
}

pub open spec fn contributed_amount() -> spec_fn(PoolContribution) -> int {
    |c: PoolContribution| c.amount as int
}

/// The sum of what the donors of a campaign have given.
pub open spec fn campaign_raised(s: Seq<Contribution>) -> int {
    sum_of(s, donated_amount())
}

/// The sum of what the contributors of a pool hold in it.
pub open spec fn pool_raised(s: Seq<PoolContribution>) -> int {
    sum_of(s, contributed_amount())
}

pub open spec fn distinct_donors(s: Seq<Contribution>) -> bool {
    forall|i: int, j: int|
        0 <= i < s.len() && 0 <= j < s.len() && i != j ==> s[i].contributor@ != s[j].contributor@
}

pub open spec fn distinct_contributors(s: Seq<PoolContribution>) -> bool {
    forall|i: int, j: int|
        0 <= i < s.len() && 0 <= j < s.len() && i != j ==> s[i].contributor@ != s[j].contributor@
}

/// Position of the donor `a` in `s`, or -1.
pub open spec fn donor_index(s: Seq<Contribution>, a: Seq<char>) -> int {
    if exists|i: int| 0 <= i < s.len() && s[i].contributor@ == a {
        choose|i: int| 0 <= i < s.len() && s[i].contributor@ == a
    } else {
        -1
    }
}

/// Position of the contributor `a` in `s`, or -1.
pub open spec fn contributor_index(s: Seq<PoolContribution>, a: Seq<char>) -> int {
    if exists|i: int| 0 <= i < s.len() && s[i].contributor@ == a {
        choose|i: int| 0 <= i < s.len() && s[i].contributor@ == a
    } else {
        -1
    }
}

/// Position of the campaign `id` in `s`, or -1.
pub open spec fn campaign_position(s: Seq<CampaignRecord>, id: Seq<u8>) -> int {
    if exists|i: int| 0 <= i < s.len() && s[i].details.id@ == id {
        choose|i: int| 0 <= i < s.len() && s[i].details.id@ == id
    } else {
        -1
    }
}

pub open spec fn distinct_campaigns(s: Seq<CampaignRecord>) -> bool {
    forall|i: int, j: int|
        0 <= i < s.len() && 0 <= j < s.len() && i != j ==> s[i].details.id@ != s[j].details.id@
}

pub proof fn lemma_donor_index(s: Seq<Contribution>, a: Seq<char>, i: int)
    requires
        distinct_donors(s),
        0 <= i < s.len(),
        s[i].contributor@ == a,
    ensures
        donor_index(s, a) == i,
{
}

pub proof fn lemma_contributor_index(s: Seq<PoolContribution>, a: Seq<char>, i: int)
    requires
        distinct_contributors(s),
        0 <= i < s.len(),
        s[i].contributor@ == a,
    ensures
        contributor_index(s, a) == i,
{
}

pub proof fn lemma_campaign_position(s: Seq<CampaignRecord>, id: Seq<u8>, i: int)
    requires
        distinct_campaigns(s),
        0 <= i < s.len(),
        s[i].details.id@ == id,
    ensures
        campaign_position(s, id) == i,
{
}

impl CampaignRecord {
    pub open spec fn wf(&self) -> bool {
        &&& self.details.total_raised == self.metrics.total_raised
        &&& self.metrics.total_raised == campaign_raised(self.contributions@)
        &&& self.metrics.contributor_count == self.contributions@.len()
        &&& forall|k: int|
            0 <= k < self.contributions@.len() ==> #[trigger] self.contributions@[k].amount > 0
        &&& distinct_donors(self.contributions@)
    }
}

impl PoolRecord {
    pub open spec fn wf(&self) -> bool {
        &&& self.config.created_at + self.config.duration <= u64::MAX
        &&& self.metrics.total_raised == pool_raised(self.contributions@)
        &&& forall|k: int|
            0 <= k < self.contributions@.len() ==> #[trigger] self.contributions@[k].amount >= 0
        &&& distinct_contributors(self.contributions@)
        &&& match self.multi_sig {
            Some(m) => m.is_valid(),
            None => true,
        }
    }

    /// The moment after which no contribution is expected.
    pub open spec fn deadline(&self) -> int {
        self.config.created_at + self.config.duration
    }
}

impl CrowdfundingContract {
    pub open spec fn wf(&self) -> bool {
        &&& match self.config {
            Some(c) => c.creation_fee >= 0,
            None => true,
        }
        &&& distinct_campaigns(self.campaigns@)
        &&& forall|i: int| 0 <= i < self.campaigns@.len() ==> #[trigger] self.campaigns@[i].wf()
        &&& self.pools@.len() < u64::MAX
        &&& forall|i: int| 0 <= i < self.pools@.len() ==> #[trigger] self.pools@[i].wf()
        &&& match self.emergency_withdrawal {
            Some(w) => !w.executed,
            None => true,
        }
    }

    /// The other parts of the state than campaigns, pools and events are equal.
    pub open spec fn same_settings(&self, o: &Self) -> bool {
        &&& self.address == o.address
        &&& self.config == o.config
        &&& self.paused == o.paused
        &&& self.emergency_withdrawal == o.emergency_withdrawal
    }

    pub open spec fn creation_fee(&self) -> i128 {
        match self.config {
            Some(c) => c.creation_fee,
            None => 0,
        }
    }

    pub open spec fn campaign_index(&self, id: CampaignId) -> int {
        campaign_position(self.campaigns@, id@)
    }

    pub open spec fn has_campaign(&self, id: CampaignId) -> bool {
        self.campaign_index(id) >= 0
    }

    pub open spec fn campaign(&self, id: CampaignId) -> CampaignRecord {
        self.campaigns@[self.campaign_index(id)]
    }

    /// What `donor` has given to the campaign `id` so far.
    pub open spec fn contribution_of(&self, id: CampaignId, donor: Seq<char>) -> int {
        let s = self.campaign(id).contributions@;
        let j = donor_index(s, donor);
        if j < 0 {
            0
        } else {
            s[j].amount as int
        }
    }

    /// Whether the pool `pool_id` exists.
    pub open spec fn has_pool(&self, pool_id: u64) -> bool {
        1 <= pool_id <= self.pools@.len()
    }

    pub open spec fn pool(&self, pool_id: u64) -> PoolRecord {
        self.pools@[pool_id - 1]
    }

    /// The amount that `contributor` has in the pool `pool_id` now.
    pub open spec fn pool_contribution_of(&self, pool_id: u64, contributor: Seq<char>) -> int {
        let s = self.pool(pool_id).contributions@;
        let j = contributor_index(s, contributor);
        if j < 0 {
            0
        } else {
            s[j].amount as int
        }
    }

    /// An empty ledger, with no administrator yet, holding funds at `address`.
    pub fn new(address: Address) -> (r: Self)
        ensures
            r.wf(),
            r.address == address,
            r.config is None,
            !r.paused,
            r.campaigns@.len() == 0,
            r.pools@.len() == 0,
            r.emergency_withdrawal is None,
            r.events@.len() == 0,
    {
        CrowdfundingContract {
            address,
            config: None,
            paused: false,
            campaigns: Vec::new(),
            pools: Vec::new(),
            emergency_withdrawal: None,
            events: Vec::new(),
        }
    }

    pub(crate) fn find_campaign(&self, id: &CampaignId) -> (r: Option<usize>)
        requires
            self.wf(),
        ensures
            match r {
                Some(i) => i < self.campaigns@.len() && i == self.campaign_index(*id),
                None => self.campaign_index(*id) == -1,
            },
    {
        let mut i: usize = 0;
        while i < self.campaigns.len()
            invariant
                self.wf(),
                i <= self.campaigns@.len(),
                forall|k: int| 0 <= k < i ==> self.campaigns@[k].details.id@ != id@,
            decreases self.campaigns@.len() - i,
        {
            if self.campaigns[i].details.id == *id {
                proof {
                    lemma_campaign_position(self.campaigns@, id@, i as int);
                }
                return Some(i);
            }
            i = i + 1;
        }
        None
    }
}

pub(crate) fn find_donor(s: &Vec<Contribution>, a: &Address) -> (r: Option<usize>)
    requires
        distinct_donors(s@),
    ensures
        match r {
            Some(i) => i < s@.len() && i == donor_index(s@, a@),
            None => donor_index(s@, a@) == -1,
        },
{
    let mut i: usize = 0;
    while i < s.len()
        invariant
            distinct_donors(s@),
            i <= s@.len(),
            forall|k: int| 0 <= k < i ==> s@[k].contributor@ != a@,
        decreases s@.len() - i,
    {
        if s[i].contributor == *a {
            proof {
                lemma_donor_index(s@, a@, i as int);
            }
            return Some(i);
        }
        i = i + 1;
    }
    None
}

pub(crate) fn find_contributor(s: &Vec<PoolContribution>, a: &Address) -> (r: Option<usize>)
    requires
        distinct_contributors(s@),
    ensures
        match r {
            Some(i) => i < s@.len() && i == contributor_index(s@, a@),
            None => contributor_index(s@, a@) == -1,
        },
{
    let mut i: usize = 0;
    while i < s.len()
        invariant
            distinct_contributors(s@),
            i <= s@.len(),
            forall|k: int| 0 <= k < i ==> s@[k].contributor@ != a@,
        decreases s@.len() - i,
    {
        if s[i].contributor == *a {
            proof {
                lemma_contributor_index(s@, a@, i as int);
            }
            return Some(i);
        }
        i = i + 1;
    }
    None
}

} // verus!
