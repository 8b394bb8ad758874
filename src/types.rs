use vstd::prelude::*;

verus! {

/// An account or contract address, held as its textual key.
#[derive(Debug)]
pub struct Address {
    pub key: String,
}

impl View for Address {
    type V = Seq<char>;

    open spec fn view(&self) -> Seq<char> {
        self.key@
    }
}

impl Address {
    pub fn new(key: String) -> (r: Address)
        ensures
            r.key == key,
    {
        Address { key }
    }
}

impl Clone for Address {
    fn clone(&self) -> (r: Address)
        ensures
            r == *self,
    {
        Address { key: self.key.clone() }
    }
}

impl PartialEq for Address {
    fn eq(&self, o: &Address) -> (r: bool) {
        self.key == o.key
    }
}

impl Eq for Address {
}

impl vstd::std_specs::cmp::PartialEqSpecImpl for Address {
    open spec fn obeys_eq_spec() -> bool {
        true
    }

    open spec fn eq_spec(&self, o: &Address) -> bool {
        self@ == o@
    }
}

/// A 32-byte campaign identifier.
#[derive(Clone, Copy, Debug)]
pub struct CampaignId {
    pub bytes: [u8; 32],
}

impl View for CampaignId {
    type V = Seq<u8>;

    open spec fn view(&self) -> Seq<u8> {
        self.bytes@
    }
}

impl CampaignId {
    pub fn from_array(bytes: [u8; 32]) -> (r: CampaignId)
        ensures
            r.bytes == bytes,
    {
        CampaignId { bytes }
    }
}

impl PartialEq for CampaignId {
    fn eq(&self, o: &CampaignId) -> (r: bool) {
        let mut i: usize = 0;
        while i < 32
            invariant
                i <= 32,
                self.bytes@.len() == 32,
                o.bytes@.len() == 32,
                forall|k: int| 0 <= k < i ==> self.bytes@[k] == o.bytes@[k],
            decreases 32 - i,
        {
            if self.bytes[i] != o.bytes[i] {
                return false;
            }
            i = i + 1;
        }
        assert(self.bytes@ =~= o.bytes@);
        true
    }
}

impl Eq for CampaignId {
}

impl vstd::std_specs::cmp::PartialEqSpecImpl for CampaignId {
    open spec fn obeys_eq_spec() -> bool {
        true
    }

    open spec fn eq_spec(&self, o: &CampaignId) -> bool {
        self@ == o@
    }
}


/// The bound on a pool description, in bytes.
pub const MAX_DESCRIPTION_LENGTH: u32 = 500;

/// The bound on a pool's external URL, in bytes.
pub const MAX_URL_LENGTH: u32 = 200;

/// The bound on a pool's image hash, in bytes.
pub const MAX_HASH_LENGTH: u32 = 100;

/// Seconds that must pass after a pool's deadline before refunds open.
pub const REFUND_GRACE_PERIOD: u64 = 604800;

/// Seconds between an emergency withdrawal request and its execution.
pub const EMERGENCY_WITHDRAWAL_DELAY: u64 = 86400;

/// Length of a string in bytes, as UTF-8 (the value that `str::len` reports).
pub open spec fn byte_len(s: &String) -> usize {
    vstd::utf8::encode_utf8(s@).len() as usize
}

pub fn string_byte_len(s: &String) -> (r: usize)
    ensures
        r == byte_len(s),
{
    s.as_str().len()
}

pub fn string_is_empty(s: &String) -> (r: bool)
    ensures
        r == (s@.len() == 0),
{
    s.as_str().is_empty()
}

#[derive(Debug)]
pub struct CampaignDetails {
    pub id: CampaignId,
    pub title: String,
    pub creator: Address,
    pub goal: i128,
    pub deadline: u64,
    pub total_raised: i128,
    pub token_address: Address,
}

impl Clone for CampaignDetails {
    fn clone(&self) -> (r: CampaignDetails)
        ensures
            r == *self,
    {
        CampaignDetails {
            id: self.id,
            title: self.title.clone(),
            creator: self.creator.clone(),
            goal: self.goal,
            deadline: self.deadline,
            total_raised: self.total_raised,
            token_address: self.token_address.clone(),
        }
    }
}

#[derive(Clone, Debug)]
pub struct MultiSigConfig {
    pub required_signatures: u32,
    pub signers: Vec<Address>,
}

impl MultiSigConfig {
    /// At least one signature is required, and no more than there are signers.
    pub open spec fn is_valid(&self) -> bool {
        0 < self.required_signatures <= self.signers@.len()
    }
}

/// The accounting part of a donation pool. Its deadline is `created_at + duration`.
#[derive(Debug)]
pub struct PoolConfig {
    pub name: String,
    pub description: String,
    pub target_amount: i128,
    pub is_private: bool,
    pub duration: u64,
    pub created_at: u64,
}

impl Clone for PoolConfig {
    fn clone(&self) -> (r: PoolConfig)
        ensures
            r == *self,
    {
        PoolConfig {
            name: self.name.clone(),
            description: self.description.clone(),
            target_amount: self.target_amount,
            is_private: self.is_private,
            duration: self.duration,
            created_at: self.created_at,
        }
    }
}

impl PoolConfig {
    /// A named pool with a positive target and a positive duration.
    pub open spec fn is_valid(&self) -> bool {
        &&& self.name@.len() > 0
        &&& self.target_amount > 0
        &&& self.duration > 0
    }

    /// Tells whether the configuration may be stored as a pool.
    pub fn validate(&self) -> (r: bool)
        ensures
            r == self.is_valid(),
    {
        !string_is_empty(&self.name) && self.target_amount > 0 && self.duration > 0
    }
}

#[derive(Debug)]
pub struct PoolMetadata {
    pub description: String,
    pub external_url: String,
    pub image_hash: String,
}

impl Clone for PoolMetadata {
    fn clone(&self) -> (r: PoolMetadata)
        ensures
            r == *self,
    {
        PoolMetadata {
            description: self.description.clone(),
            external_url: self.external_url.clone(),
            image_hash: self.image_hash.clone(),
        }
    }
}

impl PoolMetadata {
    pub open spec fn within_bounds(&self) -> bool {
        &&& byte_len(&self.description) <= MAX_DESCRIPTION_LENGTH
        &&& byte_len(&self.external_url) <= MAX_URL_LENGTH
        &&& byte_len(&self.image_hash) <= MAX_HASH_LENGTH
    }
}

#[derive(Clone, Copy, Debug, PartialEq, Eq, Structural)]
pub enum PoolState {
    Active,
    Paused,
    Completed,
    Cancelled,
    Disbursed,
    Closed,
}

#[derive(Clone, Copy, Debug, PartialEq, Eq, Structural)]
pub struct CampaignMetrics {
    pub total_raised: i128,
    pub contributor_count: u32,
    pub last_donation_at: u64,
}

impl CampaignMetrics {
    pub fn new() -> (r: CampaignMetrics)
        ensures
            r.total_raised == 0,
            r.contributor_count == 0,
            r.last_donation_at == 0,
    {
        CampaignMetrics { total_raised: 0, contributor_count: 0, last_donation_at: 0 }
    }
}

#[derive(Clone, Copy, Debug, PartialEq, Eq, Structural)]
pub struct PoolMetrics {
    pub total_raised: i128,
    pub contributor_count: u32,
    pub last_donation_at: u64,
}

impl PoolMetrics {
    /// Creates zero-initialized metrics for a new pool.
    pub fn new() -> (r: PoolMetrics)
        ensures
            r.total_raised == 0,
            r.contributor_count == 0,
            r.last_donation_at == 0,
    {
        PoolMetrics { total_raised: 0, contributor_count: 0, last_donation_at: 0 }
    }
}

/// A donor's cumulative amount given to one campaign.
#[derive(Clone, Debug)]
pub struct Contribution {
    pub contributor: Address,
    pub amount: i128,
}

/// A contributor's cumulative amount given to one pool, and the asset last used.
/// A refund sets the amount to zero and keeps the record.
#[derive(Clone, Debug)]
pub struct PoolContribution {
    pub contributor: Address,
    pub amount: i128,
    pub asset: Address,
}

/// A proposed payout from a pool, to be approved by its signers.
#[derive(Clone, Debug)]
pub struct DisbursementRequest {
    pub pool_id: u64,
    pub amount: i128,
    pub recipient: Address,
    pub approvals: Vec<Address>,
    pub created_at: u64,
    pub executed: bool,
}

/// The single outstanding request to recover funds to the admin.
#[derive(Clone, Debug)]
pub struct EmergencyWithdrawal {
    pub recipient: Address,
    pub token: Address,
    pub amount: i128,
    pub requested_at: u64,
    pub executed: bool,
}

/// A movement of `amount` of the asset `token` that the caller must carry out
/// for an operation to take effect.
#[derive(Clone, Debug)]
pub struct Transfer {
    pub token: Address,
    pub from: Address,
    pub to: Address,
    pub amount: i128,
}

} // verus!
