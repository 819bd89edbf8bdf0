use vstd::prelude::*;

use crate::auth::{same_id, Address, Grant, Operation};
use crate::keyed::{
    has_key, index_of, keyed, keys_unique, lemma_keyed_at, lemma_keyed_push, lemma_keyed_update, Keyed,
};

verus! {

/// Funding state of a campaign: `Draft -> Active -> Funded -> Completed`,
/// or `Cancelled` from any non-terminal state.
#[derive(Clone, Copy, Debug, PartialEq, Eq, Structural)]
pub enum CampaignStatus {
    Draft,
    Active,
    Funded,
    Completed,
    Cancelled,
}

#[derive(Clone, Copy, Debug, PartialEq, Eq, Structural)]
pub enum CampaignError {
    CampaignNotFound,
    InvalidTarget,
    NotDraft,
    NotActive,
    Unauthorized,
    InsufficientFunds,
    AlreadyExists,
    InvalidAmount,
    Overflow,
    Closed,
}

/// A campaign's record: its goal and its donation and release accounting.
#[derive(Debug)]
pub struct Campaign {
    pub id: [u8; 32],
    pub title: String,
    pub description: String,
    pub target_amount: i128,
    pub current_amount: i128,
    pub released_amount: i128,
    pub creator: Address,
    pub status: CampaignStatus,
    pub created_at: u64,
    /// The component allowed to record donations, if any.
    pub donation_contract: Option<Address>,
    /// The component allowed to release milestone funds, if any.
    pub verification_contract: Option<Address>,
}

/// A status in which the campaign accepts donations.
pub open spec fn fundable(s: CampaignStatus) -> bool {
    s == CampaignStatus::Active || s == CampaignStatus::Funded
}

pub open spec fn terminal(s: CampaignStatus) -> bool {
    s == CampaignStatus::Completed || s == CampaignStatus::Cancelled
}

/// The escrow's accounting holds: a positive target, and releases never
/// exceed what was donated.
pub open spec fn sound(c: Campaign) -> bool {
    &&& c.target_amount > 0
    &&& 0 <= c.released_amount <= c.current_amount
}

pub open spec fn available(c: Campaign) -> int {
    c.current_amount - c.released_amount
}

pub open spec fn new_campaign(
    creator: Address,
    id: [u8; 32],
    title: String,
    description: String,
    target_amount: i128,
    now: u64,
) -> Campaign {
    Campaign {
        id,
        title,
        description,
        target_amount,
        current_amount: 0,
        released_amount: 0,
        creator,
        status: CampaignStatus::Draft,
        created_at: now,
        donation_contract: None,
        verification_contract: None,
    }
}

pub open spec fn with_status(c: Campaign, status: CampaignStatus) -> Campaign {
    Campaign { status, ..c }
}

/// The status after a donation: `Active` becomes `Funded` once the target is
/// reached; every other status stays as it was.
pub open spec fn status_after_donation(c: Campaign, current: int) -> CampaignStatus {
    if c.status == CampaignStatus::Active && current >= c.target_amount {
        CampaignStatus::Funded
    } else {
        c.status
    }
}

/// The status after a release: `Completed` once releases reach the target.
pub open spec fn status_after_release(c: Campaign, released: int) -> CampaignStatus {
    if released >= c.target_amount {
        CampaignStatus::Completed
    } else {
        c.status
    }
}

pub open spec fn after_donation(c: Campaign, amount: i128) -> Campaign {
    Campaign {
        current_amount: (c.current_amount + amount) as i128,
        status: status_after_donation(c, c.current_amount + amount),
        ..c
    }
}

pub open spec fn after_release(c: Campaign, amount: i128) -> Campaign {
    Campaign {
        released_amount: (c.released_amount + amount) as i128,
        status: status_after_release(c, c.released_amount + amount),
        ..c
    }
}

pub open spec fn initialize_outcome(
    m: Map<Seq<u8>, Campaign>,
    creator: Address,
    id: [u8; 32],
    title: String,
    description: String,
    target_amount: i128,
    now: u64,
) -> Result<Campaign, CampaignError> {
    if target_amount <= 0 {
        Err(CampaignError::InvalidTarget)
    } else if m.contains_key(id@) {
        Err(CampaignError::AlreadyExists)
    } else {
        Ok(new_campaign(creator, id, title, description, target_amount, now))
    }
}

pub open spec fn authorize_outcome(
    m: Map<Seq<u8>, Campaign>,
    caller: Address,
    id: Seq<u8>,
    donation: Option<Address>,
    verification: Option<Address>,
) -> Result<Campaign, CampaignError> {
    if !m.contains_key(id) {
        Err(CampaignError::CampaignNotFound)
    } else if m[id].creator != caller {
        Err(CampaignError::Unauthorized)
    } else {
        Ok(Campaign { donation_contract: donation, verification_contract: verification, ..m[id] })
    }
}

pub open spec fn activate_outcome(m: Map<Seq<u8>, Campaign>, caller: Address, id: Seq<u8>) -> Result<
    Campaign,
    CampaignError,
> {
    if !m.contains_key(id) {
        Err(CampaignError::CampaignNotFound)
    } else if m[id].creator != caller {
        Err(CampaignError::Unauthorized)
    } else if m[id].status != CampaignStatus::Draft {
        Err(CampaignError::NotDraft)
    } else {
        Ok(with_status(m[id], CampaignStatus::Active))
    }
}

pub open spec fn cancel_outcome(m: Map<Seq<u8>, Campaign>, caller: Address, id: Seq<u8>) -> Result<
    Campaign,
    CampaignError,
> {
    if !m.contains_key(id) {
        Err(CampaignError::CampaignNotFound)
    } else if m[id].creator != caller {
        Err(CampaignError::Unauthorized)
    } else if terminal(m[id].status) {
        Err(CampaignError::Closed)
    } else {
        Ok(with_status(m[id], CampaignStatus::Cancelled))
    }
}

pub open spec fn donation_outcome(
    m: Map<Seq<u8>, Campaign>,
    ledger: Address,
    grant: Grant,
    id: Seq<u8>,
    amount: i128,
) -> Result<Campaign, CampaignError> {
    if !m.contains_key(id) {
        Err(CampaignError::CampaignNotFound)
    } else if amount <= 0 {
        Err(CampaignError::InvalidAmount)
    } else if !grant.covers(ledger, Operation::RecordDonation, id, amount)
        || m[id].donation_contract != Some(grant.issuer) {
        Err(CampaignError::Unauthorized)
    } else if !fundable(m[id].status) {
        Err(CampaignError::NotActive)
    } else if m[id].current_amount + amount > i128::MAX {
        Err(CampaignError::Overflow)
    } else {
        Ok(after_donation(m[id], amount))
    }
}

pub open spec fn release_outcome(
    m: Map<Seq<u8>, Campaign>,
    ledger: Address,
    grant: Grant,
    id: Seq<u8>,
    amount: i128,
) -> Result<Campaign, CampaignError> {
    if !m.contains_key(id) {
        Err(CampaignError::CampaignNotFound)
    } else if amount <= 0 {
        Err(CampaignError::InvalidAmount)
    } else if amount > available(m[id]) {
        Err(CampaignError::InsufficientFunds)
    } else if m[id].status == CampaignStatus::Cancelled {
        Err(CampaignError::Closed)
    } else if !grant.covers(ledger, Operation::ReleaseMilestoneFunds, id, amount)
        || m[id].verification_contract != Some(grant.issuer) {
        Err(CampaignError::Unauthorized)
    } else {
        Ok(after_release(m[id], amount))
    }
}

pub open spec fn lookup(m: Map<Seq<u8>, Campaign>, id: Seq<u8>) -> Result<Campaign, CampaignError> {
    if m.contains_key(id) {
        Ok(m[id])
    } else {
        Err(CampaignError::CampaignNotFound)
    }
}

/// Donations and releases keep every record's accounting sound: starting from
/// sound records, each call leaves `0 <= released_amount <= current_amount`.
pub proof fn lemma_escrow_stays_sound(
    m: Map<Seq<u8>, Campaign>,
    ledger: Address,
    grant: Grant,
    id: Seq<u8>,
    amount: i128,
)
    requires
        forall|k: Seq<u8>| #[trigger] m.contains_key(k) ==> sound(m[k]),
    ensures
        forall|k: Seq<u8>| #[trigger] committed(m, id, donation_outcome(m, ledger, grant, id, amount)).contains_key(k)
            ==> sound(committed(m, id, donation_outcome(m, ledger, grant, id, amount))[k]),
        forall|k: Seq<u8>| #[trigger] committed(m, id, release_outcome(m, ledger, grant, id, amount)).contains_key(k)
            ==> sound(committed(m, id, release_outcome(m, ledger, grant, id, amount))[k]),
{
}

/// A release larger than the unreleased balance fails with
/// `InsufficientFunds` and leaves the ledger as it was.
pub proof fn lemma_release_capped(
    m: Map<Seq<u8>, Campaign>,
    ledger: Address,
    grant: Grant,
    id: Seq<u8>,
    amount: i128,
)
    requires
        m.contains_key(id),
        sound(m[id]),
        amount > available(m[id]),
    ensures
        release_outcome(m, ledger, grant, id, amount) == Err::<Campaign, CampaignError>(
            CampaignError::InsufficientFunds,
        ),
        committed(m, id, release_outcome(m, ledger, grant, id, amount)) == m,
{
}

/// A donation moves an `Active` campaign to `Funded` exactly when the new
/// total reaches the target; a `Funded` campaign stays `Funded`, and no
/// donation completes a campaign.
pub proof fn lemma_funded_transition(
    m: Map<Seq<u8>, Campaign>,
    ledger: Address,
    grant: Grant,
    id: Seq<u8>,
    amount: i128,
)
    requires
        donation_outcome(m, ledger, grant, id, amount) is Ok,
    ensures
        ({
            let c = donation_outcome(m, ledger, grant, id, amount)->Ok_0;
            &&& c.current_amount == m[id].current_amount + amount
            &&& (c.status == CampaignStatus::Funded) == (m[id].status == CampaignStatus::Funded || (
            m[id].status == CampaignStatus::Active && c.current_amount >= m[id].target_amount))
            &&& (c.status == CampaignStatus::Active) == (m[id].status == CampaignStatus::Active
                && c.current_amount < m[id].target_amount)
            &&& c.status != CampaignStatus::Completed
        }),
{
}

/// A release completes a campaign exactly when the released total reaches the
/// target; below the target the status is left as it was. A cancelled
/// campaign releases nothing and stays cancelled.
pub proof fn lemma_completed_transition(
    m: Map<Seq<u8>, Campaign>,
    ledger: Address,
    grant: Grant,
    id: Seq<u8>,
    amount: i128,
)
    requires
        release_outcome(m, ledger, grant, id, amount) is Ok,
    ensures
        ({
            let c = release_outcome(m, ledger, grant, id, amount)->Ok_0;
            &&& c.released_amount == m[id].released_amount + amount
            &&& c.released_amount >= m[id].target_amount ==> c.status == CampaignStatus::Completed
            &&& c.released_amount < m[id].target_amount ==> c.status == m[id].status
            &&& m[id].status != CampaignStatus::Cancelled
        }),
{
}

/// A release on a cancelled campaign that the balance would cover fails with
/// `Closed` and leaves the ledger as it was.
pub proof fn lemma_cancelled_is_terminal(
    m: Map<Seq<u8>, Campaign>,
    ledger: Address,
    grant: Grant,
    id: Seq<u8>,
    amount: i128,
)
    requires
        m.contains_key(id),
        m[id].status == CampaignStatus::Cancelled,
        0 < amount <= available(m[id]),
    ensures
        release_outcome(m, ledger, grant, id, amount) == Err::<Campaign, CampaignError>(
            CampaignError::Closed,
        ),
        committed(m, id, release_outcome(m, ledger, grant, id, amount)) == m,
{
}

/// An authorized donation to an `Active` or `Funded` campaign is accepted
/// whenever the new total fits in `i128`: the total grows by the amount, an
/// `Active` campaign becomes `Funded` exactly when the total reaches the
/// target, and a `Funded` one stays `Funded`.
pub proof fn lemma_donation_accepted(
    m: Map<Seq<u8>, Campaign>,
    ledger: Address,
    grant: Grant,
    id: Seq<u8>,
    amount: i128,
)
    requires
        m.contains_key(id),
        fundable(m[id].status),
        amount > 0,
        grant.covers(ledger, Operation::RecordDonation, id, amount),
        m[id].donation_contract == Some(grant.issuer),
        m[id].current_amount + amount <= i128::MAX,
    ensures
        donation_outcome(m, ledger, grant, id, amount) is Ok,
        ({
            let c = donation_outcome(m, ledger, grant, id, amount)->Ok_0;
            &&& c.current_amount == m[id].current_amount + amount
            &&& c.status == (if m[id].status == CampaignStatus::Active && m[id].current_amount + amount
                < m[id].target_amount {
                CampaignStatus::Active
            } else {
                CampaignStatus::Funded
            })
        }),
{
}

/// Only the stored creator may activate, cancel or re-authorize a campaign:
/// any other principal gets `Unauthorized`, which leaves the ledger as it was.
pub proof fn lemma_only_creator_controls(
    m: Map<Seq<u8>, Campaign>,
    caller: Address,
    id: Seq<u8>,
    donation: Option<Address>,
    verification: Option<Address>,
)
    requires
        m.contains_key(id),
        m[id].creator != caller,
    ensures
        activate_outcome(m, caller, id) == Err::<Campaign, CampaignError>(CampaignError::Unauthorized),
        cancel_outcome(m, caller, id) == Err::<Campaign, CampaignError>(CampaignError::Unauthorized),
        authorize_outcome(m, caller, id, donation, verification) == Err::<Campaign, CampaignError>(
            CampaignError::Unauthorized,
        ),
        committed(m, id, activate_outcome(m, caller, id)) == m,
        committed(m, id, cancel_outcome(m, caller, id)) == m,
{
}

/// The map that a mutating call leaves: the returned record under its id on
/// success, the old map on failure.
pub open spec fn committed(
    m: Map<Seq<u8>, Campaign>,
    id: Seq<u8>,
    r: Result<Campaign, CampaignError>,
) -> Map<Seq<u8>, Campaign> {
    match r {
        Ok(c) => m.insert(id, c),
        Err(_) => m,
    }
}

impl Campaign {
    /// A field-by-field copy.
    pub fn duplicate(&self) -> (r: Campaign)
        ensures
            r == *self,
    {
        Campaign {
            id: self.id,
            title: self.title.clone(),
            description: self.description.clone(),
            target_amount: self.target_amount,
            current_amount: self.current_amount,
            released_amount: self.released_amount,
            creator: self.creator,
            status: self.status,
            created_at: self.created_at,
            donation_contract: self.donation_contract,
            verification_contract: self.verification_contract,
        }
    }
}

impl Keyed for Campaign {
    open spec fn key(&self) -> Seq<u8> {
        self.id@
    }
}

/// The campaign ledger: every campaign's record, addressed by its id.
pub struct CampaignContract {
    address: Address,
    campaigns: Vec<Campaign>,
}

impl View for CampaignContract {
    type V = Map<Seq<u8>, Campaign>;

    closed spec fn view(&self) -> Map<Seq<u8>, Campaign> {
        keyed(self.campaigns@)
    }
}

impl CampaignContract {
    /// This ledger's own address, to which delegated grants are scoped.
    pub closed spec fn ledger(&self) -> Address {
        self.address
    }

    pub fn address(&self) -> (r: Address)
        ensures
            r == self.ledger(),
    {
        self.address
    }

    /// Ids are unique, and every record's accounting is sound.
    pub closed spec fn wf(&self) -> bool {
        &&& keys_unique(self.campaigns@)
        &&& forall|i: int| 0 <= i < self.campaigns@.len() ==> sound(#[trigger] self.campaigns@[i])
    }

    /// Every campaign in a well-formed ledger keeps `0 <= released <= current`.
    pub proof fn lemma_accounts_sound(&self)
        requires
            self.wf(),
        ensures
            forall|k: Seq<u8>| #[trigger] self@.contains_key(k) ==> sound(self@[k]),
    {
        assert forall|k: Seq<u8>| #[trigger] self@.contains_key(k) implies sound(self@[k]) by {
            let j = index_of(self.campaigns@, k);
            assert(0 <= j < self.campaigns@.len() && self.campaigns@[j].id@ == k);
            lemma_keyed_at(self.campaigns@, j);
        }
    }

    pub fn new(address: Address) -> (r: CampaignContract)
        ensures
            r.wf(),
            r.ledger() == address,
            r@ == Map::<Seq<u8>, Campaign>::empty(),
    {
        let r = CampaignContract { address, campaigns: Vec::new() };
        assert(r@ =~= Map::<Seq<u8>, Campaign>::empty());
        r
    }

    fn position(&self, id: &[u8; 32]) -> (r: Option<usize>)
        requires
            self.wf(),
        ensures
            match r {
                Some(i) => {
                    &&& i < self.campaigns@.len()
                    &&& self.campaigns@[i as int].id@ == id@
                    &&& self@.contains_key(id@)
                    &&& self@[id@] == self.campaigns@[i as int]
                },
                None => !self@.contains_key(id@),
            },
    {
        let mut i: usize = 0;
        while i < self.campaigns.len()
            invariant
                self.wf(),
                0 <= i <= self.campaigns@.len(),
                forall|k: int| 0 <= k < i ==> self.campaigns@[k].id@ != id@,
            decreases self.campaigns@.len() - i,
        {
            if same_id(&self.campaigns[i].id, id) {
                proof {
                    lemma_keyed_at(self.campaigns@, i as int);
                }
                return Some(i);
            }
            i = i + 1;
        }
        None
    }

    /// Replaces the record at `i` by `c`, which carries the same id and sound accounting.
    fn store(&mut self, i: usize, c: Campaign)
        requires
            old(self).wf(),
            i < old(self).campaigns@.len(),
            c.id@ == old(self).campaigns@[i as int].id@,
            sound(c),
        ensures
            final(self).wf(),
            final(self).ledger() == old(self).ledger(),
            final(self)@ == old(self)@.insert(c.id@, c),
    {
        proof {
            lemma_keyed_update(self.campaigns@, i as int, c);
        }
        self.campaigns.set(i, c);
    }

    /// Creates a campaign in `Draft` with zero accumulators; `creator` is the
    /// authenticated caller, `now` the clock reading.
    pub fn initialize(
        &mut self,
        creator: Address,
        campaign_id: [u8; 32],
        title: String,
        description: String,
        target_amount: i128,
        now: u64,
    ) -> (r: Result<Campaign, CampaignError>)
        requires
            old(self).wf(),
        ensures
            final(self).wf(),
            final(self).ledger() == old(self).ledger(),
            r == initialize_outcome(old(self)@, creator, campaign_id, title, description, target_amount, now),
            final(self)@ == committed(old(self)@, campaign_id@, r),
    {
        if target_amount <= 0 {
            return Err(CampaignError::InvalidTarget);
        }
        if self.position(&campaign_id).is_some() {
            return Err(CampaignError::AlreadyExists);
        }
        let c = Campaign {
            id: campaign_id,
            title,
            description,
            target_amount,
            current_amount: 0,
            released_amount: 0,
            creator,
            status: CampaignStatus::Draft,
            created_at: now,
            donation_contract: None,
            verification_contract: None,
        };
        let out = c.duplicate();
        proof {
            assert(!has_key(self.campaigns@, campaign_id@));
            lemma_keyed_push(self.campaigns@, c);
        }
        self.campaigns.push(c);
        Ok(out)
    }

    /// Registers the components allowed to record donations and to release
    /// milestone funds. Only the creator may do so.
    pub fn set_authorized_contracts(
        &mut self,
        creator: Address,
        campaign_id: [u8; 32],
        donation_contract: Option<Address>,
        verification_contract: Option<Address>,
    ) -> (r: Result<Campaign, CampaignError>)
        requires
            old(self).wf(),
        ensures
            final(self).wf(),
            final(self).ledger() == old(self).ledger(),
            r == authorize_outcome(old(self)@, creator, campaign_id@, donation_contract, verification_contract),
            final(self)@ == committed(old(self)@, campaign_id@, r),
    {
        let i = match self.position(&campaign_id) {
            Some(i) => i,
            None => return Err(CampaignError::CampaignNotFound),
        };
        let mut c = self.campaigns[i].duplicate();
        if c.creator != creator {
            return Err(CampaignError::Unauthorized);
        }
        c.donation_contract = donation_contract;
        c.verification_contract = verification_contract;
        let out = c.duplicate();
        self.store(i, c);
        Ok(out)
    }

    /// Moves a `Draft` campaign to `Active`. Only the creator may do so.
    pub fn activate(&mut self, creator: Address, campaign_id: [u8; 32]) -> (r: Result<
        Campaign,
        CampaignError,
    >)
        requires
            old(self).wf(),
        ensures
            final(self).wf(),
            final(self).ledger() == old(self).ledger(),
            r == activate_outcome(old(self)@, creator, campaign_id@),
            final(self)@ == committed(old(self)@, campaign_id@, r),
    {
        let i = match self.position(&campaign_id) {
            Some(i) => i,
            None => return Err(CampaignError::CampaignNotFound),
        };
        let mut c = self.campaigns[i].duplicate();
        if c.creator != creator {
            return Err(CampaignError::Unauthorized);
        }
        if c.status != CampaignStatus::Draft {
            return Err(CampaignError::NotDraft);
        }
        c.status = CampaignStatus::Active;
        let out = c.duplicate();
        self.store(i, c);
        Ok(out)
    }

    /// Records a donation of `amount`, under a grant scoped to exactly this
    /// call and issued by the campaign's registered donation component.
    pub fn add_donation(&mut self, grant: Grant, campaign_id: [u8; 32], amount: i128) -> (r: Result<
        Campaign,
        CampaignError,
    >)
        requires
            old(self).wf(),
        ensures
            final(self).wf(),
            final(self).ledger() == old(self).ledger(),
            r == donation_outcome(old(self)@, old(self).ledger(), grant, campaign_id@, amount),
            final(self)@ == committed(old(self)@, campaign_id@, r),
    {
        let i = match self.position(&campaign_id) {
            Some(i) => i,
            None => return Err(CampaignError::CampaignNotFound),
        };
        if amount <= 0 {
            return Err(CampaignError::InvalidAmount);
        }
        let mut c = self.campaigns[i].duplicate();
        let registered = match c.donation_contract {
            Some(d) => d == grant.issuer,
            None => false,
        };
        if !grant.covers_call(self.address, Operation::RecordDonation, &campaign_id, amount)
            || !registered {
            return Err(CampaignError::Unauthorized);
        }
        if c.status != CampaignStatus::Active && c.status != CampaignStatus::Funded {
            return Err(CampaignError::NotActive);
        }
        if c.current_amount > i128::MAX - amount {
            return Err(CampaignError::Overflow);
        }
        c.current_amount = c.current_amount + amount;
        if c.status == CampaignStatus::Active && c.current_amount >= c.target_amount {
            c.status = CampaignStatus::Funded;
        }
        let out = c.duplicate();
        self.store(i, c);
        Ok(out)
    }

    /// Releases `amount` of the escrowed funds for a completed milestone,
    /// under a grant scoped to exactly this call and issued by the campaign's
    /// registered verification component.
    pub fn mark_milestone_completed(
        &mut self,
        grant: Grant,
        campaign_id: [u8; 32],
        amount: i128,
    ) -> (r: Result<Campaign, CampaignError>)
        requires
            old(self).wf(),
        ensures
            final(self).wf(),
            final(self).ledger() == old(self).ledger(),
            r == release_outcome(old(self)@, old(self).ledger(), grant, campaign_id@, amount),
            final(self)@ == committed(old(self)@, campaign_id@, r),
    {
        let i = match self.position(&campaign_id) {
            Some(i) => i,
            None => return Err(CampaignError::CampaignNotFound),
        };
        if amount <= 0 {
            return Err(CampaignError::InvalidAmount);
        }
        let mut c = self.campaigns[i].duplicate();
        if c.current_amount - c.released_amount < amount {
            return Err(CampaignError::InsufficientFunds);
        }
        if c.status == CampaignStatus::Cancelled {
            return Err(CampaignError::Closed);
        }
        let registered = match c.verification_contract {
            Some(v) => v == grant.issuer,
            None => false,
        };
        if !grant.covers_call(self.address, Operation::ReleaseMilestoneFunds, &campaign_id, amount)
            || !registered {
            return Err(CampaignError::Unauthorized);
        }
        c.released_amount = c.released_amount + amount;
        if c.released_amount >= c.target_amount {
            c.status = CampaignStatus::Completed;
        }
        let out = c.duplicate();
        self.store(i, c);
        Ok(out)
    }

    /// Moves a campaign that is not yet terminal to `Cancelled`. Only the
    /// creator may do so.
    pub fn cancel(&mut self, creator: Address, campaign_id: [u8; 32]) -> (r: Result<
        Campaign,
        CampaignError,
    >)
        requires
            old(self).wf(),
        ensures
            final(self).wf(),
            final(self).ledger() == old(self).ledger(),
            r == cancel_outcome(old(self)@, creator, campaign_id@),
            final(self)@ == committed(old(self)@, campaign_id@, r),
    {
        let i = match self.position(&campaign_id) {
            Some(i) => i,
            None => return Err(CampaignError::CampaignNotFound),
        };
        let mut c = self.campaigns[i].duplicate();
        if c.creator != creator {
            return Err(CampaignError::Unauthorized);
        }
        if c.status == CampaignStatus::Completed || c.status == CampaignStatus::Cancelled {
            return Err(CampaignError::Closed);
        }
        c.status = CampaignStatus::Cancelled;
        let out = c.duplicate();
        self.store(i, c);
        Ok(out)
    }

    pub fn get(&self, campaign_id: [u8; 32]) -> (r: Result<Campaign, CampaignError>)
        requires
            self.wf(),
        ensures
            r == lookup(self@, campaign_id@),
    {
        match self.position(&campaign_id) {
            Some(i) => Ok(self.campaigns[i].duplicate()),
            None => Err(CampaignError::CampaignNotFound),
        }
    }

    pub fn status(&self, campaign_id: [u8; 32]) -> (r: Result<CampaignStatus, CampaignError>)
        requires
            self.wf(),
        ensures
            match r {
                Ok(s) => self@.contains_key(campaign_id@) && s == self@[campaign_id@].status,
                Err(e) => !self@.contains_key(campaign_id@) && e == CampaignError::CampaignNotFound,
            },
    {
        match self.position(&campaign_id) {
            Some(i) => Ok(self.campaigns[i].status),
            None => Err(CampaignError::CampaignNotFound),
        }
    }

    /// Whether the campaign accepts donations (`Active` or `Funded`).
    pub fn is_active(&self, campaign_id: [u8; 32]) -> (r: Result<bool, CampaignError>)
        requires
            self.wf(),
        ensures
            match r {
                Ok(b) => self@.contains_key(campaign_id@) && b == fundable(self@[campaign_id@].status),
                Err(e) => !self@.contains_key(campaign_id@) && e == CampaignError::CampaignNotFound,
            },
    {
        match self.position(&campaign_id) {
            Some(i) => {
                let s = self.campaigns[i].status;
                Ok(s == CampaignStatus::Active || s == CampaignStatus::Funded)
            },
            None => Err(CampaignError::CampaignNotFound),
        }
    }

    pub fn creator(&self, campaign_id: [u8; 32]) -> (r: Result<Address, CampaignError>)
        requires
            self.wf(),
        ensures
            match r {
                Ok(a) => self@.contains_key(campaign_id@) && a == self@[campaign_id@].creator,
                Err(e) => !self@.contains_key(campaign_id@) && e == CampaignError::CampaignNotFound,
            },
    {
        match self.position(&campaign_id) {
            Some(i) => Ok(self.campaigns[i].creator),
            None => Err(CampaignError::CampaignNotFound),
        }
    }

    /// The unreleased, still escrowed balance: `current_amount - released_amount`.
    pub fn available_funds(&self, campaign_id: [u8; 32]) -> (r: Result<i128, CampaignError>)
        requires
            self.wf(),
        ensures
            match r {
                Ok(a) => self@.contains_key(campaign_id@) && a == available(self@[campaign_id@]),
                Err(e) => !self@.contains_key(campaign_id@) && e == CampaignError::CampaignNotFound,
            },
    {
        match self.position(&campaign_id) {
            Some(i) => {
                proof {
                    assert(sound(self.campaigns@[i as int]));
                }
                Ok(self.campaigns[i].current_amount - self.campaigns[i].released_amount)
            },
            None => Err(CampaignError::CampaignNotFound),
        }
    }
}

} // verus!
