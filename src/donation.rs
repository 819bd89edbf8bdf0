use vstd::prelude::*;

use crate::auth::{same_id, Address, Grant, Operation};
use crate::campaign::{after_donation, fundable, CampaignContract, CampaignError, CampaignStatus};

verus! {

/// One contribution, immutable once recorded.
#[derive(Debug)]
pub struct Donation {
    pub campaign_id: [u8; 32],
    pub donor: Address,
    pub amount: i128,
    pub timestamp: u64,
    pub note: Option<String>,
}

#[derive(Clone, Copy, Debug, PartialEq, Eq, Structural)]
pub enum DonationError {
    CampaignInactive,
    InvalidAmount,
    Unauthorized,
    /// The campaign's recorded total would leave the range of `i128`.
    Overflow,
    /// The campaign ledger refused the call.
    Ledger(CampaignError),
}

/// The donations of `donor` to campaign `id`, in the order they were recorded.
pub open spec fn donations_of(s: Seq<Donation>, id: Seq<u8>, donor: Address) -> Seq<Donation>
    decreases s.len(),
{
    if s.len() == 0 {
        Seq::empty()
    } else {
        let rest = donations_of(s.drop_last(), id, donor);
        if s.last().campaign_id@ == id && s.last().donor == donor {
            rest.push(s.last())
        } else {
            rest
        }
    }
}

/// The sum of all donations to campaign `id`, over all donors.
pub open spec fn total_of(s: Seq<Donation>, id: Seq<u8>) -> int
    decreases s.len(),
{
    if s.len() == 0 {
        0
    } else {
        total_of(s.drop_last(), id) + if s.last().campaign_id@ == id {
            s.last().amount as int
        } else {
            0
        }
    }
}

pub open spec fn donate_outcome(
    s: Seq<Donation>,
    me: Address,
    m: Map<Seq<u8>, crate::campaign::Campaign>,
    donor: Address,
    campaign_id: [u8; 32],
    amount: i128,
    note: Option<String>,
    now: u64,
) -> Result<Donation, DonationError> {
    if amount <= 0 {
        Err(DonationError::InvalidAmount)
    } else if !m.contains_key(campaign_id@) {
        Err(DonationError::Ledger(CampaignError::CampaignNotFound))
    } else if m[campaign_id@].donation_contract != Some(me) {
        Err(DonationError::Unauthorized)
    } else if !fundable(m[campaign_id@].status) {
        Err(DonationError::CampaignInactive)
    } else if total_of(s, campaign_id@) + amount > i128::MAX {
        Err(DonationError::Overflow)
    } else if m[campaign_id@].current_amount + amount > i128::MAX {
        Err(DonationError::Ledger(CampaignError::Overflow))
    } else {
        Ok(Donation { campaign_id, donor, amount, timestamp: now, note })
    }
}

proof fn lemma_total_nonneg(s: Seq<Donation>, id: Seq<u8>)
    requires
        forall|i: int| 0 <= i < s.len() ==> #[trigger] s[i].amount > 0,
    ensures
        total_of(s, id) >= 0,
    decreases s.len(),
{
    if s.len() > 0 {
        lemma_total_nonneg(s.drop_last(), id);
    }
}

proof fn lemma_total_prefix(s: Seq<Donation>, id: Seq<u8>, j: int)
    requires
        forall|i: int| 0 <= i < s.len() ==> #[trigger] s[i].amount > 0,
        0 <= j <= s.len(),
    ensures
        0 <= total_of(s.take(j), id) <= total_of(s, id),
    decreases s.len(),
{
    lemma_total_nonneg(s.take(j), id);
    if j == s.len() {
        assert(s.take(j) =~= s);
    } else {
        let t = s.drop_last();
        assert(t.take(j) =~= s.take(j));
        lemma_total_prefix(t, id, j);
    }
}

/// Appending donations of `donor` to campaign `id` appends exactly those
/// records, in the same order, to what `donations_of` reports.
pub proof fn lemma_donations_round_trip(
    s: Seq<Donation>,
    ds: Seq<Donation>,
    id: Seq<u8>,
    donor: Address,
)
    requires
        forall|k: int| 0 <= k < ds.len() ==> (#[trigger] ds[k]).campaign_id@ == id && ds[k].donor == donor,
    ensures
        donations_of(s + ds, id, donor) == donations_of(s, id, donor) + ds,
    decreases ds.len(),
{
    if ds.len() == 0 {
        assert(s + ds =~= s);
        assert(donations_of(s, id, donor) + ds =~= donations_of(s, id, donor));
    } else {
        let front = ds.drop_last();
        lemma_donations_round_trip(s, front, id, donor);
        assert((s + ds).drop_last() =~= s + front);
        assert((s + ds).last() == ds.last());
        assert(donations_of(s, id, donor) + ds =~= (donations_of(s, id, donor) + front).push(
            ds.last(),
        ));
    }
}

/// Donations recorded after a ledger state, by any donors in any
/// interleaving, add exactly `donor`'s new records to campaign `id`, in
/// submission order, after the ones already there.
pub proof fn lemma_donations_append(
    s: Seq<Donation>,
    ds: Seq<Donation>,
    id: Seq<u8>,
    donor: Address,
)
    ensures
        donations_of(s + ds, id, donor) == donations_of(s, id, donor) + donations_of(ds, id, donor),
    decreases ds.len(),
{
    if ds.len() == 0 {
        assert(s + ds =~= s);
        assert(donations_of(s, id, donor) + donations_of(ds, id, donor) =~= donations_of(s, id, donor));
    } else {
        let front = ds.drop_last();
        lemma_donations_append(s, front, id, donor);
        assert((s + ds).drop_last() =~= s + front);
        assert((s + ds).last() == ds.last());
        assert(ds.drop_last() == front);
        let before = donations_of(s, id, donor);
        assert((before + donations_of(front, id, donor)).push(ds.last()) =~= before
            + donations_of(front, id, donor).push(ds.last()));
    }
}

impl Donation {
    /// A field-by-field copy.
    pub fn duplicate(&self) -> (r: Donation)
        ensures
            r == *self,
    {
        let note = match &self.note {
            Some(n) => Some(n.clone()),
            None => None,
        };
        Donation {
            campaign_id: self.campaign_id,
            donor: self.donor,
            amount: self.amount,
            timestamp: self.timestamp,
            note,
        }
    }
}

/// The donation ledger: every recorded donation, in submission order.
pub struct DonationContract {
    address: Address,
    records: Vec<Donation>,
}

impl View for DonationContract {
    type V = Seq<Donation>;

    closed spec fn view(&self) -> Seq<Donation> {
        self.records@
    }
}

impl DonationContract {
    /// This component's own address, which a campaign registers as its
    /// donation authority.
    pub closed spec fn ledger(&self) -> Address {
        self.address
    }

    pub fn address(&self) -> (r: Address)
        ensures
            r == self.ledger(),
    {
        self.address
    }

    /// Every amount is positive and every campaign's total fits in `i128`.
    pub open spec fn wf(&self) -> bool {
        &&& forall|i: int| 0 <= i < self@.len() ==> #[trigger] self@[i].amount > 0
        &&& forall|k: Seq<u8>| #[trigger] total_of(self@, k) <= i128::MAX
    }

    pub fn new(address: Address) -> (r: DonationContract)
        ensures
            r.wf(),
            r.ledger() == address,
            r@ == Seq::<Donation>::empty(),
    {
        DonationContract { address, records: Vec::new() }
    }

    /// Records a donation by the authenticated `donor` at clock reading `now`,
    /// and credits it to the campaign through a grant scoped to exactly that
    /// call. Either both ledgers change or neither does.
    pub fn donate(
        &mut self,
        campaigns: &mut CampaignContract,
        donor: Address,
        campaign_id: [u8; 32],
        amount: i128,
        note: Option<String>,
        now: u64,
    ) -> (r: Result<Donation, DonationError>)
        requires
            old(self).wf(),
            old(campaigns).wf(),
        ensures
            final(self).wf(),
            final(campaigns).wf(),
            final(self).ledger() == old(self).ledger(),
            final(campaigns).ledger() == old(campaigns).ledger(),
            r == donate_outcome(old(self)@, old(self).ledger(), old(campaigns)@, donor, campaign_id, amount, note, now),
            match r {
                Ok(d) => {
                    &&& final(self)@ == old(self)@.push(d)
                    &&& final(campaigns)@ == old(campaigns)@.insert(
                        campaign_id@,
                        after_donation(old(campaigns)@[campaign_id@], amount),
                    )
                },
                Err(_) => final(self)@ == old(self)@ && final(campaigns)@ == old(campaigns)@,
            },
    {
        if amount <= 0 {
            return Err(DonationError::InvalidAmount);
        }
        let campaign = match campaigns.get(campaign_id) {
            Ok(c) => c,
            Err(e) => return Err(DonationError::Ledger(e)),
        };
        let registered = match campaign.donation_contract {
            Some(d) => d == self.address,
            None => false,
        };
        if !registered {
            return Err(DonationError::Unauthorized);
        }
        if campaign.status != CampaignStatus::Active && campaign.status != CampaignStatus::Funded {
            return Err(DonationError::CampaignInactive);
        }
        let total = self.get_total_donated(campaign_id);
        if total > i128::MAX - amount {
            return Err(DonationError::Overflow);
        }
        let grant = Grant {
            issuer: self.address,
            ledger: campaigns.address(),
            operation: Operation::RecordDonation,
            campaign_id,
            amount,
        };
        match campaigns.add_donation(grant, campaign_id, amount) {
            Ok(_) => {},
            Err(e) => return Err(DonationError::Ledger(e)),
        }
        let d = Donation { campaign_id, donor, amount, timestamp: now, note };
        let out = d.duplicate();
        proof {
            let s = self.records@;
            let t = s.push(d);
            assert(t.drop_last() =~= s);
            assert forall|k: Seq<u8>| #[trigger] total_of(t, k) <= i128::MAX by {
                assert(t.drop_last() =~= s);
                assert(t.last() == d);
                assert(total_of(self@, k) <= i128::MAX);
                assert(total_of(t, k) == total_of(s, k) + if k == campaign_id@ {
                    amount as int
                } else {
                    0
                });
            }
        }
        self.records.push(d);
        Ok(out)
    }

    /// The donations of `donor` to the campaign, in submission order; empty if none.
    pub fn get_donations(&self, campaign_id: [u8; 32], donor: Address) -> (r: Vec<Donation>)
        ensures
            r@ == donations_of(self@, campaign_id@, donor),
    {
        let mut r: Vec<Donation> = Vec::new();
        let mut i: usize = 0;
        while i < self.records.len()
            invariant
                0 <= i <= self.records@.len(),
                r@ == donations_of(self.records@.take(i as int), campaign_id@, donor),
            decreases self.records@.len() - i,
        {
            let d = &self.records[i];
            proof {
                let s = self.records@;
                assert(s.take(i + 1).drop_last() =~= s.take(i as int));
                assert(s.take(i + 1).last() == s[i as int]);
            }
            if same_id(&d.campaign_id, &campaign_id) && d.donor == donor {
                r.push(d.duplicate());
            }
            i = i + 1;
        }
        assert(self.records@.take(i as int) =~= self.records@);
        r
    }

    /// The sum of every donation to the campaign, over all donors.
    pub fn get_total_donated(&self, campaign_id: [u8; 32]) -> (r: i128)
        requires
            self.wf(),
        ensures
            r == total_of(self@, campaign_id@),
    {
        let mut total: i128 = 0;
        let mut i: usize = 0;
        while i < self.records.len()
            invariant
                self.wf(),
                0 <= i <= self.records@.len(),
                total == total_of(self.records@.take(i as int), campaign_id@),
            decreases self.records@.len() - i,
        {
            proof {
                let s = self.records@;
                assert(s.take(i + 1).drop_last() =~= s.take(i as int));
                assert(s.take(i + 1).last() == s[i as int]);
                lemma_total_prefix(s, campaign_id@, i + 1);
                assert(total_of(s, campaign_id@) <= i128::MAX);
            }
            if same_id(&self.records[i].campaign_id, &campaign_id) {
                total = total + self.records[i].amount;
            }
            i = i + 1;
        }
        assert(self.records@.take(i as int) =~= self.records@);
        total
    }
}

} // verus!
