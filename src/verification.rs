use vstd::prelude::*;

use crate::auth::{same_id, Address, Grant, Operation};
use crate::campaign::{after_release, release_outcome, CampaignContract, CampaignError};
use crate::keyed::{
    has_key, keyed, keys_unique, lemma_keyed_at, lemma_keyed_push, lemma_keyed_update, Keyed,
};

verus! {

/// State of a milestone: `Pending -> Verified -> Completed`, or `Failed`.
#[derive(Clone, Copy, Debug, PartialEq, Eq, Structural)]
pub enum MilestoneStatus {
    Pending,
    Verified,
    Completed,
    Failed,
}

/// A tranche of a campaign's target, released once a verifier has attested it.
#[derive(Debug)]
pub struct Milestone {
    pub description: String,
    pub amount: i128,
    pub status: MilestoneStatus,
    pub verification_docs: Vec<String>,
    pub verified_by: Option<Address>,
    pub completed_at: Option<u64>,
}

/// A milestone's contents, its documents as a sequence.
pub struct MilestoneView {
    pub description: String,
    pub amount: i128,
    pub status: MilestoneStatus,
    pub verification_docs: Seq<String>,
    pub verified_by: Option<Address>,
    pub completed_at: Option<u64>,
}

impl View for Milestone {
    type V = MilestoneView;

    open spec fn view(&self) -> MilestoneView {
        MilestoneView {
            description: self.description,
            amount: self.amount,
            status: self.status,
            verification_docs: self.verification_docs@,
            verified_by: self.verified_by,
            completed_at: self.completed_at,
        }
    }
}

/// Per-campaign binding of the campaign ledger, the owner and the verifier.
#[derive(Clone, Copy, Debug, PartialEq, Eq, Structural)]
pub struct VerificationConfig {
    pub campaign_contract: Address,
    pub owner: Address,
    pub verifier: Address,
}

#[derive(Clone, Copy, Debug, PartialEq, Eq, Structural)]
pub enum VerificationError {
    InvalidAmount,
    MilestoneNotFound,
    MilestoneNotPending,
    MilestoneNotVerified,
    Unauthorized,
    NotConfigured,
    AlreadyConfigured,
    /// The ledger handed in is not the one the campaign was configured with.
    LedgerMismatch,
    /// The campaign ledger refused the call.
    Ledger(CampaignError),
}

/// A configured campaign and its ordered milestones.
#[derive(Debug)]
pub struct Board {
    pub campaign_id: [u8; 32],
    pub config: VerificationConfig,
    pub milestones: Vec<Milestone>,
}

pub struct BoardView {
    pub config: VerificationConfig,
    pub milestones: Seq<MilestoneView>,
}

impl View for Board {
    type V = BoardView;

    open spec fn view(&self) -> BoardView {
        BoardView { config: self.config, milestones: self.milestones@.map_values(|m: Milestone| m@) }
    }
}

impl Keyed for Board {
    open spec fn key(&self) -> Seq<u8> {
        self.campaign_id@
    }
}

pub open spec fn pending(description: String, amount: i128) -> MilestoneView {
    MilestoneView {
        description,
        amount,
        status: MilestoneStatus::Pending,
        verification_docs: Seq::empty(),
        verified_by: None,
        completed_at: None,
    }
}

pub open spec fn configure_outcome(
    boards: Map<Seq<u8>, BoardView>,
    campaigns: Map<Seq<u8>, crate::campaign::Campaign>,
    ledger: Address,
    owner: Address,
    id: Seq<u8>,
    verifier: Address,
) -> Result<VerificationConfig, VerificationError> {
    if !campaigns.contains_key(id) {
        Err(VerificationError::Ledger(CampaignError::CampaignNotFound))
    } else if campaigns[id].creator != owner {
        Err(VerificationError::Unauthorized)
    } else if boards.contains_key(id) {
        Err(VerificationError::AlreadyConfigured)
    } else {
        Ok(VerificationConfig { campaign_contract: ledger, owner, verifier })
    }
}

pub open spec fn create_outcome(
    boards: Map<Seq<u8>, BoardView>,
    owner: Address,
    id: Seq<u8>,
    description: String,
    amount: i128,
) -> Result<MilestoneView, VerificationError> {
    if amount <= 0 {
        Err(VerificationError::InvalidAmount)
    } else if !boards.contains_key(id) {
        Err(VerificationError::NotConfigured)
    } else if boards[id].config.owner != owner {
        Err(VerificationError::Unauthorized)
    } else {
        Ok(pending(description, amount))
    }
}

pub open spec fn verify_outcome(
    boards: Map<Seq<u8>, BoardView>,
    verifier: Address,
    id: Seq<u8>,
    index: u32,
    docs: Seq<String>,
) -> Result<MilestoneView, VerificationError> {
    if !boards.contains_key(id) {
        Err(VerificationError::NotConfigured)
    } else if boards[id].config.verifier != verifier {
        Err(VerificationError::Unauthorized)
    } else if index >= boards[id].milestones.len() {
        Err(VerificationError::MilestoneNotFound)
    } else if boards[id].milestones[index as int].status != MilestoneStatus::Pending {
        Err(VerificationError::MilestoneNotPending)
    } else {
        Ok(
            MilestoneView {
                status: MilestoneStatus::Verified,
                verified_by: Some(verifier),
                verification_docs: docs,
                ..boards[id].milestones[index as int]
            },
        )
    }
}

/// The grant that the engine at `me` mints to release a milestone's amount.
pub open spec fn release_grant(me: Address, ledger: Address, id: [u8; 32], amount: i128) -> Grant {
    Grant { issuer: me, ledger, operation: Operation::ReleaseMilestoneFunds, campaign_id: id, amount }
}

pub open spec fn complete_outcome(
    boards: Map<Seq<u8>, BoardView>,
    me: Address,
    campaigns: Map<Seq<u8>, crate::campaign::Campaign>,
    ledger: Address,
    verifier: Address,
    id: [u8; 32],
    index: u32,
    now: u64,
) -> Result<MilestoneView, VerificationError> {
    if !boards.contains_key(id@) {
        Err(VerificationError::NotConfigured)
    } else if boards[id@].config.verifier != verifier {
        Err(VerificationError::Unauthorized)
    } else if index >= boards[id@].milestones.len() {
        Err(VerificationError::MilestoneNotFound)
    } else if boards[id@].milestones[index as int].status != MilestoneStatus::Verified {
        Err(VerificationError::MilestoneNotVerified)
    } else if boards[id@].config.campaign_contract != ledger {
        Err(VerificationError::LedgerMismatch)
    } else {
        let m = boards[id@].milestones[index as int];
        match release_outcome(campaigns, ledger, release_grant(me, ledger, id, m.amount), id@, m.amount) {
            Err(e) => Err(VerificationError::Ledger(e)),
            Ok(_) => Ok(
                MilestoneView { status: MilestoneStatus::Completed, completed_at: Some(now), ..m },
            ),
        }
    }
}

/// Only the configured verifier may verify or complete a campaign's
/// milestones: any other principal gets `Unauthorized`, which changes nothing.
pub proof fn lemma_only_verifier_attests(
    boards: Map<Seq<u8>, BoardView>,
    me: Address,
    campaigns: Map<Seq<u8>, crate::campaign::Campaign>,
    ledger: Address,
    caller: Address,
    id: [u8; 32],
    index: u32,
    docs: Seq<String>,
    now: u64,
)
    requires
        boards.contains_key(id@),
        boards[id@].config.verifier != caller,
    ensures
        verify_outcome(boards, caller, id@, index, docs) == Err::<MilestoneView, VerificationError>(
            VerificationError::Unauthorized,
        ),
        complete_outcome(boards, me, campaigns, ledger, caller, id, index, now) == Err::<
            MilestoneView,
            VerificationError,
        >(VerificationError::Unauthorized),
        placed(boards, id@, index as int, verify_outcome(boards, caller, id@, index, docs)) == boards,
{
}

/// The boards after a milestone call: on success the milestone's new
/// contents at `index`, or appended when `index` is past the end.
pub open spec fn placed(
    boards: Map<Seq<u8>, BoardView>,
    id: Seq<u8>,
    index: int,
    r: Result<MilestoneView, VerificationError>,
) -> Map<Seq<u8>, BoardView> {
    match r {
        Ok(m) => boards.insert(
            id,
            BoardView {
                config: boards[id].config,
                milestones: if index < boards[id].milestones.len() {
                    boards[id].milestones.update(index, m)
                } else {
                    boards[id].milestones.push(m)
                },
            },
        ),
        Err(_) => boards,
    }
}

pub open spec fn seen(r: Result<Milestone, VerificationError>) -> Result<
    MilestoneView,
    VerificationError,
> {
    match r {
        Ok(m) => Ok(m@),
        Err(e) => Err(e),
    }
}

/// Each milestone shows the matching contents.
pub open spec fn shows(ms: Seq<Milestone>, vs: Seq<MilestoneView>) -> bool {
    &&& ms.len() == vs.len()
    &&& forall|i: int| 0 <= i < ms.len() ==> #[trigger] ms[i]@ == vs[i]
}

fn copy_docs(docs: &Vec<String>) -> (r: Vec<String>)
    ensures
        r@ == docs@,
{
    let mut r: Vec<String> = Vec::new();
    let mut i: usize = 0;
    while i < docs.len()
        invariant
            0 <= i <= docs@.len(),
            r@ == docs@.take(i as int),
        decreases docs@.len() - i,
    {
        r.push(docs[i].clone());
        i = i + 1;
        assert(r@ =~= docs@.take(i as int));
    }
    assert(docs@.take(i as int) =~= docs@);
    r
}

impl Milestone {
    /// A field-by-field copy.
    pub fn duplicate(&self) -> (r: Milestone)
        ensures
            r@ == self@,
    {
        Milestone {
            description: self.description.clone(),
            amount: self.amount,
            status: self.status,
            verification_docs: copy_docs(&self.verification_docs),
            verified_by: self.verified_by,
            completed_at: self.completed_at,
        }
    }
}

/// The verification engine: per campaign, its configuration and milestones.
pub struct VerificationContract {
    address: Address,
    boards: Vec<Board>,
}

impl View for VerificationContract {
    type V = Map<Seq<u8>, BoardView>;

    closed spec fn view(&self) -> Map<Seq<u8>, BoardView> {
        board_map(self.boards@)
    }
}

spec fn board_map(s: Seq<Board>) -> Map<Seq<u8>, BoardView> {
    keyed(s).map_values(|b: Board| b@)
}

proof fn lemma_board_at(s: Seq<Board>, i: int)
    requires
        keys_unique(s),
        0 <= i < s.len(),
    ensures
        board_map(s).contains_key(s[i].key()),
        board_map(s)[s[i].key()] == s[i]@,
{
    lemma_keyed_at(s, i);
}

proof fn lemma_board_update(s: Seq<Board>, i: int, b: Board)
    requires
        keys_unique(s),
        0 <= i < s.len(),
        b.key() == s[i].key(),
    ensures
        keys_unique(s.update(i, b)),
        board_map(s.update(i, b)) == board_map(s).insert(b.key(), b@),
{
    lemma_keyed_update(s, i, b);
    assert(board_map(s.update(i, b)) =~= board_map(s).insert(b.key(), b@));
}

proof fn lemma_board_push(s: Seq<Board>, b: Board)
    requires
        keys_unique(s),
        !has_key(s, b.key()),
    ensures
        keys_unique(s.push(b)),
        board_map(s.push(b)) == board_map(s).insert(b.key(), b@),
{
    lemma_keyed_push(s, b);
    assert(board_map(s.push(b)) =~= board_map(s).insert(b.key(), b@));
}

impl VerificationContract {
    /// This engine's own address, which a campaign registers as its release authority.
    pub closed spec fn ledger(&self) -> Address {
        self.address
    }

    pub fn address(&self) -> (r: Address)
        ensures
            r == self.ledger(),
    {
        self.address
    }

    pub closed spec fn wf(&self) -> bool {
        keys_unique(self.boards@)
    }

    pub fn new(address: Address) -> (r: VerificationContract)
        ensures
            r.wf(),
            r.ledger() == address,
            r@ == Map::<Seq<u8>, BoardView>::empty(),
    {
        let r = VerificationContract { address, boards: Vec::new() };
        assert(r@ =~= Map::<Seq<u8>, BoardView>::empty());
        r
    }

    fn find(&self, id: &[u8; 32]) -> (r: Option<usize>)
        requires
            self.wf(),
        ensures
            match r {
                Some(i) => {
                    &&& i < self.boards@.len()
                    &&& self.boards@[i as int].campaign_id@ == id@
                    &&& self@.contains_key(id@)
                    &&& self@[id@] == self.boards@[i as int]@
                },
                None => !self@.contains_key(id@),
            },
    {
        let mut i: usize = 0;
        while i < self.boards.len()
            invariant
                self.wf(),
                0 <= i <= self.boards@.len(),
                forall|k: int| 0 <= k < i ==> self.boards@[k].campaign_id@ != id@,
            decreases self.boards@.len() - i,
        {
            if same_id(&self.boards[i].campaign_id, id) {
                proof {
                    lemma_board_at(self.boards@, i as int);
                }
                return Some(i);
            }
            i = i + 1;
        }
        None
    }

    /// Binds the campaign to its owner and verifier. Only the campaign's
    /// creator may do so, once.
    pub fn configure_campaign(
        &mut self,
        owner: Address,
        campaigns: &CampaignContract,
        campaign_id: [u8; 32],
        verifier: Address,
    ) -> (r: Result<VerificationConfig, VerificationError>)
        requires
            old(self).wf(),
            campaigns.wf(),
        ensures
            final(self).wf(),
            final(self).ledger() == old(self).ledger(),
            r == configure_outcome(old(self)@, campaigns@, campaigns.ledger(), owner, campaign_id@, verifier),
            final(self)@ == match r {
                Ok(c) => old(self)@.insert(
                    campaign_id@,
                    BoardView { config: c, milestones: Seq::empty() },
                ),
                Err(_) => old(self)@,
            },
    {
        let creator = match campaigns.creator(campaign_id) {
            Ok(a) => a,
            Err(e) => return Err(VerificationError::Ledger(e)),
        };
        if creator != owner {
            return Err(VerificationError::Unauthorized);
        }
        if self.find(&campaign_id).is_some() {
            return Err(VerificationError::AlreadyConfigured);
        }
        let config = VerificationConfig { campaign_contract: campaigns.address(), owner, verifier };
        let board = Board { campaign_id, config, milestones: Vec::new() };
        proof {
            lemma_board_push(self.boards@, board);
            assert(board@.milestones =~= Seq::<MilestoneView>::empty());
        }
        self.boards.push(board);
        Ok(config)
    }

    /// Appends a `Pending` milestone of `amount` to the campaign. Only the
    /// configured owner may do so.
    pub fn create_milestone(
        &mut self,
        owner: Address,
        campaign_id: [u8; 32],
        description: String,
        amount: i128,
    ) -> (r: Result<Milestone, VerificationError>)
        requires
            old(self).wf(),
        ensures
            final(self).wf(),
            final(self).ledger() == old(self).ledger(),
            seen(r) == create_outcome(old(self)@, owner, campaign_id@, description, amount),
            final(self)@ == placed(
                old(self)@,
                campaign_id@,
                old(self)@[campaign_id@].milestones.len() as int,
                seen(r),
            ),
    {
        if amount <= 0 {
            return Err(VerificationError::InvalidAmount);
        }
        let b = match self.find(&campaign_id) {
            Some(b) => b,
            None => return Err(VerificationError::NotConfigured),
        };
        if self.boards[b].config.owner != owner {
            return Err(VerificationError::Unauthorized);
        }
        let m = Milestone {
            description,
            amount,
            status: MilestoneStatus::Pending,
            verification_docs: Vec::new(),
            verified_by: None,
            completed_at: None,
        };
        let out = m.duplicate();
        let mut board = Board {
            campaign_id,
            config: self.boards[b].config,
            milestones: Vec::new(),
        };
        let ghost s0 = self.boards@;
        self.boards.set_and_swap(b, &mut board);
        let ghost before = board@;
        board.milestones.push(m);
        proof {
            assert(board@.milestones =~= before.milestones.push(m@));
            assert(m@.verification_docs =~= Seq::<String>::empty());
            assert(self.boards@.update(b as int, board) =~= s0.update(b as int, board));
            lemma_board_update(s0, b as int, board);
        }
        self.put_back(b, board);
        Ok(out)
    }

    /// Puts a board back in the slot it was swapped out of.
    fn put_back(&mut self, b: usize, board: Board)
        requires
            keys_unique(old(self).boards@.update(b as int, board)),
            b < old(self).boards@.len(),
            board.campaign_id@ == old(self).boards@[b as int].campaign_id@,
        ensures
            final(self).wf(),
            final(self).ledger() == old(self).ledger(),
            final(self)@ == board_map(old(self).boards@.update(b as int, board)),
    {
        self.boards.set(b, board);
    }
    /// Replaces milestone `j` of board `b` by `m`.
    fn set_milestone(&mut self, b: usize, j: usize, m: Milestone)
        requires
            old(self).wf(),
            b < old(self).boards@.len(),
            j < old(self).boards@[b as int].milestones@.len(),
        ensures
            final(self).wf(),
            final(self).ledger() == old(self).ledger(),
            final(self)@ == old(self)@.insert(
                old(self).boards@[b as int].campaign_id@,
                BoardView {
                    config: old(self).boards@[b as int].config,
                    milestones: old(self).boards@[b as int]@.milestones.update(j as int, m@),
                },
            ),
    {
        let ghost s0 = self.boards@;
        proof {
            lemma_board_at(s0, b as int);
        }
        let mut board = Board {
            campaign_id: self.boards[b].campaign_id,
            config: self.boards[b].config,
            milestones: Vec::new(),
        };
        self.boards.set_and_swap(b, &mut board);
        let ghost before = board@;
        board.milestones.set(j, m);
        proof {
            assert(board@.milestones =~= before.milestones.update(j as int, m@));
            assert(self.boards@.update(b as int, board) =~= s0.update(b as int, board));
            lemma_board_update(s0, b as int, board);
        }
        self.put_back(b, board);
    }

    /// Records the verifier's attestation and documents on a `Pending`
    /// milestone. Only the configured verifier may do so.
    pub fn verify_milestone(
        &mut self,
        verifier: Address,
        campaign_id: [u8; 32],
        milestone_index: u32,
        docs: Vec<String>,
    ) -> (r: Result<Milestone, VerificationError>)
        requires
            old(self).wf(),
        ensures
            final(self).wf(),
            final(self).ledger() == old(self).ledger(),
            seen(r) == verify_outcome(old(self)@, verifier, campaign_id@, milestone_index, docs@),
            final(self)@ == placed(old(self)@, campaign_id@, milestone_index as int, seen(r)),
    {
        let b = match self.find(&campaign_id) {
            Some(b) => b,
            None => return Err(VerificationError::NotConfigured),
        };
        if self.boards[b].config.verifier != verifier {
            return Err(VerificationError::Unauthorized);
        }
        let j = milestone_index as usize;
        if j >= self.boards[b].milestones.len() {
            return Err(VerificationError::MilestoneNotFound);
        }
        let cur = &self.boards[b].milestones[j];
        if cur.status != MilestoneStatus::Pending {
            return Err(VerificationError::MilestoneNotPending);
        }
        let m = Milestone {
            description: cur.description.clone(),
            amount: cur.amount,
            status: MilestoneStatus::Verified,
            verification_docs: docs,
            verified_by: Some(verifier),
            completed_at: cur.completed_at,
        };
        let out = m.duplicate();
        self.set_milestone(b, j, m);
        Ok(out)
    }

    /// Releases a `Verified` milestone's amount from the campaign ledger,
    /// through a grant scoped to exactly that call, then marks the milestone
    /// `Completed` at clock reading `now`. If the ledger refuses, neither
    /// side changes. Only the configured verifier may do so.
    pub fn complete_milestone(
        &mut self,
        verifier: Address,
        campaigns: &mut CampaignContract,
        campaign_id: [u8; 32],
        milestone_index: u32,
        now: u64,
    ) -> (r: Result<Milestone, VerificationError>)
        requires
            old(self).wf(),
            old(campaigns).wf(),
        ensures
            final(self).wf(),
            final(campaigns).wf(),
            final(self).ledger() == old(self).ledger(),
            final(campaigns).ledger() == old(campaigns).ledger(),
            seen(r) == complete_outcome(
                old(self)@,
                old(self).ledger(),
                old(campaigns)@,
                old(campaigns).ledger(),
                verifier,
                campaign_id,
                milestone_index,
                now,
            ),
            final(self)@ == placed(old(self)@, campaign_id@, milestone_index as int, seen(r)),
            match r {
                Ok(m) => final(campaigns)@ == old(campaigns)@.insert(
                    campaign_id@,
                    after_release(old(campaigns)@[campaign_id@], m.amount),
                ),
                Err(_) => final(campaigns)@ == old(campaigns)@,
            },
    {
        let b = match self.find(&campaign_id) {
            Some(b) => b,
            None => return Err(VerificationError::NotConfigured),
        };
        if self.boards[b].config.verifier != verifier {
            return Err(VerificationError::Unauthorized);
        }
        let j = milestone_index as usize;
        if j >= self.boards[b].milestones.len() {
            return Err(VerificationError::MilestoneNotFound);
        }
        if self.boards[b].milestones[j].status != MilestoneStatus::Verified {
            return Err(VerificationError::MilestoneNotVerified);
        }
        let ledger = self.boards[b].config.campaign_contract;
        if campaigns.address() != ledger {
            return Err(VerificationError::LedgerMismatch);
        }
        let amount = self.boards[b].milestones[j].amount;
        let grant = Grant {
            issuer: self.address,
            ledger,
            operation: Operation::ReleaseMilestoneFunds,
            campaign_id,
            amount,
        };
        match campaigns.mark_milestone_completed(grant, campaign_id, amount) {
            Ok(_) => {},
            Err(e) => return Err(VerificationError::Ledger(e)),
        }
        let cur = &self.boards[b].milestones[j];
        let m = Milestone {
            description: cur.description.clone(),
            amount,
            status: MilestoneStatus::Completed,
            verification_docs: copy_docs(&cur.verification_docs),
            verified_by: cur.verified_by,
            completed_at: Some(now),
        };
        let out = m.duplicate();
        self.set_milestone(b, j, m);
        Ok(out)
    }

    /// The campaign's milestones in order; empty if it has none.
    pub fn get_milestones(&self, campaign_id: [u8; 32]) -> (r: Vec<Milestone>)
        requires
            self.wf(),
        ensures
            self@.contains_key(campaign_id@) ==> shows(r@, self@[campaign_id@].milestones),
            !self@.contains_key(campaign_id@) ==> r@.len() == 0,
    {
        let b = match self.find(&campaign_id) {
            Some(b) => b,
            None => return Vec::new(),
        };
        let ms = &self.boards[b].milestones;
        let mut r: Vec<Milestone> = Vec::new();
        let mut i: usize = 0;
        while i < ms.len()
            invariant
                0 <= i <= ms@.len(),
                shows(r@, self.boards@[b as int]@.milestones.take(i as int)),
                ms == self.boards@[b as int].milestones,
            decreases ms@.len() - i,
        {
            r.push(ms[i].duplicate());
            i = i + 1;
        }
        assert(self.boards@[b as int]@.milestones.take(i as int) =~= self.boards@[b as int]@.milestones);
        r
    }

    pub fn get_milestone(&self, campaign_id: [u8; 32], index: u32) -> (r: Result<
        Milestone,
        VerificationError,
    >)
        requires
            self.wf(),
        ensures
            seen(r) == if self@.contains_key(campaign_id@) && index < self@[campaign_id@].milestones.len() {
                Ok(self@[campaign_id@].milestones[index as int])
            } else {
                Err(VerificationError::MilestoneNotFound)
            },
    {
        let b = match self.find(&campaign_id) {
            Some(b) => b,
            None => return Err(VerificationError::MilestoneNotFound),
        };
        let j = index as usize;
        if j >= self.boards[b].milestones.len() {
            return Err(VerificationError::MilestoneNotFound);
        }
        Ok(self.boards[b].milestones[j].duplicate())
    }

    pub fn get_config(&self, campaign_id: [u8; 32]) -> (r: Result<
        VerificationConfig,
        VerificationError,
    >)
        requires
            self.wf(),
        ensures
            r == if self@.contains_key(campaign_id@) {
                Ok(self@[campaign_id@].config)
            } else {
                Err(VerificationError::NotConfigured)
            },
    {
        match self.find(&campaign_id) {
            Some(b) => Ok(self.boards[b].config),
            None => Err(VerificationError::NotConfigured),
        }
    }
}

} // verus!
