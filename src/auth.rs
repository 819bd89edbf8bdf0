use vstd::prelude::*;

verus! {

/// A principal: an actor (person or component) whose identity the host has
/// already authenticated for the call in which it appears.
#[derive(Clone, Copy, Debug, PartialEq, Eq, Structural)]
pub struct Address {
    pub id: u64,
}

/// The privileged ledger mutations that a component may be allowed to invoke.
#[derive(Clone, Copy, Debug, PartialEq, Eq, Structural)]
pub enum Operation {
    RecordDonation,
    ReleaseMilestoneFunds,
}

/// A one-shot delegated authorization, minted in `issuer`'s own call for
/// exactly one call of `operation` on the ledger at `ledger`, with exactly
/// these arguments. The host vouches for `issuer` as it does for any caller.
/// It is neither `Clone` nor `Copy`: the call that receives it consumes it.
#[derive(Debug)]
pub struct Grant {
    pub issuer: Address,
    pub ledger: Address,
    pub operation: Operation,
    pub campaign_id: [u8; 32],
    pub amount: i128,
}

impl Grant {
    /// The grant is scoped to exactly this call.
    pub open spec fn covers(
        &self,
        ledger: Address,
        operation: Operation,
        campaign_id: Seq<u8>,
        amount: i128,
    ) -> bool {
        &&& self.ledger == ledger
        &&& self.operation == operation
        &&& self.campaign_id@ == campaign_id
        &&& self.amount == amount
    }

    pub fn covers_call(
        &self,
        ledger: Address,
        operation: Operation,
        campaign_id: &[u8; 32],
        amount: i128,
    ) -> (r: bool)
        ensures
            r == self.covers(ledger, operation, campaign_id@, amount),
    {
        self.ledger == ledger && self.operation == operation && same_id(&self.campaign_id, campaign_id)
            && self.amount == amount
    }
}

/// Byte-wise equality of two campaign identifiers.
pub fn same_id(a: &[u8; 32], b: &[u8; 32]) -> (r: bool)
    ensures
        r == (a@ == b@),
{
    let mut i: usize = 0;
    while i < 32
        invariant
            0 <= i <= 32,
            a@.len() == 32,
            b@.len() == 32,
            forall|k: int| 0 <= k < i ==> a@[k] == b@[k],
        decreases 32 - i,
    {
        if a[i] != b[i] {
            assert(a@[i as int] != b@[i as int]);
            return false;
        }
        i = i + 1;
    }
    assert(a@ =~= b@);
    true
}

} // verus!
