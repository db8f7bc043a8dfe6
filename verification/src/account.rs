use vstd::prelude::*;

verus! {

/// Who a user is: the 32 bytes of the user's address.
pub type Identity = [u8; 32];

/// The stake record of one user.
#[derive(Clone, Copy, Debug, PartialEq, Eq)]
pub struct StakeAccount {
    /// The user who controls the record. Set when the record is made.
    pub owner: Identity,
    /// The value that the ledger holds for the owner.
    pub staked_amount: u64,
    /// The points accrued and not yet claimed, `POINT_SCALE` to the point.
    pub total_points: u64,
    /// The time, in seconds, up to which points have been accrued.
    pub last_stake_time: i64,
    /// The bump of the record's address; the ledger only carries it.
    pub bump: u8,
}

/// What a `StakeAccount` stands for, in unbounded numbers.
pub struct StakeRecord {
    pub owner: Seq<u8>,
    pub staked_amount: nat,
    pub total_points: nat,
    pub last_stake_time: int,
    pub bump: nat,
}

impl StakeRecord {
    /// The record can be held in a `StakeAccount`.
    pub open spec fn wf(self) -> bool {
        &&& self.owner.len() == 32
        &&& self.staked_amount <= u64::MAX
        &&& self.total_points <= u64::MAX
        &&& i64::MIN <= self.last_stake_time <= i64::MAX
        &&& self.bump <= u8::MAX
    }
}

impl View for StakeAccount {
    type V = StakeRecord;

    open spec fn view(&self) -> StakeRecord {
        StakeRecord {
            owner: self.owner@,
            staked_amount: self.staked_amount as nat,
            total_points: self.total_points as nat,
            last_stake_time: self.last_stake_time as int,
            bump: self.bump as nat,
        }
    }
}

/// Every account holds a well-formed record, and the record tells the
/// account: two accounts with one view are the same account.
pub proof fn lemma_view_faithful(a: StakeAccount, b: StakeAccount)
    ensures
        a@.wf(),
        a@ == b@ <==> a == b,
{
    broadcast use vstd::array::group_array_axioms;

    if a@ == b@ {
        assert(a.owner@ == b.owner@);
        assert(a.owner =~= b.owner);
    }
}

/// Whether two identities are the same user.
pub fn same_identity(a: &Identity, b: &Identity) -> (same: bool)
    ensures
        same <==> *a == *b,
        same <==> a@ == b@,
{
    broadcast use vstd::array::group_array_axioms;

    let mut i: usize = 0;
    while i < 32
        invariant
            i <= 32,
            forall|j: int| 0 <= j < i ==> a[j] == b[j],
        decreases 32 - i,
    {
        if a[i] != b[i] {
            assert(a@[i as int] != b@[i as int]);
            return false;
        }
        i += 1;
    }
    assert(*a =~= *b);
    true
}

} // verus!
