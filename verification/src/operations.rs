use vstd::prelude::*;
use crate::account::{same_identity, Identity, StakeAccount, StakeRecord};
use crate::error::StakeError;
use crate::points::{accrued, update_points, POINT_SCALE};

verus! {

/// What `initialize` works on: the user who signs, the account to fill, and
/// the bump under which the account's address was found.
#[derive(Clone, Copy, Debug, PartialEq, Eq)]
pub struct Initialize {
    pub signer: Identity,
    pub stake_account: StakeAccount,
    pub bump: u8,
}

/// What `create_stake` works on: the user who calls, and the user's record.
#[derive(Clone, Copy, Debug, PartialEq, Eq)]
pub struct CreateStake {
    pub user: Identity,
    pub stake_account: StakeAccount,
}

/// What `un_stake` works on: the user who calls, and the user's record.
#[derive(Clone, Copy, Debug, PartialEq, Eq)]
pub struct UnStake {
    pub user: Identity,
    pub stake_account: StakeAccount,
}

/// What `claim_points` works on: the user who calls, and the user's record.
#[derive(Clone, Copy, Debug, PartialEq, Eq)]
pub struct ClaimPoints {
    pub user: Identity,
    pub stake_account: StakeAccount,
}

/// The ledger's standing to pay out of its own custody. It signs for the
/// record of `owner`, whose address was found under `bump`, where the user
/// does not sign.
#[derive(Clone, Copy, Debug, PartialEq, Eq)]
pub struct CustodyAuthority {
    pub owner: Identity,
    pub bump: u8,
}

/// A movement of value that an operation hands to its host to carry out.
/// The record already counts on it: a host that cannot carry it out drops
/// the record's update with it.
#[derive(Clone, Copy, Debug, PartialEq, Eq)]
pub enum Transfer {
    /// `amount` goes from the user into the ledger's custody; the user signs.
    FromUser { user: Identity, amount: u64 },
    /// `amount` goes from the ledger's custody to the user; the ledger signs.
    ToUser { user: Identity, amount: u64, authority: CustodyAuthority },
}

impl CustodyAuthority {
    /// Authorizes the payment of `amount` out of custody to the record's
    /// owner: the transfer that the host carries out with the ledger's
    /// signature.
    pub fn authorize(&self, amount: u64) -> (transfer: Transfer)
        ensures
            transfer == (Transfer::ToUser { user: self.owner, amount, authority: *self }),
    {
        Transfer::ToUser { user: self.owner, amount, authority: *self }
    }
}

/// A record has nothing staked (idle) or something (staking).
pub open spec fn is_staking(record: StakeRecord) -> bool {
    record.staked_amount > 0
}

/// The record of a user who has just joined: nothing staked, no points.
pub open spec fn initialized(owner: Seq<u8>, bump: nat, now: int) -> StakeRecord {
    StakeRecord { owner, staked_amount: 0, total_points: 0, last_stake_time: now, bump }
}

/// The record after `caller` deposits `amount` at `now`. Points are accrued
/// first, on the balance as it was; then the balance rises by `amount`, once.
/// Refused, in this order: `Unauthorized` for a caller who is not the owner,
/// `InsufficientAmount` for no amount, what the accrual refuses, `Overflow`
/// for a balance that cannot be held.
pub open spec fn deposited(record: StakeRecord, caller: Seq<u8>, amount: nat, now: int) -> Result<
    StakeRecord,
    StakeError,
> {
    if caller != record.owner {
        Err(StakeError::Unauthorized)
    } else if amount == 0 {
        Err(StakeError::InsufficientAmount)
    } else {
        match accrued(record, now) {
            Err(e) => Err(e),
            Ok(current) => if current.staked_amount + amount > u64::MAX {
                Err(StakeError::Overflow)
            } else {
                Ok(StakeRecord { staked_amount: current.staked_amount + amount, ..current })
            },
        }
    }
}

/// The record after `caller` withdraws `amount` at `now`. Points are accrued
/// first; then the balance falls by `amount`. The balance must be greater
/// than `amount`: the whole of it cannot be withdrawn.
/// Refused, in this order: `Unauthorized` for a caller who is not the owner,
/// `InsufficientAmount` for no amount, what the accrual refuses,
/// `InsufficientAmount` for the whole balance or more.
pub open spec fn withdrawn(record: StakeRecord, caller: Seq<u8>, amount: nat, now: int) -> Result<
    StakeRecord,
    StakeError,
> {
    if caller != record.owner {
        Err(StakeError::Unauthorized)
    } else if amount == 0 {
        Err(StakeError::InsufficientAmount)
    } else {
        match accrued(record, now) {
            Err(e) => Err(e),
            Ok(current) => if current.staked_amount <= amount {
                Err(StakeError::InsufficientAmount)
            } else {
                Ok(
                    StakeRecord {
                        staked_amount: (current.staked_amount - amount) as nat,
                        ..current
                    },
                )
            },
        }
    }
}

/// The record after `caller` claims at `now`, and the whole points claimed.
/// Points are accrued first; the claim is the stored points divided by
/// `POINT_SCALE`, rounded down; the stored points are then zero.
/// Refused, in this order: `Unauthorized` for a caller who is not the owner,
/// what the accrual refuses.
pub open spec fn claimed(record: StakeRecord, caller: Seq<u8>, now: int) -> Result<
    (StakeRecord, nat),
    StakeError,
> {
    if caller != record.owner {
        Err(StakeError::Unauthorized)
    } else {
        match accrued(record, now) {
            Err(e) => Err(e),
            Ok(current) => Ok(
                (
                    StakeRecord { total_points: 0, ..current },
                    current.total_points / (POINT_SCALE as nat),
                ),
            ),
        }
    }
}

/// Makes the record of the signer: owned by the signer, with nothing staked
/// and no points, last accrued at `now`. That a user has one record only is
/// the host's to see to.
pub fn initialize(ctx: &mut Initialize, now: i64) -> (r: Result<(), StakeError>)
    ensures
        r is Ok,
        final(ctx).stake_account@ == initialized(old(ctx).signer@, old(ctx).bump as nat, now as int),
        final(ctx).stake_account.owner == old(ctx).signer,
        final(ctx).signer == old(ctx).signer,
        final(ctx).bump == old(ctx).bump,
{
    let account = StakeAccount {
        owner: ctx.signer,
        staked_amount: 0,
        total_points: 0,
        last_stake_time: now,
        bump: ctx.bump,
    };
    ctx.stake_account = account;
    Ok(())
}

/// Deposits `amount` for the user at `now`, and hands back the transfer that
/// brings the value in. On an error the context is left as it was.
///
/// The balance rises by `amount` once. (Setting the balance to `amount` and
/// then adding `amount` again would count a first deposit twice.) It rises
/// before the transfer is handed out, so that an overflow is found while no
/// value has moved.
pub fn create_stake(ctx: &mut CreateStake, amount: u64, now: i64) -> (r: Result<
    Transfer,
    StakeError,
>)
    ensures
        match deposited(old(ctx).stake_account@, old(ctx).user@, amount as nat, now as int) {
            Ok(record) => r == Ok::<Transfer, StakeError>(
                Transfer::FromUser { user: old(ctx).user, amount },
            ) && final(ctx).stake_account@ == record && final(ctx).user == old(ctx).user,
            Err(e) => r == Err::<Transfer, StakeError>(e) && *final(ctx) == *old(ctx),
        },
        final(ctx).stake_account.owner == old(ctx).stake_account.owner,
        final(ctx).stake_account.bump == old(ctx).stake_account.bump,
        r is Ok ==> final(ctx).stake_account.staked_amount == old(ctx).stake_account.staked_amount
            + amount,
        old(ctx).user != old(ctx).stake_account.owner ==> r == Err::<Transfer, StakeError>(
            StakeError::Unauthorized,
        ),
{
    broadcast use vstd::array::group_array_axioms;

    if !same_identity(&ctx.user, &ctx.stake_account.owner) {
        return Err(StakeError::Unauthorized);
    }
    if amount == 0 {
        return Err(StakeError::InsufficientAmount);
    }
    let mut account = ctx.stake_account;
    match update_points(&mut account, now) {
        Ok(()) => {},
        Err(e) => { return Err(e); },
    }
    account.staked_amount = match account.staked_amount.checked_add(amount) {
        Some(staked) => staked,
        None => { return Err(StakeError::Overflow); },
    };
    ctx.stake_account = account;
    Ok(Transfer::FromUser { user: ctx.user, amount })
}

/// Withdraws `amount` for the user at `now`, and hands back the transfer
/// that pays the value out, with the ledger's authority to sign it. On an
/// error the context is left as it was.
///
/// The balance must be greater than `amount`, not merely equal to it: the
/// whole balance cannot be withdrawn in one call, and a record that has once
/// been staked never falls back to nothing staked.
pub fn un_stake(ctx: &mut UnStake, amount: u64, now: i64) -> (r: Result<Transfer, StakeError>)
    ensures
        match withdrawn(old(ctx).stake_account@, old(ctx).user@, amount as nat, now as int) {
            Ok(record) => r == Ok::<Transfer, StakeError>(
                Transfer::ToUser {
                    user: old(ctx).user,
                    amount,
                    authority: CustodyAuthority {
                        owner: old(ctx).stake_account.owner,
                        bump: old(ctx).stake_account.bump,
                    },
                },
            ) && final(ctx).stake_account@ == record && final(ctx).user == old(ctx).user,
            Err(e) => r == Err::<Transfer, StakeError>(e) && *final(ctx) == *old(ctx),
        },
        final(ctx).stake_account.owner == old(ctx).stake_account.owner,
        final(ctx).stake_account.bump == old(ctx).stake_account.bump,
        r is Ok ==> final(ctx).stake_account.staked_amount == old(ctx).stake_account.staked_amount
            - amount,
        amount >= old(ctx).stake_account.staked_amount ==> r is Err,
        r != Err::<Transfer, StakeError>(StakeError::Underflow),
        old(ctx).user != old(ctx).stake_account.owner ==> r == Err::<Transfer, StakeError>(
            StakeError::Unauthorized,
        ),
{
    broadcast use vstd::array::group_array_axioms;

    if !same_identity(&ctx.user, &ctx.stake_account.owner) {
        return Err(StakeError::Unauthorized);
    }
    if amount == 0 {
        return Err(StakeError::InsufficientAmount);
    }
    let mut account = ctx.stake_account;
    match update_points(&mut account, now) {
        Ok(()) => {},
        Err(e) => { return Err(e); },
    }
    if account.staked_amount <= amount {
        return Err(StakeError::InsufficientAmount);
    }
    // The balance is greater than the amount, so the difference never falls
    // below zero; it is taken with the guarded subtraction all the same.
    account.staked_amount = match account.staked_amount.checked_sub(amount) {
        Some(staked) => staked,
        None => { return Err(StakeError::Underflow); },
    };
    let authority = CustodyAuthority { owner: account.owner, bump: account.bump };
    ctx.stake_account = account;
    Ok(authority.authorize(amount))
}

/// Claims the user's points at `now`: hands back the whole points that the
/// record holds once accrued, and sets the stored points to zero, the
/// fraction of a point with them. No value moves; what a claim is redeemed
/// for is the host's matter. On an error the context is left as it was.
pub fn claim_points(ctx: &mut ClaimPoints, now: i64) -> (r: Result<u64, StakeError>)
    ensures
        match claimed(old(ctx).stake_account@, old(ctx).user@, now as int) {
            Ok((record, points)) => r matches Ok(claimable) && claimable == points
                && final(ctx).stake_account@ == record && final(ctx).user == old(ctx).user,
            Err(e) => r == Err::<u64, StakeError>(e) && *final(ctx) == *old(ctx),
        },
        final(ctx).stake_account.owner == old(ctx).stake_account.owner,
        final(ctx).stake_account.bump == old(ctx).stake_account.bump,
        final(ctx).stake_account.staked_amount == old(ctx).stake_account.staked_amount,
        r is Ok ==> final(ctx).stake_account.total_points == 0,
        old(ctx).user != old(ctx).stake_account.owner ==> r == Err::<u64, StakeError>(
            StakeError::Unauthorized,
        ),
{
    broadcast use vstd::array::group_array_axioms;

    if !same_identity(&ctx.user, &ctx.stake_account.owner) {
        return Err(StakeError::Unauthorized);
    }
    let mut account = ctx.stake_account;
    match update_points(&mut account, now) {
        Ok(()) => {},
        Err(e) => { return Err(e); },
    }
    let points_claimable = account.total_points / POINT_SCALE;
    account.total_points = 0;
    ctx.stake_account = account;
    Ok(points_claimable)
}

/// Every operation that changes a record refuses a caller who is not the
/// record's owner, whatever else is asked.
pub proof fn lemma_unauthorized_refused(record: StakeRecord, caller: Seq<u8>, amount: nat, now: int)
    requires
        caller != record.owner,
    ensures
        deposited(record, caller, amount, now) == Err::<StakeRecord, StakeError>(
            StakeError::Unauthorized,
        ),
        withdrawn(record, caller, amount, now) == Err::<StakeRecord, StakeError>(
            StakeError::Unauthorized,
        ),
        claimed(record, caller, now) == Err::<(StakeRecord, nat), StakeError>(
            StakeError::Unauthorized,
        ),
{
}

/// A successful deposit raises the balance by the amount, exactly once, and
/// changes the points only by what had accrued before it.
pub proof fn lemma_deposit_adds_once(record: StakeRecord, caller: Seq<u8>, amount: nat, now: int)
    requires
        deposited(record, caller, amount, now) is Ok,
    ensures
        deposited(record, caller, amount, now)->Ok_0.staked_amount == record.staked_amount
            + amount,
        accrued(record, now) is Ok,
        deposited(record, caller, amount, now)->Ok_0.total_points == accrued(
            record,
            now,
        )->Ok_0.total_points,
{
}

/// The whole balance, or more, is never paid out: for the owner, at a time
/// that the accrual accepts, the refusal is `InsufficientAmount`.
pub proof fn lemma_full_withdrawal_refused(
    record: StakeRecord,
    caller: Seq<u8>,
    amount: nat,
    now: int,
)
    requires
        amount >= record.staked_amount,
    ensures
        withdrawn(record, caller, amount, now) is Err,
        caller == record.owner && accrued(record, now) is Ok ==> withdrawn(
            record,
            caller,
            amount,
            now,
        ) == Err::<StakeRecord, StakeError>(StakeError::InsufficientAmount),
{
}

/// No operation takes a balance or a point total out of its range. An
/// operation that would is refused; one that succeeds on a well-formed
/// record gives a well-formed record, whose time has not moved back.
pub proof fn lemma_operations_keep_bounds(
    record: StakeRecord,
    caller: Seq<u8>,
    amount: nat,
    now: int,
)
    requires
        record.wf(),
        i64::MIN <= now <= i64::MAX,
    ensures
        record.staked_amount + amount > u64::MAX ==> deposited(record, caller, amount, now) is Err,
        record.staked_amount + amount > u64::MAX && caller == record.owner && accrued(
            record,
            now,
        ) is Ok ==> deposited(record, caller, amount, now) == Err::<StakeRecord, StakeError>(
            StakeError::Overflow,
        ),
        amount > record.staked_amount ==> withdrawn(record, caller, amount, now) is Err,
        deposited(record, caller, amount, now) matches Ok(after) ==> after.wf()
            && after.last_stake_time == now && now >= record.last_stake_time,
        withdrawn(record, caller, amount, now) matches Ok(after) ==> after.wf()
            && after.last_stake_time == now && now >= record.last_stake_time,
        claimed(record, caller, now) matches Ok((after, points)) ==> after.wf() && points
            <= u64::MAX && after.last_stake_time == now && now >= record.last_stake_time,
{
}

/// A new record is well-formed and idle, and holds no points.
pub proof fn lemma_initialized_idle(owner: Seq<u8>, bump: nat, now: int)
    requires
        owner.len() == 32,
        bump <= u8::MAX,
        i64::MIN <= now <= i64::MAX,
    ensures
        initialized(owner, bump, now).wf(),
        !is_staking(initialized(owner, bump, now)),
        initialized(owner, bump, now).total_points == 0,
        initialized(owner, bump, now).owner == owner,
{
}

/// How operations move a record between idle and staking: a deposit leaves
/// it staking, a withdrawal is for a staking record and leaves it staking,
/// a claim leaves it where it was.
pub proof fn lemma_staking_states(record: StakeRecord, caller: Seq<u8>, amount: nat, now: int)
    ensures
        deposited(record, caller, amount, now) matches Ok(after) ==> is_staking(after),
        withdrawn(record, caller, amount, now) matches Ok(after) ==> is_staking(record)
            && is_staking(after),
        claimed(record, caller, now) matches Ok((after, _)) ==> is_staking(after) == is_staking(
            record,
        ),
{
}

} // verus!
