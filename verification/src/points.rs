use vstd::prelude::*;
use crate::account::{StakeAccount, StakeRecord};
use crate::error::StakeError;

verus! {

/// Stored points are this many times the points a user is shown.
pub const POINT_SCALE: u64 = 1_000_000;

/// One staked unit held for this many seconds earns one stored point.
pub const SECONDS_PER_DAY: u64 = 86_400;

/// The stored points that `staked_amount` earns over `time_elapsed` seconds:
/// the product, taken per day and rounded down. An `Overflow` where the
/// product, scaled by `POINT_SCALE`, leaves the 128-bit range, or where the
/// points leave the 64-bit range.
pub open spec fn points_for(staked_amount: nat, time_elapsed: nat) -> Result<nat, StakeError> {
    let product = staked_amount * time_elapsed;
    if product * POINT_SCALE > u128::MAX {
        Err(StakeError::Overflow)
    } else if product / (SECONDS_PER_DAY as nat) > u64::MAX {
        Err(StakeError::Overflow)
    } else {
        Ok(product / (SECONDS_PER_DAY as nat))
    }
}

/// The points earned by `staked_amount` over `time_elapsed` seconds.
pub fn calculate_points(staked_amount: u64, time_elapsed: u64) -> (r: Result<u64, StakeError>)
    ensures
        match r {
            Ok(points) => points_for(staked_amount as nat, time_elapsed as nat) == Ok::<
                nat,
                StakeError,
            >(points as nat),
            Err(e) => points_for(staked_amount as nat, time_elapsed as nat) == Err::<
                nat,
                StakeError,
            >(e),
        },
        r matches Ok(points) ==> points == staked_amount * time_elapsed / 86_400,
{
    assert(staked_amount * time_elapsed <= u128::MAX) by (nonlinear_arith)
        requires
            staked_amount <= u64::MAX,
            time_elapsed <= u64::MAX,
    ;
    // Two 64-bit factors cannot leave the 128-bit range, so this first
    // product never fails; it is taken with the guarded multiplication all
    // the same.
    let product: u128 = match (staked_amount as u128).checked_mul(time_elapsed as u128) {
        Some(p) => p,
        None => { return Err(StakeError::InvalidTimestamp); },
    };
    let scaled: u128 = match product.checked_mul(POINT_SCALE as u128) {
        Some(s) => s,
        None => { return Err(StakeError::Overflow); },
    };
    let unscaled: u128 = match scaled.checked_div(POINT_SCALE as u128) {
        Some(u) => u,
        None => { return Err(StakeError::Overflow); },
    };
    let points: u128 = match unscaled.checked_div(SECONDS_PER_DAY as u128) {
        Some(p) => p,
        None => { return Err(StakeError::Overflow); },
    };
    if points > u64::MAX as u128 {
        return Err(StakeError::Overflow);
    }
    Ok(points as u64)
}

/// The record after points have been accrued up to `now`: the points that
/// the balance earned since the last accrual are added, and the last accrual
/// is now. With no time gone by, or nothing staked, only the time moves.
/// `InvalidTimestamp` where `now` lies before the last accrual or too far
/// after it to count the seconds; otherwise `Overflow` where the points
/// earned, or the new total, cannot be held.
pub open spec fn accrued(record: StakeRecord, now: int) -> Result<StakeRecord, StakeError> {
    let elapsed = now - record.last_stake_time;
    if elapsed < 0 || elapsed > i64::MAX {
        Err(StakeError::InvalidTimestamp)
    } else if elapsed > 0 && record.staked_amount > 0 {
        match points_for(record.staked_amount, elapsed as nat) {
            Err(e) => Err(e),
            Ok(earned) => if record.total_points + earned > u64::MAX {
                Err(StakeError::Overflow)
            } else {
                Ok(
                    StakeRecord {
                        total_points: record.total_points + earned,
                        last_stake_time: now,
                        ..record
                    },
                )
            },
        }
    } else {
        Ok(StakeRecord { last_stake_time: now, ..record })
    }
}

/// Accrues the points that `account` has earned up to `current_time`. Every
/// operation on a record begins with this. On an error the account is left as
/// it was.
pub fn update_points(account: &mut StakeAccount, current_time: i64) -> (r: Result<(), StakeError>)
    ensures
        match accrued(old(account)@, current_time as int) {
            Ok(record) => r is Ok && final(account)@ == record,
            Err(e) => r == Err::<(), StakeError>(e) && *final(account) == *old(account),
        },
        final(account).owner == old(account).owner,
        final(account).staked_amount == old(account).staked_amount,
        final(account).bump == old(account).bump,
        r is Ok ==> final(account).last_stake_time == current_time,
{
    let staked_amount = account.staked_amount;
    let elapsed: i64 = match current_time.checked_sub(account.last_stake_time) {
        Some(e) => e,
        None => { return Err(StakeError::InvalidTimestamp); },
    };
    if elapsed < 0 {
        return Err(StakeError::InvalidTimestamp);
    }
    let time_elapsed = elapsed as u64;

    if time_elapsed > 0 && staked_amount > 0 {
        let new_points = match calculate_points(staked_amount, time_elapsed) {
            Ok(p) => p,
            Err(e) => { return Err(e); },
        };
        let total_points = match account.total_points.checked_add(new_points) {
            Some(t) => t,
            None => { return Err(StakeError::Overflow); },
        };
        account.total_points = total_points;
    }
    account.last_stake_time = current_time;
    Ok(())
}

/// Points never fall when the amount or the time rises: where the larger
/// pair can be computed, so can the smaller, and it earns no more.
pub proof fn lemma_points_monotonic(amount: nat, elapsed: nat, more_amount: nat, more_elapsed: nat)
    requires
        amount <= more_amount,
        elapsed <= more_elapsed,
        points_for(more_amount, more_elapsed) is Ok,
    ensures
        points_for(amount, elapsed) is Ok,
        points_for(amount, elapsed)->Ok_0 <= points_for(more_amount, more_elapsed)->Ok_0,
{
    assert(amount * elapsed <= more_amount * more_elapsed) by (nonlinear_arith)
        requires
            amount <= more_amount,
            elapsed <= more_elapsed,
    ;
}

/// Where nothing overflows, the points are the product of amount and time,
/// divided by the seconds of a day and rounded down.
pub proof fn lemma_points_per_day(amount: nat, elapsed: nat)
    requires
        points_for(amount, elapsed) is Ok,
    ensures
        points_for(amount, elapsed)->Ok_0 == (amount * elapsed) / 86_400,
        86_400 * points_for(amount, elapsed)->Ok_0 <= amount * elapsed,
        amount * elapsed < 86_400 * (points_for(amount, elapsed)->Ok_0 + 1),
{
}

/// Accrual is idempotent: a second accrual at the same time adds no points
/// and changes nothing.
pub proof fn lemma_accrual_idempotent(record: StakeRecord, now: int)
    requires
        accrued(record, now) is Ok,
    ensures
        accrued(accrued(record, now)->Ok_0, now) == accrued(record, now),
        accrued(accrued(record, now)->Ok_0, now)->Ok_0.total_points == accrued(
            record,
            now,
        )->Ok_0.total_points,
{
}

/// Accrual refuses a point total that cannot be held, rather than wrap it.
pub proof fn lemma_accrual_refuses_overflow(record: StakeRecord, now: int)
    requires
        0 < now - record.last_stake_time <= i64::MAX,
        record.staked_amount > 0,
        points_for(record.staked_amount, (now - record.last_stake_time) as nat) matches Ok(earned)
            ==> record.total_points + earned > u64::MAX,
    ensures
        accrued(record, now) == Err::<StakeRecord, StakeError>(StakeError::Overflow),
{
}

/// Accrual keeps a record well-formed, never moves its time back, never
/// lowers its points, and touches neither its owner nor its balance.
pub proof fn lemma_accrual_preserves(record: StakeRecord, now: int)
    requires
        record.wf(),
        i64::MIN <= now <= i64::MAX,
        accrued(record, now) is Ok,
    ensures
        accrued(record, now)->Ok_0.wf(),
        accrued(record, now)->Ok_0.last_stake_time == now,
        accrued(record, now)->Ok_0.last_stake_time >= record.last_stake_time,
        accrued(record, now)->Ok_0.total_points >= record.total_points,
        accrued(record, now)->Ok_0.staked_amount == record.staked_amount,
        accrued(record, now)->Ok_0.owner == record.owner,
        accrued(record, now)->Ok_0.bump == record.bump,
{
}

} // verus!
