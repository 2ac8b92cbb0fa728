//! The time before which nothing is released to the owner.

use vstd::prelude::*;
use crate::errors::BackstopManagerErrors;

verus! {

/// Whether an unlock time may be set at `now`: it has to lie strictly in the
/// future.
pub open spec fn spec_check_unlock_time(unlock: u64, now: u64) -> Result<(), BackstopManagerErrors> {
    if unlock > now {
        Ok(())
    } else {
        Err(BackstopManagerErrors::InvalidUnlockTime)
    }
}

/// Whether assets locked until `unlock` may be released at `now`.
pub open spec fn spec_assert_unlocked(unlock: u64, now: u64) -> Result<(), BackstopManagerErrors> {
    if now < unlock {
        Err(BackstopManagerErrors::InvalidUnlockTime)
    } else {
        Ok(())
    }
}

/// Accepts `unlock` as the unlock time of an instance created at `now`, or
/// refuses it with `InvalidUnlockTime` where it is not after `now`.
pub fn check_unlock_time(unlock: u64, now: u64) -> (checked: Result<(), BackstopManagerErrors>)
    ensures
        checked == spec_check_unlock_time(unlock, now),
{
    if unlock > now {
        Ok(())
    } else {
        Err(BackstopManagerErrors::InvalidUnlockTime)
    }
}

/// Lets a release pass from `unlock` on, and refuses it with
/// `InvalidUnlockTime` at any time before.
pub fn assert_unlocked(unlock: u64, now: u64) -> (release: Result<(), BackstopManagerErrors>)
    ensures
        release == spec_assert_unlocked(unlock, now),
{
    if now < unlock {
        Err(BackstopManagerErrors::InvalidUnlockTime)
    } else {
        Ok(())
    }
}

/// The lock is binary and opens once: closed at every time before the
/// unlock time, open at the unlock time and at every time after it.
pub proof fn lemma_lock_opens_at_unlock(unlock: u64, now: u64)
    ensures
        now < unlock ==> spec_assert_unlocked(unlock, now) == Err::<(), BackstopManagerErrors>(
            BackstopManagerErrors::InvalidUnlockTime,
        ),
        now >= unlock ==> spec_assert_unlocked(unlock, now) is Ok,
{
}

/// A lock that is open stays open.
pub proof fn lemma_lock_stays_open(unlock: u64, now: u64, later: u64)
    requires
        now <= later,
        spec_assert_unlocked(unlock, now) is Ok,
    ensures
        spec_assert_unlocked(unlock, later) is Ok,
{
}

/// An unlock time accepted at creation keeps the lock closed at that moment.
pub proof fn lemma_locked_at_creation(unlock: u64, created: u64)
    requires
        spec_check_unlock_time(unlock, created) is Ok,
    ensures
        spec_assert_unlocked(unlock, created) is Err,
{
}

} // verus!
