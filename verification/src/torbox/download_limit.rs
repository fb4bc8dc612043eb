//! How many downloads an account may run at the same time.

use vstd::prelude::*;
use crate::torbox::user::UserData;

verus! {

/// The concurrent downloads that a plan includes: plan 0 allows 1, plan 1
/// allows 3, plan 2 allows 10, plan 3 allows 5, and any other plan none.
pub open spec fn plan_download_slots(plan: i8) -> int {
    if plan == 0 {
        1
    } else if plan == 1 {
        3
    } else if plan == 2 {
        10
    } else if plan == 3 {
        5
    } else {
        0
    }
}

/// Resolves the maximum concurrent downloads the given user is allowed to have:
/// the plan's slots plus the additional slots bought, narrowed to `i32` by
/// truncation.
pub fn resolve_download_limit(data: &UserData) -> (res: i32)
    requires
        plan_download_slots(data.plan) + data.additional_concurrent_slots <= i64::MAX,
    ensures
        res == (plan_download_slots(data.plan) + data.additional_concurrent_slots) as i32,
{
    let base_downloads: i64 = if data.plan == 0 {
        1
    } else if data.plan == 1 {
        3
    } else if data.plan == 2 {
        10
    } else if data.plan == 3 {
        5
    } else {
        0
    };
    let total: i64 = base_downloads + data.additional_concurrent_slots;
    total as i32
}

/// The download limit of the given user, or `None` when the plan's slots and
/// the additional slots bought overflow an `i64`, where
/// [`resolve_download_limit`] cannot be used.
pub fn checked_download_limit(data: &UserData) -> (res: Option<i32>)
    ensures
        res is None <==> plan_download_slots(data.plan) + data.additional_concurrent_slots
            > i64::MAX,
        res matches Some(limit) ==> limit == (plan_download_slots(data.plan)
            + data.additional_concurrent_slots) as i32,
{
    let base_downloads: i64 = if data.plan == 0 {
        1
    } else if data.plan == 1 {
        3
    } else if data.plan == 2 {
        10
    } else if data.plan == 3 {
        5
    } else {
        0
    };
    if data.additional_concurrent_slots > i64::MAX - base_downloads {
        None
    } else {
        Some(resolve_download_limit(data))
    }
}

} // verus!
