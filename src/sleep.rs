//! Sleep API: endpoint paths.
use vstd::prelude::*;
use crate::path::{dated_path, user_dated_path, user_path, user_resource_path};

verus! {

/// The path of the sleep log of a day.
pub fn sleep_logs_path(user_id: &str, date: &str) -> (r: String)
    ensures
        r@ == dated_path(user_id@, "/sleep/date/"@, date@),
{
    user_dated_path(user_id, "/sleep/date/", date)
}

/// The path of the sleep goal.
pub fn sleep_goal_path(user_id: &str) -> (r: String)
    ensures
        r@ == user_path(user_id@, "/sleep/goal.json"@),
{
    user_resource_path(user_id, "/sleep/goal.json")
}

} // verus!
