//! Body API: endpoint paths.
use vstd::prelude::*;
use crate::path::{dated_path, user_dated_path, user_path, user_resource_path};

verus! {

/// The path of the weight log of a day.
pub fn body_weight_path(user_id: &str, date: &str) -> (r: String)
    ensures
        r@ == dated_path(user_id@, "/body/log/weight/date/"@, date@),
{
    user_dated_path(user_id, "/body/log/weight/date/", date)
}

/// The path of the body fat log of a day.
pub fn body_fat_path(user_id: &str, date: &str) -> (r: String)
    ensures
        r@ == dated_path(user_id@, "/body/log/fat/date/"@, date@),
{
    user_dated_path(user_id, "/body/log/fat/date/", date)
}

/// The path of the body goals.
pub fn body_goals_path(user_id: &str) -> (r: String)
    ensures
        r@ == user_path(user_id@, "/body/goals.json"@),
{
    user_resource_path(user_id, "/body/goals.json")
}

} // verus!
