//! Nutrition API: endpoint paths.
use vstd::prelude::*;
use crate::path::{dated_path, user_dated_path, user_path, user_resource_path};

verus! {

/// The path of the water log of a day.
pub fn water_logs_path(user_id: &str, date: &str) -> (r: String)
    ensures
        r@ == dated_path(user_id@, "/foods/log/water/date/"@, date@),
{
    user_dated_path(user_id, "/foods/log/water/date/", date)
}

/// The path of the food log of a day.
pub fn food_logs_path(user_id: &str, date: &str) -> (r: String)
    ensures
        r@ == dated_path(user_id@, "/foods/log/date/"@, date@),
{
    user_dated_path(user_id, "/foods/log/date/", date)
}

} // verus!
