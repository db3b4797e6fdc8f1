//! Endpoint paths, relative to the base URL.
use vstd::prelude::*;

verus! {

/// The path of a resource of a user: `/user/<user_id><rest>`.
pub open spec fn user_path(user_id: Seq<char>, rest: Seq<char>) -> Seq<char> {
    "/user/"@ + user_id + rest
}

/// The path of a user's daily resource: `/user/<user_id><area><date>.json`.
pub open spec fn dated_path(user_id: Seq<char>, area: Seq<char>, date: Seq<char>) -> Seq<char> {
    "/user/"@ + user_id + area + date + ".json"@
}

/// Builds `user_path(user_id, rest)`.
pub fn user_resource_path(user_id: &str, rest: &str) -> (r: String)
    ensures
        r@ == user_path(user_id@, rest@),
{
    String::from_str("/user/").concat(user_id).concat(rest)
}

/// Builds `dated_path(user_id, area, date)`.
pub fn user_dated_path(user_id: &str, area: &str, date: &str) -> (r: String)
    ensures
        r@ == dated_path(user_id@, area@, date@),
{
    String::from_str("/user/").concat(user_id).concat(area).concat(date).concat(".json")
}

} // verus!
