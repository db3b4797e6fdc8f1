//! User API: endpoint paths.
use vstd::prelude::*;
use crate::path::{user_path, user_resource_path};

verus! {

/// The path of the profile of a user.
pub fn profile_path(user_id: &str) -> (r: String)
    ensures
        r@ == user_path(user_id@, "/profile.json"@),
{
    user_resource_path(user_id, "/profile.json")
}

/// The path that changes to the profile of the signed-in user are posted to.
pub fn update_profile_path() -> (r: String)
    ensures
        r@ == user_path("-"@, "/profile.json"@),
{
    user_resource_path("-", "/profile.json")
}

} // verus!
