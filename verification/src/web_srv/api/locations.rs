//! What the requests on locations decide before anything is stored.
use crate::db::MapDB;
use crate::text::str_view;
use crate::web_srv::api::comments::NO_PERMISSION;
use crate::web_srv::user::login::{does_this_user_have_permission, Session};
use vstd::prelude::*;

verus! {

/// The capability to add a location.
pub const ADD_LOCATION: &'static str = "addLocation";

/// Why the session's user may not add a location, or `None` where the
/// user may: the capability `addLocation` is asked for.
pub fn save_location(session: &Session, db: &MapDB) -> (refusal: Option<&'static str>)
    requires
        db.wf(),
    ensures
        str_view(refusal) == (if session@.authorized(db@, ADD_LOCATION@) {
            None
        } else {
            Some(NO_PERMISSION@)
        }),
{
    if does_this_user_have_permission(session, db, ADD_LOCATION) {
        None
    } else {
        Some(NO_PERMISSION)
    }
}

/// The location that a request means: the first of the locations found
/// for it, or `None` where none was found and one is to be added. An owner
/// has at most one location of a kind, so for a request that names an
/// owner, `found` holds at most one.
pub fn get_location_id(found: &Vec<i64>, owner_id: i64) -> (location_id: Option<i64>)
    requires
        owner_id == -1 || found.len() <= 1,
    ensures
        location_id == (if found@.len() == 0 {
            None
        } else {
            Some(found@[0])
        }),
{
    if found.len() == 0 {
        None
    } else {
        Some(found[0])
    }
}

} // verus!
