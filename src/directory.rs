//! Lookups in the system's user and group database, and the decisions made
//! right on their results.

use vstd::prelude::*;
use users::os::unix::GroupExt;
use crate::paths::join;
use crate::access::{authorized, prefix_for, BoxError, Identity, AUTH_GROUP, PREFIX, USERS};

verus! {

/// Relies on users::get_current_uid: the real user id of this process.
#[verifier::external_body]
fn current_uid() -> (r: u32) {
    users::get_current_uid()
}

/// Relies on users::get_current_username: the name of the account of the real
/// user id, if there is one.
#[verifier::external_body]
fn current_username() -> (r: Option<String>) {
    match users::get_current_username() {
        Some(n) => Some(n.to_string_lossy().into_owned()),
        None => None,
    }
}

/// Relies on users::get_user_by_uid: the account with that user id, if any.
#[verifier::external_body]
fn user_by_uid(uid: u32) -> (r: Option<Identity>) {
    match users::get_user_by_uid(uid) {
        Some(u) => Some(Identity {
            uid: u.uid(),
            name: u.name().to_string_lossy().into_owned(),
            primary_gid: u.primary_group_id(),
        }),
        None => None,
    }
}

/// Relies on users::get_user_by_name: the account with that name, if any.
#[verifier::external_body]
pub(crate) fn user_by_name(name: &str) -> (r: Option<Identity>) {
    match users::get_user_by_name(name) {
        Some(u) => Some(Identity {
            uid: u.uid(),
            name: u.name().to_string_lossy().into_owned(),
            primary_gid: u.primary_group_id(),
        }),
        None => None,
    }
}

/// Relies on users::get_group_by_name and GroupExt::members: the names listed
/// as members of that group, or `None` when there is no such group.
#[verifier::external_body]
fn group_members(name: &str) -> (r: Option<Vec<String>>) {
    match users::get_group_by_name(name) {
        Some(g) => Some(g.members().iter().map(|m| m.to_string_lossy().into_owned()).collect()),
        None => None,
    }
}

/// The account of the calling (real) user.
pub fn caller() -> (r: Result<Identity, BoxError>)
    ensures
        r is Err ==> r->Err_0 is UnknownUid,
{
    let uid = current_uid();
    match user_by_uid(uid) {
        Some(me) => Ok(me),
        None => Err(BoxError::UnknownUid(uid)),
    }
}

/// The caller's prefix: the box root joined with the caller's own user name.
pub fn myprefix() -> (r: Result<String, BoxError>)
    ensures
        r is Ok ==> exists|name: Seq<char>| r->Ok_0@ == join(PREFIX@, name),
        r is Err ==> r == Err::<String, BoxError>(BoxError::NoUserName),
{
    let name = current_username();
    prefix_for(PREFIX, &name)
}

/// Whether `me` may use the tool, looking up the authorization group. Whatever
/// the lookup finds, a caller outside the general users group is refused.
pub fn caller_authorized(me: &Identity) -> (r: bool)
    ensures
        r ==> me.primary_gid == USERS,
{
    let members = group_members(AUTH_GROUP);
    authorized(me, &members)
}

/// Lets `me` go on only when the authorization rule admits them.
pub fn admit_caller(me: &Identity) -> (r: Result<(), BoxError>)
    ensures
        r is Ok ==> me.primary_gid == USERS,
        r is Err ==> (r matches Err(BoxError::Declined(m)) && m@
            == "Only human users with `sudo-srv' permission are allowed to use me."@),
{
    if caller_authorized(me) {
        Ok(())
    } else {
        Err(BoxError::Declined(String::from_str("Only human users with `sudo-srv' permission are allowed to use me.")))
    }
}

} // verus!
