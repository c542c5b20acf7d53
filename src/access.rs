//! Who the caller is, where their boxes live, and whether they may use the
//! tool at all.

use vstd::prelude::*;
use crate::paths::{join, join_path};

verus! {

/// Group id of the general (human) users group.
pub const USERS: u32 = 100;

/// Group id that every service identity has as its primary group.
pub const SERVICE: u32 = 900;

/// The directory that holds one box prefix per human user.
pub const PREFIX: &'static str = "/mnt/auto/box";

/// The group whose members may manage box permissions.
pub const AUTH_GROUP: &'static str = "sudo-srv";

/// A snapshot of a user account.
#[derive(Clone, Debug, PartialEq, Eq)]
pub struct Identity {
    pub uid: u32,
    pub name: String,
    pub primary_gid: u32,
}

impl Identity {
    pub fn new(uid: u32, name: &str, primary_gid: u32) -> (r: Identity)
        ensures
            r.uid == uid,
            r.name@ == name@,
            r.primary_gid == primary_gid,
    {
        Identity { uid, name: String::from_str(name), primary_gid }
    }
}

/// Why an invocation was refused or failed.
#[derive(Clone, Debug, PartialEq, Eq)]
pub enum BoxError {
    /// A policy refusal: unauthorized caller, path outside the prefix, or a
    /// target that is not a directory.
    Declined(String),
    /// The named grant target is unknown or is not a service identity.
    GrantUser(String),
    /// The calling user id has no account.
    UnknownUid(u32),
    /// The caller's own user name could not be determined.
    NoUserName,
    /// A reply came that does not answer the request that was made.
    OutOfOrder,
}

/// `name` is listed in `members`.
pub open spec fn listed(members: Seq<String>, name: Seq<char>) -> bool {
    exists|i: int| 0 <= i < members.len() && members[i]@ == name
}

/// The caller may use the tool: their primary group is the general users
/// group, and the authorization group exists and lists them.
pub open spec fn may_manage(me: Identity, auth_members: Option<Seq<String>>) -> bool {
    &&& me.primary_gid == USERS
    &&& auth_members is Some
    &&& listed(auth_members->0, me.name@)
}

/// The contents of an optional member list.
pub open spec fn members_view(o: Option<Vec<String>>) -> Option<Seq<String>> {
    match o {
        Some(v) => Some(v@),
        None => None,
    }
}

/// Whether two texts are equal.
pub fn same_text(a: &str, b: &str) -> (r: bool)
    ensures
        r == (a@ == b@),
{
    let n = a.unicode_len();
    let m = b.unicode_len();
    if n != m {
        return false;
    }
    let mut i: usize = 0;
    while i < n
        invariant
            n == a@.len(),
            m == b@.len(),
            n == m,
            i <= n,
            forall|j: int| 0 <= j < i ==> a@[j] == b@[j],
        decreases n - i,
    {
        if a.get_char(i) != b.get_char(i) {
            return false;
        }
        i = i + 1;
    }
    assert(a@ =~= b@);
    true
}

/// Decides whether `me` may use the tool, given the member list of the
/// authorization group (`None` when that group does not exist).
pub fn authorized(me: &Identity, auth_members: &Option<Vec<String>>) -> (r: bool)
    ensures
        r == may_manage(*me, members_view(*auth_members)),
{
    if me.primary_gid != USERS {
        return false;
    }
    match auth_members {
        Some(members) => {
            let mut i: usize = 0;
            while i < members.len()
                invariant
                    me.primary_gid == USERS,
                    members_view(*auth_members) == Some(members@),
                    i <= members.len(),
                    forall|j: int| 0 <= j < i ==> members@[j]@ != me.name@,
                decreases members.len() - i,
            {
                if same_text(members[i].as_str(), me.name.as_str()) {
                    assert(members@[i as int]@ == me.name@);
                    assert(listed(members@, me.name@));
                    return true;
                }
                i = i + 1;
            }
            false
        },
        None => false,
    }
}

/// Computes the caller's prefix from the root directory and the caller's own
/// user name, if it could be determined.
pub fn prefix_for(root: &str, user_name: &Option<String>) -> (r: Result<String, BoxError>)
    ensures
        user_name is Some ==> r is Ok && r->Ok_0@ == join(root@, user_name->0@),
        user_name is None ==> r == Err::<String, BoxError>(BoxError::NoUserName),
{
    match user_name {
        Some(n) => Ok(join_path(root, n.as_str())),
        None => Err(BoxError::NoUserName),
    }
}

} // verus!
