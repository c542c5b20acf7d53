//! The ownership and mode changes that a grant applies to a box tree, and the
//! checks that stand before them.

use vstd::prelude::*;
use crate::access::{same_text, BoxError, Identity, SERVICE, USERS};
use crate::directory::user_by_name;
use crate::paths::{below_prefix, contained, opt_views, views};

verus! {

/// Mode of a box opened to the general users group.
pub const PUBLIC_MODE: u32 = 0o755;

/// Mode of a box restricted to its owner.
pub const PRIVATE_MODE: u32 = 0o700;

/// A change to one filesystem entry, as a mathematical value.
pub enum Change {
    /// Set owner and group of the entry at the path.
    Chown(Seq<char>, u32, u32),
    /// Set the mode bits of the entry at the path.
    Chmod(Seq<char>, u32),
}

/// A change to one filesystem entry, to be carried out by the caller.
#[derive(Clone, Debug, PartialEq, Eq)]
pub enum Action {
    Chown { path: String, uid: u32, gid: u32 },
    Chmod { path: String, mode: u32 },
}

impl View for Action {
    type V = Change;

    open spec fn view(&self) -> Change {
        match self {
            Action::Chown { path, uid, gid } => Change::Chown(path@, *uid, *gid),
            Action::Chmod { path, mode } => Change::Chmod(path@, *mode),
        }
    }
}

/// The changes that a sequence of actions stands for.
pub open spec fn changes(v: Seq<Action>) -> Seq<Change> {
    v.map_values(|a: Action| a@)
}

/// Ownership of each entry, in order, to `uid` and `gid`.
pub open spec fn chowns(entries: Seq<Seq<char>>, uid: u32, gid: u32) -> Seq<Change> {
    Seq::new(entries.len(), |i: int| Change::Chown(entries[i], uid, gid))
}

/// Every entry to the owner and the general users group, then the top
/// directory alone to `mode`.
pub open spec fn owner_changes(
    root: Seq<char>,
    entries: Seq<Seq<char>>,
    uid: u32,
    mode: u32,
) -> Seq<Change> {
    chowns(entries, uid, USERS).push(Change::Chmod(root, mode))
}

/// The mode that the last mode change on `path` among `cs` sets, or `None`
/// when `cs` leaves the mode of `path` alone.
pub open spec fn mode_set_by(cs: Seq<Change>, path: Seq<char>) -> Option<u32>
    decreases cs.len(),
{
    if cs.len() == 0 {
        None
    } else if cs.last() is Chmod && cs.last()->Chmod_0 == path {
        Some(cs.last()->Chmod_1)
    } else {
        mode_set_by(cs.drop_last(), path)
    }
}

/// The grant target named by a command argument.
#[derive(Clone, Debug, PartialEq, Eq)]
pub enum GrantTarget {
    /// Open to the general users group.
    Public,
    /// Restricted to the owner.
    Private,
    /// Handed to the named service identity.
    Service(String),
}

impl GrantTarget {
    /// "public" and "private" select those targets; any other argument names a
    /// service identity.
    pub fn parse(arg: &str) -> (r: GrantTarget)
        ensures
            arg@ == "public"@ ==> r is Public,
            arg@ == "private"@ ==> r is Private,
            arg@ != "public"@ && arg@ != "private"@ ==> (r is Service && r->Service_0@ == arg@),
    {
        proof {
            reveal_strlit("public");
            reveal_strlit("private");
            assert("public"@.len() != "private"@.len());
        }
        if same_text(arg, "public") {
            GrantTarget::Public
        } else if same_text(arg, "private") {
            GrantTarget::Private
        } else {
            GrantTarget::Service(String::from_str(arg))
        }
    }
}

impl Action {
    /// A failed mode change ends the grant; a failed ownership change is only
    /// reported, and the walk goes on.
    pub fn is_fatal_on_failure(&self) -> (r: bool)
        ensures
            r == (self@ is Chmod),
    {
        match self {
            Action::Chown { .. } => false,
            Action::Chmod { .. } => true,
        }
    }
}

/// Ownership of every entry of a tree (the entries as a walk of it lists them,
/// the top directory included) to `owner` and the group `gid`.
pub fn chown_recursive(entries: &Vec<String>, owner: &Identity, gid: u32) -> (r: Vec<Action>)
    ensures
        changes(r@) == chowns(views(entries@), owner.uid, gid),
{
    let mut out: Vec<Action> = Vec::new();
    let mut i: usize = 0;
    while i < entries.len()
        invariant
            i <= entries.len(),
            changes(out@) == chowns(views(entries@.subrange(0, i as int)), owner.uid, gid),
        decreases entries.len() - i,
    {
        let ghost before = out@;
        out.push(Action::Chown { path: entries[i].clone(), uid: owner.uid, gid });
        proof {
            assert(changes(out@) =~= changes(before).push(out@[i as int]@));
            assert(views(entries@.subrange(0, i + 1)) =~= views(entries@.subrange(0, i as int)).push(
                entries@[i as int]@,
            ));
            assert(changes(out@) =~= chowns(views(entries@.subrange(0, i + 1)), owner.uid, gid));
        }
        i = i + 1;
    }
    assert(entries@.subrange(0, i as int) =~= entries@);
    out
}

/// Hands the tree to `owner` and the general users group and opens its top
/// directory to everyone (mode 0755); modes inside the tree stay as they are.
pub fn make_public(root: &str, entries: &Vec<String>, owner: &Identity) -> (r: Vec<Action>)
    ensures
        changes(r@) == owner_changes(root@, views(entries@), owner.uid, PUBLIC_MODE),
{
    let mut out = chown_recursive(entries, owner, USERS);
    let ghost before = out@;
    out.push(Action::Chmod { path: String::from_str(root), mode: PUBLIC_MODE });
    assert(changes(out@) =~= changes(before).push(Change::Chmod(root@, PUBLIC_MODE)));
    out
}

/// Hands the tree to `owner` and the general users group and restricts its
/// top directory to the owner (mode 0700); modes inside the tree stay as they
/// are.
pub fn make_private(root: &str, entries: &Vec<String>, owner: &Identity) -> (r: Vec<Action>)
    ensures
        changes(r@) == owner_changes(root@, views(entries@), owner.uid, PRIVATE_MODE),
{
    let mut out = chown_recursive(entries, owner, USERS);
    let ghost before = out@;
    out.push(Action::Chmod { path: String::from_str(root), mode: PRIVATE_MODE });
    assert(changes(out@) =~= changes(before).push(Change::Chmod(root@, PRIVATE_MODE)));
    out
}

/// The refusal for a grant target that has no account.
pub open spec fn unknown_user_msg(name: Seq<char>) -> Seq<char> {
    "User "@ + name + " not found."@
}

/// The refusal for a grant target that is not a service identity.
pub open spec fn not_service_msg(name: Seq<char>) -> Seq<char> {
    "`"@ + name + "' is not a service user."@
}

/// Hands the tree to the service identity `touser`, given what the user
/// database holds under that name: it must exist and have the service group
/// as its primary group. Modes are left alone.
pub fn grant(
    entries: &Vec<String>,
    touser: &str,
    found: &Option<Identity>,
) -> (r: Result<Vec<Action>, BoxError>)
    ensures
        found is None ==> (r matches Err(BoxError::GrantUser(m)) && m@ == unknown_user_msg(touser@)),
        found is Some && found->0.primary_gid != SERVICE ==> (r matches Err(BoxError::GrantUser(m))
            && m@ == not_service_msg(touser@)),
        found is Some && found->0.primary_gid == SERVICE ==> r is Ok && changes(r->Ok_0@) == chowns(
            views(entries@),
            found->0.uid,
            SERVICE,
        ),
{
    match found {
        Some(user) => {
            if user.primary_gid == SERVICE {
                Ok(chown_recursive(entries, user, SERVICE))
            } else {
                let mut m = String::from_str("`");
                m.append(touser);
                m.append("' is not a service user.");
                Err(BoxError::GrantUser(m))
            }
        },
        None => {
            let mut m = String::from_str("User ");
            m.append(touser);
            m.append(" not found.");
            Err(BoxError::GrantUser(m))
        },
    }
}

/// The changes for the grant that `target_arg` asks for on the tree at `root`,
/// on behalf of `realuser`. A service identity is looked up in the user
/// database; whatever it holds, a grant to a service hands every entry to
/// the service group and changes no mode.
pub fn dispatch(
    target_arg: &str,
    root: &str,
    entries: &Vec<String>,
    realuser: &Identity,
) -> (r: Result<Vec<Action>, BoxError>)
    ensures
        target_arg@ == "public"@ ==> r is Ok && changes(r->Ok_0@) == owner_changes(
            root@,
            views(entries@),
            realuser.uid,
            PUBLIC_MODE,
        ),
        target_arg@ == "private"@ ==> r is Ok && changes(r->Ok_0@) == owner_changes(
            root@,
            views(entries@),
            realuser.uid,
            PRIVATE_MODE,
        ),
        target_arg@ != "public"@ && target_arg@ != "private"@ ==> {
            &&& r is Ok ==> exists|uid: u32|
                changes(r->Ok_0@) == chowns(views(entries@), uid, SERVICE)
            &&& r is Err ==> r->Err_0 is GrantUser
        },
{
    match GrantTarget::parse(target_arg) {
        GrantTarget::Public => Ok(make_public(root, entries, realuser)),
        GrantTarget::Private => Ok(make_private(root, entries, realuser)),
        GrantTarget::Service(name) => {
            let found = user_by_name(name.as_str());
            grant(entries, name.as_str(), &found)
        },
    }
}

/// Refuses a box whose nearest existing ancestor does not lie under `prefix`
/// (`resolved` as `below_prefix` takes it).
pub fn check_contained(prefix: &str, resolved: &Vec<Option<String>>) -> (r: Result<(), BoxError>)
    ensures
        r is Ok <==> contained(opt_views(resolved@), prefix@),
        r is Err ==> (r matches Err(BoxError::Declined(m)) && m@ == "You can only manage boxes in `"@
            + prefix@ + "'."@),
{
    if below_prefix(resolved, prefix) {
        Ok(())
    } else {
        let mut m = String::from_str("You can only manage boxes in `");
        m.append(prefix);
        m.append("'.");
        Err(BoxError::Declined(m))
    }
}

/// Refuses a box that exists but is not a directory.
pub fn check_directory(canonical: &str, is_dir: bool) -> (r: Result<(), BoxError>)
    ensures
        r is Ok <==> is_dir,
        r is Err ==> (r matches Err(BoxError::Declined(m)) && m@
            == "You can only manage directories. `"@ + canonical@ + "' isn't one."@),
{
    if is_dir {
        Ok(())
    } else {
        let mut m = String::from_str("You can only manage directories. `");
        m.append(canonical);
        m.append("' isn't one.");
        Err(BoxError::Declined(m))
    }
}

} // verus!
