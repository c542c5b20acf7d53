//! Properties that relate the library's functions, proved over their models.

use vstd::prelude::*;
use crate::access::{listed, may_manage, Identity, USERS};
use crate::grant::{chowns, mode_set_by, owner_changes, Change, PRIVATE_MODE, PUBLIC_MODE};
use crate::paths::{contained, first_present_from, under};

verus! {

/// Containment is decided by the nearest candidate that exists: when the
/// first `i` candidates are missing and candidate `i` resolves to `c`, the
/// path is contained exactly when `c` lies under the prefix, whether or not
/// the path itself exists.
pub proof fn nearest_existing_decides(
    resolved: Seq<Option<Seq<char>>>,
    prefix: Seq<char>,
    i: nat,
)
    requires
        i < resolved.len(),
        resolved[i as int] is Some,
        forall|j: int| 0 <= j < i ==> resolved[j] is None,
    ensures
        contained(resolved, prefix) == under(resolved[i as int]->0, prefix),
{
    first_present_reaches(resolved, i, i);
}

proof fn first_present_reaches(resolved: Seq<Option<Seq<char>>>, i: nat, j: nat)
    requires
        j <= i < resolved.len(),
        resolved[i as int] is Some,
        forall|k: int| 0 <= k < i ==> resolved[k] is None,
    ensures
        first_present_from(resolved, 0) == resolved[i as int],
    decreases j,
{
    if j > 0 {
        first_present_reaches(resolved, i, (j - 1) as nat);
    } else {
        first_present_from_skips(resolved, 0, i);
    }
}

proof fn first_present_from_skips(resolved: Seq<Option<Seq<char>>>, from: nat, i: nat)
    requires
        from <= i < resolved.len(),
        resolved[i as int] is Some,
        forall|k: int| from <= k < i ==> resolved[k] is None,
    ensures
        first_present_from(resolved, from) == resolved[i as int],
    decreases i - from,
{
    if from < i {
        first_present_from_skips(resolved, from + 1, i);
    }
}

/// Authorization needs both conditions: with the primary group and the
/// membership it is granted, and without either one it is refused.
pub proof fn authorization_needs_both(me: Identity, auth_members: Option<Seq<String>>)
    ensures
        me.primary_gid == USERS && auth_members is Some && listed(auth_members->0, me.name@)
            ==> may_manage(me, auth_members),
        me.primary_gid != USERS ==> !may_manage(me, auth_members),
        auth_members is None ==> !may_manage(me, auth_members),
        auth_members is Some && !listed(auth_members->0, me.name@) ==> !may_manage(
            me,
            auth_members,
        ),
{
}

/// A grant to a service changes the ownership of every entry of the tree, and
/// changes nothing else.
pub proof fn service_grant_covers_every_entry(entries: Seq<Seq<char>>, uid: u32, gid: u32)
    ensures
        forall|k: int|
            0 <= k < entries.len() ==> #[trigger] chowns(entries, uid, gid).contains(
                Change::Chown(entries[k], uid, gid),
            ),
        forall|c: Change| #[trigger]
            chowns(entries, uid, gid).contains(c) ==> c is Chown && c->Chown_1 == uid && c->Chown_2
                == gid,
        forall|p: Seq<char>| mode_set_by(chowns(entries, uid, gid), p) is None,
{
    let cs = chowns(entries, uid, gid);
    assert forall|k: int| 0 <= k < entries.len() implies #[trigger] cs.contains(
        Change::Chown(entries[k], uid, gid),
    ) by {
        assert(cs[k] == Change::Chown(entries[k], uid, gid));
    }
    assert forall|p: Seq<char>| mode_set_by(cs, p) is None by {
        no_chmod_no_mode(cs, p);
    }
}

/// Changes that hold no mode change on `path` leave its mode alone.
proof fn no_chmod_no_mode(cs: Seq<Change>, path: Seq<char>)
    requires
        forall|k: int| 0 <= k < cs.len() ==> !(cs[k] is Chmod && cs[k]->Chmod_0 == path),
    ensures
        mode_set_by(cs, path) is None,
    decreases cs.len(),
{
    if cs.len() > 0 {
        assert(!(cs[cs.len() - 1] is Chmod && cs[cs.len() - 1]->Chmod_0 == path));
        let rest = cs.drop_last();
        assert forall|k: int| 0 <= k < rest.len() implies !(rest[k] is Chmod && rest[k]->Chmod_0
            == path) by {
            assert(rest[k] == cs[k]);
        }
        no_chmod_no_mode(rest, path);
    }
}

/// Making a tree public and then private leaves its top directory at mode
/// 0700 and sets the mode of no other entry, so the modes of the files
/// inside stay as they were.
pub proof fn public_then_private_modes(root: Seq<char>, entries: Seq<Seq<char>>, uid: u32)
    ensures
        mode_set_by(
            owner_changes(root, entries, uid, PUBLIC_MODE) + owner_changes(
                root,
                entries,
                uid,
                PRIVATE_MODE,
            ),
            root,
        ) == Some(PRIVATE_MODE),
        forall|p: Seq<char>|
            p != root ==> mode_set_by(
                #[trigger] (owner_changes(root, entries, uid, PUBLIC_MODE) + owner_changes(
                    root,
                    entries,
                    uid,
                    PRIVATE_MODE,
                )),
                p,
            ) is None,
{
    let cs = owner_changes(root, entries, uid, PUBLIC_MODE) + owner_changes(
        root,
        entries,
        uid,
        PRIVATE_MODE,
    );
    assert(cs.last() == Change::Chmod(root, PRIVATE_MODE));
    assert forall|p: Seq<char>| p != root implies mode_set_by(cs, p) is None by {
        assert forall|k: int| 0 <= k < cs.len() implies !(cs[k] is Chmod && cs[k]->Chmod_0 == p) by {
            let n = entries.len() as int;
            if k < n + 1 {
                assert(cs[k] == owner_changes(root, entries, uid, PUBLIC_MODE)[k]);
            } else {
                assert(cs[k] == owner_changes(root, entries, uid, PRIVATE_MODE)[k - n - 1]);
            }
        }
        no_chmod_no_mode(cs, p);
    }
}

} // verus!
