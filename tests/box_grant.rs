use std::collections::HashMap;

use fc_box::access::{authorized, prefix_for, BoxError, Identity, SERVICE, USERS};
use fc_box::grant::{
    check_contained, check_directory, chown_recursive, dispatch, grant, make_private,
    make_public, Action, GrantTarget, PRIVATE_MODE, PUBLIC_MODE,
};
use fc_box::paths::{ancestors, below_prefix, contains_separator, expand, join_path, lies_under};

fn johndoe() -> Identity {
    Identity::new(1046, "johndoe", USERS)
}

fn s(x: &str) -> String {
    x.to_string()
}

#[test]
fn test_myprefix() {
    assert_eq!(prefix_for("/tmp", &Some(s("johndoe"))).unwrap(), "/tmp/johndoe");
}

#[test]
fn myprefix_without_user_name() {
    assert_eq!(prefix_for("/tmp", &None), Err(BoxError::NoUserName));
}

#[test]
fn dont_expand_if_slashes() {
    assert_eq!(expand("../johndoe/dir1", "/tmp"), "../johndoe/dir1")
}

#[test]
fn expand_relative() {
    assert_eq!(expand("dir2", "/mnt/box"), "/mnt/box/dir2")
}

#[test]
fn expand_absolute_path_unchanged() {
    assert_eq!(expand("/etc/passwd", "/mnt/box/johndoe"), "/etc/passwd");
    assert_eq!(expand("dir/", "/mnt/box/johndoe"), "dir/");
}

#[test]
fn join_does_not_double_separator() {
    assert_eq!(join_path("/mnt/box/", "x"), "/mnt/box/x");
    assert_eq!(join_path("", "x"), "x");
    assert!(contains_separator("a/b"));
    assert!(!contains_separator("ab"));
}

#[test]
fn authorized_needs_users_and_sudo_srv() {
    assert!(authorized(&johndoe(), &Some(vec![s("johndoe")])))
}

#[test]
fn authorized_fails_without_sudo_srv() {
    assert!(!authorized(&johndoe(), &None))
}

#[test]
fn authorized_fails_wrong_primary_group() {
    let johndoe = Identity::new(1046, "johndoe", USERS + 1);
    assert!(!authorized(&johndoe, &Some(vec![s("johndoe")])))
}

#[test]
fn authorized_fails_when_not_a_member() {
    assert!(!authorized(&johndoe(), &Some(vec![s("dave"), s("johndo")])));
    assert!(authorized(&johndoe(), &Some(vec![s("dave"), s("johndoe")])));
}

#[test]
fn grant_to_service_user() {
    let entries = vec![s("/tmp/fc-box")];
    let found = Some(Identity::new(1736, "s-app", SERVICE));
    assert!(grant(&entries, "s-app", &found).is_ok())
}

#[test]
fn grant_to_nonexistent_users_should_fail() {
    let entries = vec![s("/tmp/fc-box")];
    grant(&entries, "nosuchuser", &None).expect_err("no error result");
}

#[test]
fn grant_to_human_users_should_fail() {
    let entries = vec![s("/tmp/fc-box")];
    let found = Some(Identity::new(1047, "dave", USERS));
    grant(&entries, "dave", &found).expect_err("no error result");
}

#[test]
fn grant_errors_name_the_reason() {
    let entries = vec![s("box")];
    assert_eq!(
        grant(&entries, "nosuchuser", &None),
        Err(BoxError::GrantUser(s("User nosuchuser not found.")))
    );
    let found = Some(Identity::new(1047, "dave", USERS));
    assert_eq!(
        grant(&entries, "dave", &found),
        Err(BoxError::GrantUser(s("`dave' is not a service user.")))
    );
}

#[test]
fn grant_to_service_changes_every_entry() {
    let entries = vec![s("box"), s("box/a"), s("box/a/b")];
    let found = Some(Identity::new(1736, "s-app", SERVICE));
    let acts = grant(&entries, "s-app", &found).unwrap();
    assert_eq!(
        acts,
        vec![
            Action::Chown { path: s("box"), uid: 1736, gid: 900 },
            Action::Chown { path: s("box/a"), uid: 1736, gid: 900 },
            Action::Chown { path: s("box/a/b"), uid: 1736, gid: 900 },
        ]
    );
}

/// Applies the mode changes of `acts` to `modes`; ownership changes are not
/// modelled here.
fn apply_modes(modes: &mut HashMap<String, u32>, acts: &[Action]) {
    for a in acts {
        if let Action::Chmod { path, mode } = a {
            modes.insert(path.clone(), *mode);
        }
    }
}

/// Runs a grant over a box holding one file and checks the resulting modes.
fn modetest(
    dirperm_before: u32,
    dirperm_after: u32,
    fileperm: u32,
    uut: &dyn Fn(&str, &Vec<String>, &Identity) -> Vec<Action>,
) {
    let boxdir = "/tmp/fc-box/box";
    let f = "/tmp/fc-box/box/file";
    let mut modes = HashMap::new();
    modes.insert(s(boxdir), dirperm_before);
    modes.insert(s(f), fileperm);
    let entries = vec![s(boxdir), s(f)];
    let acts = uut(boxdir, &entries, &Identity::new(1046, "johndoe", 100));
    apply_modes(&mut modes, &acts);
    assert_eq!(dirperm_after, modes[boxdir], "dirperm");
    // not changed
    assert_eq!(fileperm, modes[f], "fileperm");
    for e in &entries {
        assert!(acts.contains(&Action::Chown { path: e.clone(), uid: 1046, gid: 100 }));
    }
}

#[test]
fn test_make_private() {
    modetest(0o755, 0o700, 0o644, &make_private);
}

#[test]
fn test_make_public() {
    modetest(0o700, 0o755, 0o600, &make_public);
}

#[test]
fn private_grant_end_to_end_actions() {
    let entries = vec![s("box"), s("box/file")];
    let acts = make_private("box", &entries, &johndoe());
    assert_eq!(
        acts,
        vec![
            Action::Chown { path: s("box"), uid: 1046, gid: 100 },
            Action::Chown { path: s("box/file"), uid: 1046, gid: 100 },
            Action::Chmod { path: s("box"), mode: 0o700 },
        ]
    );
}

#[test]
fn public_then_private_keeps_file_modes() {
    let entries = vec![s("box"), s("box/file")];
    let mut modes = HashMap::new();
    modes.insert(s("box"), 0o750);
    modes.insert(s("box/file"), 0o640);
    apply_modes(&mut modes, &make_public("box", &entries, &johndoe()));
    apply_modes(&mut modes, &make_private("box", &entries, &johndoe()));
    assert_eq!(modes["box"], 0o700);
    assert_eq!(modes["box/file"], 0o640);
}

#[test]
fn chown_recursive_of_empty_walk() {
    assert!(chown_recursive(&vec![], &johndoe(), USERS).is_empty());
}

#[test]
fn mode_constants() {
    assert_eq!(PUBLIC_MODE, 0o755);
    assert_eq!(PRIVATE_MODE, 0o700);
}

#[test]
fn parse_grant_targets() {
    assert_eq!(GrantTarget::parse("public"), GrantTarget::Public);
    assert_eq!(GrantTarget::parse("private"), GrantTarget::Private);
    assert_eq!(GrantTarget::parse("s-app"), GrantTarget::Service(s("s-app")));
    assert_eq!(GrantTarget::parse("Public"), GrantTarget::Service(s("Public")));
}

#[test]
fn dispatch_public_and_private() {
    let entries = vec![s("box")];
    assert_eq!(
        dispatch("public", "box", &entries, &johndoe()).unwrap(),
        vec![
            Action::Chown { path: s("box"), uid: 1046, gid: 100 },
            Action::Chmod { path: s("box"), mode: 0o755 },
        ]
    );
    assert_eq!(
        dispatch("private", "box", &entries, &johndoe()).unwrap(),
        vec![
            Action::Chown { path: s("box"), uid: 1046, gid: 100 },
            Action::Chmod { path: s("box"), mode: 0o700 },
        ]
    );
}

#[test]
fn failure_of_mode_change_is_fatal() {
    assert!(Action::Chmod { path: s("box"), mode: 0o700 }.is_fatal_on_failure());
    assert!(!Action::Chown { path: s("box"), uid: 1, gid: 2 }.is_fatal_on_failure());
}

#[test]
fn ancestors_nearest_first() {
    assert_eq!(
        ancestors("/mnt/box/johndoe/new"),
        vec![s("/mnt/box/johndoe/new"), s("/mnt/box/johndoe"), s("/mnt/box"), s("/mnt")]
    );
    assert_eq!(ancestors("a/b"), vec![s("a/b"), s("a")]);
    assert_eq!(ancestors("/"), Vec::<String>::new());
    assert_eq!(ancestors(""), Vec::<String>::new());
}

#[test]
fn lies_under_respects_component_boundaries() {
    assert!(lies_under("/mnt/box/johndoe/x", "/mnt/box/johndoe"));
    assert!(lies_under("/mnt/box/johndoe", "/mnt/box/johndoe"));
    assert!(!lies_under("/mnt/box/johndoe2", "/mnt/box/johndoe"));
    assert!(!lies_under("/mnt/box", "/mnt/box/johndoe"));
}

#[test]
fn containment_of_missing_box_uses_existing_parent() {
    let resolved = vec![None, Some(s("/mnt/box/johndoe")), Some(s("/mnt/box")), Some(s("/mnt"))];
    assert!(below_prefix(&resolved, "/mnt/box/johndoe"));
}

#[test]
fn containment_refuses_escape() {
    // `..` traversal: the nearest existing ancestor resolves outside
    let dotdot = vec![None, Some(s("/mnt/box/dave"))];
    assert!(!below_prefix(&dotdot, "/mnt/box/johndoe"));
    // symlinked ancestor pointing elsewhere
    let link = vec![Some(s("/etc")), Some(s("/mnt/box/johndoe"))];
    assert!(!below_prefix(&link, "/mnt/box/johndoe"));
    // nothing exists at all
    assert!(!below_prefix(&vec![None, None], "/mnt/box/johndoe"));
    assert!(!below_prefix(&vec![], "/mnt/box/johndoe"));
}

#[test]
fn declined_messages() {
    assert_eq!(
        check_contained("/mnt/box/johndoe", &vec![Some(s("/etc"))]),
        Err(BoxError::Declined(s("You can only manage boxes in `/mnt/box/johndoe'.")))
    );
    assert_eq!(check_contained("/mnt/box/johndoe", &vec![Some(s("/mnt/box/johndoe/x"))]), Ok(()));
    assert_eq!(
        check_directory("/mnt/box/johndoe/f", false),
        Err(BoxError::Declined(s("You can only manage directories. `/mnt/box/johndoe/f' isn't one.")))
    );
    assert_eq!(check_directory("/mnt/box/johndoe/d", true), Ok(()));
}
