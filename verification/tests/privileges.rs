use dmon::ident::parse_request;
use dmon::user::{Group, Privileges, User};

// An explicit group wins over the user's primary group; omitting the group
// falls back to the primary one.  The drop itself needs root, so the second
// half only runs when the test process has it.
#[test]
fn explicit_group_wins_over_primary() {
    let implicit = parse_request("0").resolve().unwrap();
    assert_eq!(implicit.group.gid, implicit.user.gid);

    let explicit = parse_request("0:0").resolve().unwrap();
    assert_eq!(explicit.group.gid, 0);

    if nix::unistd::getuid().as_raw() != 0 {
        return;
    }

    // Some existing group other than root's primary group 0.
    let mut found: Option<Group> = None;
    let mut gid: u32 = 1;
    while gid <= 400 {
        if let Ok(g) = Group::from_gid(gid) {
            found = Some(g);
            break;
        }
        gid += 1;
    }
    let group = match found {
        Some(g) => g,
        None => return,
    };

    let user = User::from_uid(0).unwrap();
    assert_eq!(user.gid, 0);

    let privileges = Privileges { user, group: group.clone() };
    privileges.drop_privileges().unwrap();

    // The process group id is the explicitly requested one, not the
    // target user's primary group id.
    assert_eq!(nix::unistd::getgid().as_raw(), group.gid);
    assert_ne!(nix::unistd::getgid().as_raw(), 0);
    assert_eq!(nix::unistd::getuid().as_raw(), 0);
}
