use dmon::error::SetupError;
use dmon::ident::{parse_identity, parse_request, Identity};
use dmon::user::{
    group_id_lookup_result, group_name_lookup_result, user_id_lookup_result,
    user_name_lookup_result, Group,
};
use dmon::Daemon;
use nix::errno::Errno;

#[test]
fn daemon_user() {
    let daemon = Daemon::new().user(Some(parse_request("root")));
    let privileges = daemon.user.unwrap().resolve().unwrap();

    assert_eq!(0, privileges.user.uid);
    assert_eq!(0, privileges.group.gid);
}

#[test]
fn digits_parse_as_id() {
    // A string of digits denotes the numeric id, not a name, even though a
    // user named "0" could in principle exist.
    assert_eq!(parse_identity("0"), Identity::Id(0));
    assert_eq!(parse_identity("1000"), Identity::Id(1000));
    assert_eq!(parse_identity("4294967295"), Identity::Id(u32::MAX));
}

#[test]
fn plus_sign_parses_as_id() {
    assert_eq!(parse_identity("+42"), Identity::Id(42));
}

#[test]
fn non_numbers_parse_as_names() {
    assert_eq!(parse_identity("root"), Identity::Name("root".to_string()));
    assert_eq!(parse_identity(""), Identity::Name(String::new()));
    assert_eq!(parse_identity("12a"), Identity::Name("12a".to_string()));
    assert_eq!(parse_identity("-1"), Identity::Name("-1".to_string()));
    // One more digit than the largest 32-bit value: falls back to a name.
    assert_eq!(
        parse_identity("4294967296"),
        Identity::Name("4294967296".to_string())
    );
}

#[test]
fn pair_parses_as_its_parts() {
    let pair = parse_request("root:daemon");
    assert_eq!(pair.user, parse_identity("root"));
    assert_eq!(pair.group, Some(parse_identity("daemon")));

    let numeric = parse_request("0:2");
    assert_eq!(numeric.user, Identity::Id(0));
    assert_eq!(numeric.group, Some(Identity::Id(2)));
}

#[test]
fn lone_user_requests_no_group() {
    let single = parse_request("root");
    assert_eq!(single.user, Identity::Name("root".to_string()));
    assert_eq!(single.group, None);
}

#[test]
fn group_half_may_hold_colons() {
    // Only the first colon splits; the rest belongs to the group.
    let pair = parse_request("a:b:c");
    assert_eq!(pair.user, Identity::Name("a".to_string()));
    assert_eq!(pair.group, Some(Identity::Name("b:c".to_string())));
}

#[test]
fn resolution_by_id_and_by_name_agree() {
    let by_name = parse_request("root").resolve().unwrap();
    let by_id = parse_request("0").resolve().unwrap();

    assert_eq!(by_name.user.uid, by_id.user.uid);
    assert_eq!(by_name.user.name, "root");
    assert_eq!(by_id.user.name, "root");
}

#[test]
fn omitted_group_falls_back_to_primary() {
    // Without an explicit group the resolved group is the user's primary one.
    let privileges = parse_request("0").resolve().unwrap();
    assert_eq!(privileges.group.gid, privileges.user.gid);
}

#[test]
fn explicit_group_overrides_primary() {
    let privileges = parse_request("root:root").resolve().unwrap();
    assert_eq!(privileges.user.uid, 0);
    assert_eq!(privileges.group.name, "root");
}

#[test]
fn unknown_user_name_is_reported() {
    let err = parse_request("no_such_user_zzz").resolve().unwrap_err();
    assert_eq!(err.message(), "user 'no_such_user_zzz' does not exist");
}

#[test]
fn unknown_user_id_is_reported() {
    let err = parse_request("123456789").resolve().unwrap_err();
    assert_eq!(err.message(), "user with ID (123456789) does not exist");
}

#[test]
fn unknown_group_is_reported() {
    let err = parse_request("root:no_such_group_zzz").resolve().unwrap_err();
    assert_eq!(err.message(), "group 'no_such_group_zzz' does not exist");
}

#[test]
fn env_vars_carry_the_record() {
    let privileges = parse_request("root").resolve().unwrap();
    let vars = privileges.env_vars();

    assert_eq!(vars.len(), 3);
    assert_eq!(vars[0].key, "USER");
    assert_eq!(vars[0].value, "root");
    assert_eq!(vars[1].key, "HOME");
    assert_eq!(vars[1].value, privileges.user.home);
    assert_eq!(vars[2].key, "SHELL");
    assert_eq!(vars[2].value, privileges.user.shell);
}

#[test]
fn lookup_outcomes_keep_their_kind() {
    // An absent record and a failed lookup map to different errors, each
    // naming the requested identity.
    assert_eq!(
        user_id_lookup_result(5, Ok(None)),
        Err(SetupError::UserIdMissing { uid: 5 })
    );
    assert_eq!(
        user_id_lookup_result(5, Err(Errno::EIO)),
        Err(SetupError::UserIdLookup {
            uid: 5,
            detail: "I/O error".to_string(),
        })
    );
    assert_eq!(
        user_name_lookup_result("svc", Ok(None)),
        Err(SetupError::UserNameMissing {
            name: "svc".to_string(),
        })
    );
    assert_eq!(
        user_name_lookup_result("svc", Err(Errno::EACCES)),
        Err(SetupError::UserNameLookup {
            name: "svc".to_string(),
            detail: "Permission denied".to_string(),
        })
    );
    assert_eq!(
        group_id_lookup_result(7, Ok(None)),
        Err(SetupError::GroupIdMissing { gid: 7 })
    );
    assert_eq!(
        group_id_lookup_result(7, Err(Errno::EIO)),
        Err(SetupError::GroupIdLookup {
            gid: 7,
            detail: "I/O error".to_string(),
        })
    );
    assert_eq!(
        group_name_lookup_result("wheel", Ok(None)),
        Err(SetupError::GroupNameMissing {
            name: "wheel".to_string(),
        })
    );
    assert_eq!(
        group_name_lookup_result("wheel", Err(Errno::EACCES)),
        Err(SetupError::GroupNameLookup {
            name: "wheel".to_string(),
            detail: "Permission denied".to_string(),
        })
    );

    // A found record is handed through unchanged.
    let found = Group {
        name: "wheel".to_string(),
        gid: 7,
    };
    assert_eq!(
        group_name_lookup_result("wheel", Ok(Some(found.clone()))),
        Ok(found)
    );
}

#[test]
fn display_forms() {
    let same = parse_request("root:root").resolve().unwrap();
    assert_eq!(same.user.display_name(), "root");
    assert_eq!(same.group.display_name(), "root");
    assert_eq!(same.display_name(), "root");

    let root = dmon::user::User::from_uid(0).unwrap();
    let other = dmon::user::Group {
        name: "postdrop".to_string(),
        gid: 90,
    };
    let mixed = dmon::user::Privileges {
        user: root,
        group: other,
    };
    assert_eq!(mixed.display_name(), "root:postdrop");
}

#[test]
fn lookup_returns_the_real_record() {
    let root = dmon::user::User::from_uid(0).unwrap();
    assert_eq!(root.name, "root");
    assert_eq!(root.uid, 0);

    let group = dmon::user::Group::from_gid(0).unwrap();
    assert_eq!(group.name, "root");

    let by_name = dmon::user::User::from_name("root").unwrap();
    assert_eq!(by_name.uid, 0);

    let group_by_name = dmon::user::Group::from_name("root").unwrap();
    assert_eq!(group_by_name.gid, 0);
}
