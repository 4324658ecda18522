use libsystemd::sysusers::{
    validate_name_strict, AddRange, AddUserToGroup, CreateGroup, CreateUserAndGroup, GidOrPath,
    IdOrPath, SysusersEntry,
};
use std::path::PathBuf;

#[test]
fn test_validate_name_strict() {
    let err_cases = vec!["-foo", "10bar", "42"];
    for entry in err_cases {
        validate_name_strict(entry).unwrap_err();
    }

    let ok_cases = vec!["_authd", "httpd"];
    for entry in ok_cases {
        validate_name_strict(entry).unwrap();
    }
}

#[test]
fn name_errors_say_what_is_wrong() {
    assert_eq!(validate_name_strict("").unwrap_err().msg(), "empty name");
    assert_eq!(
        validate_name_strict(&"a".repeat(32)).unwrap_err().msg(),
        format!("overlong sysusers name '{}' (more than 31 characters)", "a".repeat(32))
    );
    assert_eq!(
        validate_name_strict("-foo").unwrap_err().msg(),
        "invalid starting character '-' in sysusers name '-foo'"
    );
    assert_eq!(
        validate_name_strict("10bar").unwrap_err().msg(),
        "invalid starting character '1' in sysusers name '10bar'"
    );
    assert_eq!(
        validate_name_strict("foo bar").unwrap_err().msg(),
        "invalid character ' ' in sysusers name 'foo bar'"
    );
    assert_eq!(
        validate_name_strict("a.b!c").unwrap_err().msg(),
        "invalid character '.' in sysusers name 'a.b!c'"
    );
    assert_eq!(
        validate_name_strict("öl").unwrap_err().msg(),
        "invalid starting character 'ö' in sysusers name 'öl'"
    );
}

#[test]
fn name_length_is_counted_in_bytes() {
    validate_name_strict(&"a".repeat(31)).unwrap();
    let name = format!("a{}", "ö".repeat(16));
    assert_eq!(name.chars().count(), 17);
    assert_eq!(
        validate_name_strict(&name).unwrap_err().msg(),
        format!("overlong sysusers name '{}' (more than 31 characters)", name)
    );
    let name = format!("a{}", "ö".repeat(15));
    assert_eq!(
        validate_name_strict(&name).unwrap_err().msg(),
        format!("invalid character 'ö' in sysusers name '{}'", name)
    );
}

#[test]
fn names_may_hold_letters_digits_underscore_and_dash() {
    for name in ["a", "Z", "_", "a-b", "a_b", "a1", "A-Z_0-9", "__", "x-"] {
        validate_name_strict(name).unwrap();
    }
    for name in ["-", "1", "a b", "a:b", "a/b", "a\n", "a@b"] {
        validate_name_strict(name).unwrap_err();
    }
}

#[test]
fn add_range_holds_its_bounds() {
    let range = AddRange::new(10, 20).unwrap();
    assert_eq!(range.from(), 10);
    assert_eq!(range.to(), 20);
    let range = AddRange::new(20, 10).unwrap();
    assert_eq!((range.from(), range.to()), (20, 10));
    assert_eq!(SysusersEntry::AddRange(range.clone()), SysusersEntry::AddRange(range));
}

#[test]
fn add_user_to_group_validates_both_names() {
    let entry = AddUserToGroup::new("alice".to_string(), "wheel".to_string()).unwrap();
    assert_eq!(entry.username(), "alice");
    assert_eq!(entry.groupname(), "wheel");
    assert_eq!(
        AddUserToGroup::new("".to_string(), "wheel".to_string()).unwrap_err().msg(),
        "empty name"
    );
    assert_eq!(
        AddUserToGroup::new("alice".to_string(), "9".to_string()).unwrap_err().msg(),
        "invalid starting character '9' in sysusers name '9'"
    );
    assert_eq!(
        AddUserToGroup::new("-a".to_string(), "9".to_string()).unwrap_err().msg(),
        "invalid starting character '-' in sysusers name '-a'"
    );
}

#[test]
fn create_group_keeps_its_id() {
    let group = CreateGroup::new("wheel".to_string()).unwrap();
    assert_eq!(group.groupname(), "wheel");
    assert_eq!(group.gid(), &GidOrPath::Automatic);
    let group = CreateGroup::new_with_gid("wheel".to_string(), 10).unwrap();
    assert_eq!(group.gid(), &GidOrPath::Gid(10));
    let group = CreateGroup::new_with_path("wheel".to_string(), PathBuf::from("/bin/w")).unwrap();
    assert_eq!(group.gid(), &GidOrPath::Path(PathBuf::from("/bin/w")));
    assert_eq!(group.clone(), group);
    assert_eq!(group.clone().gid(), &GidOrPath::Path(PathBuf::from("/bin/w")));
    let group = CreateGroup::impl_new("wheel".to_string(), GidOrPath::Gid(7)).unwrap();
    assert_eq!(group.gid(), &GidOrPath::Gid(7));
    assert_eq!(CreateGroup::new("".to_string()).unwrap_err().msg(), "empty name");
    assert_eq!(CreateGroup::new_with_gid("".to_string(), 1).unwrap_err().msg(), "empty name");
    assert_eq!(
        CreateGroup::new_with_path("".to_string(), PathBuf::new()).unwrap_err().msg(),
        "empty name"
    );
}

#[test]
fn create_user_keeps_its_fields() {
    let home = Some(PathBuf::from("/var/lib/httpd"));
    let shell = Some(PathBuf::from("/sbin/nologin"));
    let user =
        CreateUserAndGroup::new("httpd".into(), "web server".into(), home.clone(), shell.clone())
            .unwrap();
    assert_eq!(user.name(), "httpd");
    assert_eq!(user.gecos(), "web server");
    assert_eq!(user.home_dir(), &home);
    assert_eq!(user.shell(), &shell);
    assert_eq!(user.id(), &IdOrPath::Automatic);

    let user = CreateUserAndGroup::new_with_id("httpd".into(), 80, "".into(), None, None).unwrap();
    assert_eq!(user.id(), &IdOrPath::Id(80));
    assert_eq!(user.home_dir(), &None);
    assert_eq!(user.shell(), &None);

    let user =
        CreateUserAndGroup::new_with_uid_gid("httpd".into(), 80, 81, "".into(), None, None)
            .unwrap();
    assert_eq!(user.id(), &IdOrPath::UidGid(80, 81));

    let user = CreateUserAndGroup::new_with_uid_groupname(
        "httpd".into(),
        80,
        "www".into(),
        "".into(),
        None,
        None,
    )
    .unwrap();
    assert_eq!(user.id(), &IdOrPath::UidGroupname(80, "www".to_string()));

    let user = CreateUserAndGroup::new_with_path(
        "httpd".into(),
        PathBuf::from("/usr/bin/httpd"),
        "".into(),
        None,
        None,
    )
    .unwrap();
    assert_eq!(user.id(), &IdOrPath::Path(PathBuf::from("/usr/bin/httpd")));

    let user =
        CreateUserAndGroup::impl_new("httpd".into(), "".into(), None, None, IdOrPath::Id(1))
            .unwrap();
    assert_eq!(user.id(), &IdOrPath::Id(1));
}

#[test]
fn create_user_validates_names() {
    assert_eq!(
        CreateUserAndGroup::new("".into(), "".into(), None, None).unwrap_err().msg(),
        "empty name"
    );
    assert_eq!(
        CreateUserAndGroup::new_with_id("a b".into(), 1, "".into(), None, None)
            .unwrap_err()
            .msg(),
        "invalid character ' ' in sysusers name 'a b'"
    );
    assert_eq!(
        CreateUserAndGroup::new_with_uid_groupname(
            "1a".into(),
            1,
            "2b".into(),
            "".into(),
            None,
            None
        )
        .unwrap_err()
        .msg(),
        "invalid starting character '2' in sysusers name '2b'"
    );
    assert_eq!(
        CreateUserAndGroup::new_with_uid_groupname(
            "1a".into(),
            1,
            "b".into(),
            "".into(),
            None,
            None
        )
        .unwrap_err()
        .msg(),
        "invalid starting character '1' in sysusers name '1a'"
    );
}

#[test]
fn group_id_from_text() {
    assert_eq!(GidOrPath::try_from("-").unwrap(), GidOrPath::Automatic);
    assert_eq!(GidOrPath::try_from("/bin/x").unwrap(), GidOrPath::Path(PathBuf::from("/bin/x")));
    assert_eq!(GidOrPath::try_from("/").unwrap(), GidOrPath::Path(PathBuf::from("/")));
    assert_eq!(GidOrPath::try_from("0").unwrap(), GidOrPath::Gid(0));
    assert_eq!(GidOrPath::try_from("4294967295").unwrap(), GidOrPath::Gid(u32::MAX));
    assert_eq!(GidOrPath::try_from("+5").unwrap(), GidOrPath::Gid(5));
    for text in ["", "4294967296", "-1", "wheel", "1:2", "--", " -"] {
        assert_eq!(
            GidOrPath::try_from(text).unwrap_err().msg(),
            format!("unexpected group ID '{}'", text)
        );
    }
}

#[test]
fn user_id_from_text() {
    assert_eq!(IdOrPath::try_from("-").unwrap(), IdOrPath::Automatic);
    assert_eq!(IdOrPath::try_from("/bin/x").unwrap(), IdOrPath::Path(PathBuf::from("/bin/x")));
    assert_eq!(IdOrPath::try_from("17").unwrap(), IdOrPath::Id(17));
    assert_eq!(IdOrPath::try_from("17:18").unwrap(), IdOrPath::UidGid(17, 18));
    assert_eq!(IdOrPath::try_from("17::18").unwrap(), IdOrPath::UidGid(17, 18));
    assert_eq!(IdOrPath::try_from(":17:18:").unwrap(), IdOrPath::UidGid(17, 18));
    assert_eq!(
        IdOrPath::try_from("17:wheel").unwrap(),
        IdOrPath::UidGroupname(17, "wheel".to_string())
    );
}

#[test]
fn user_id_errors() {
    assert_eq!(IdOrPath::try_from("x:18").unwrap_err().msg(), "invalid user id");
    assert_eq!(IdOrPath::try_from("4294967296:18").unwrap_err().msg(), "invalid user id");
    assert_eq!(
        IdOrPath::try_from("17:-w").unwrap_err().msg(),
        "invalid starting character '-' in sysusers name '-w'"
    );
    assert_eq!(
        IdOrPath::try_from("17:4294967296").unwrap_err().msg(),
        "invalid starting character '4' in sysusers name '4294967296'"
    );
    for text in ["", "x", "17:", ":17", "1:2:3", ":", "::"] {
        assert_eq!(
            IdOrPath::try_from(text).unwrap_err().msg(),
            format!("unexpected user ID '{}'", text)
        );
    }
}
