use libsystemd::daemon::{
    check_sent, invalid_address, notify_address, notify_message, plan_notify, watchdog_enabled,
    NotifyAddress, NotifyState,
};

#[test]
fn notify_state_lines() {
    let cases = vec![
        (NotifyState::Buserror("org.freedesktop.DBus.Error.TimedOut".to_string()),
         "BUSERROR=org.freedesktop.DBus.Error.TimedOut"),
        (NotifyState::Errno(2), "ERRNO=2"),
        (NotifyState::Errno(0), "ERRNO=0"),
        (NotifyState::Errno(255), "ERRNO=255"),
        (NotifyState::Fdname("name".to_string()), "FDNAME=name"),
        (NotifyState::Fdstore, "FDSTORE=1"),
        (NotifyState::FdstoreRemove, "FDSTOREREMOVE=1"),
        (NotifyState::FdpollDisable, "FDPOLL=0"),
        (NotifyState::Mainpid(1234), "MAINPID=1234"),
        (NotifyState::Mainpid(0), "MAINPID=0"),
        (NotifyState::Mainpid(-7), "MAINPID=-7"),
        (NotifyState::Mainpid(i32::MAX), "MAINPID=2147483647"),
        (NotifyState::Mainpid(i32::MIN), "MAINPID=-2147483648"),
        (NotifyState::Other("KEY=VALUE".to_string()), "KEY=VALUE"),
        (NotifyState::Ready, "READY=1"),
        (NotifyState::Reloading, "RELOADING=1"),
        (NotifyState::Status("all fine".to_string()), "STATUS=all fine"),
        (NotifyState::Stopping, "STOPPING=1"),
        (NotifyState::Watchdog, "WATCHDOG=1"),
        (NotifyState::WatchdogUsec(0), "WATCHDOG_USEC=0"),
        (NotifyState::WatchdogUsec(20_000_000), "WATCHDOG_USEC=20000000"),
        (NotifyState::WatchdogUsec(u64::MAX), "WATCHDOG_USEC=18446744073709551615"),
    ];
    for (state, line) in cases {
        assert_eq!(state.to_string(), line);
    }
}

#[test]
fn notify_message_has_one_line_for_each_state() {
    assert_eq!(notify_message(&[]), b"");
    assert_eq!(notify_message(&[NotifyState::Ready]), b"READY=1\n");
    assert_eq!(
        notify_message(&[
            NotifyState::Ready,
            NotifyState::Status("up".to_string()),
            NotifyState::Mainpid(12),
        ]),
        b"READY=1\nSTATUS=up\nMAINPID=12\n"
    );
    assert_eq!(
        notify_message(&[NotifyState::Status("größer".to_string())]),
        "STATUS=größer\n".as_bytes()
    );
}

#[test]
fn notify_address_is_abstract_after_an_at() {
    assert_eq!(notify_address("@notify"), NotifyAddress::Abstract(b"notify".to_vec()));
    assert_eq!(notify_address("@"), NotifyAddress::Abstract(vec![]));
    assert_eq!(notify_address("@@x"), NotifyAddress::Abstract(b"@x".to_vec()));
    assert_eq!(notify_address("@ä"), NotifyAddress::Abstract("ä".as_bytes().to_vec()));
    assert_eq!(
        notify_address("/run/systemd/notify"),
        NotifyAddress::Path("/run/systemd/notify".to_string())
    );
    assert_eq!(notify_address(""), NotifyAddress::Path(String::new()));
    assert_eq!(notify_address("a@b"), NotifyAddress::Path("a@b".to_string()));
}

#[test]
fn invalid_address_names_the_kind() {
    assert_eq!(
        invalid_address("@name", "ENAMETOOLONG: File name too long").msg(),
        "invalid Unix socket abstract address @name: ENAMETOOLONG: File name too long"
    );
    assert_eq!(
        invalid_address("/path", "EINVAL: Invalid argument").msg(),
        "invalid Unix socket path address /path: EINVAL: Invalid argument"
    );
    assert_eq!(invalid_address("", "x").msg(), "invalid Unix socket path address : x");
}

#[test]
fn invalid_address_takes_the_words_of_nix() {
    let long = "x".repeat(200);
    let reason = nix::sys::socket::UnixAddr::new(long.as_str()).unwrap_err().to_string();
    assert_eq!(
        invalid_address(&long, &reason).msg(),
        format!("invalid Unix socket path address {}: {}", long, reason)
    );
}

#[test]
fn sent_length_is_checked() {
    assert_eq!(check_sent(8, 8).unwrap(), true);
    assert_eq!(check_sent(0, 0).unwrap(), true);
    assert_eq!(
        check_sent(5, 8).unwrap_err().msg(),
        "incomplete notify sendmsg, sent 5 out of 8"
    );
    assert_eq!(
        check_sent(0, 12345).unwrap_err().msg(),
        "incomplete notify sendmsg, sent 0 out of 12345"
    );
    assert_eq!(
        check_sent(9, 8).unwrap_err().msg(),
        "incomplete notify sendmsg, sent 9 out of 8"
    );
}

#[test]
fn nothing_is_planned_without_a_socket() {
    assert_eq!(plan_notify(None, &[NotifyState::Ready], 0), None);
    assert_eq!(plan_notify(None, &[], 3), None);
}

#[test]
fn plan_holds_address_message_and_fds() {
    let plan = plan_notify(Some("/run/notify"), &[NotifyState::Ready], 0).unwrap();
    assert_eq!(plan.address, NotifyAddress::Path("/run/notify".to_string()));
    assert_eq!(plan.message, b"READY=1\n");
    assert!(!plan.with_fds);
    let plan =
        plan_notify(Some("@abc"), &[NotifyState::Fdstore, NotifyState::Fdname("a".into())], 2)
            .unwrap();
    assert_eq!(plan.address, NotifyAddress::Abstract(b"abc".to_vec()));
    assert_eq!(plan.message, b"FDSTORE=1\nFDNAME=a\n");
    assert!(plan.with_fds);
}

#[test]
fn watchdog_is_off_without_a_timeout() {
    assert_eq!(watchdog_enabled(None, None, 1), None);
    assert_eq!(watchdog_enabled(None, Some("1"), 1), None);
    assert_eq!(watchdog_enabled(Some(""), None, 1), None);
    assert_eq!(watchdog_enabled(Some("soon"), None, 1), None);
    assert_eq!(watchdog_enabled(Some("-5"), None, 1), None);
    assert_eq!(watchdog_enabled(Some("18446744073709551616"), None, 1), None);
}

#[test]
fn watchdog_enabled_is_in_milliseconds() {
    assert_eq!(watchdog_enabled(Some("5000000"), None, 1), Some(5000));
    assert_eq!(watchdog_enabled(Some("999"), None, 1), Some(0));
    assert_eq!(watchdog_enabled(Some("1000"), None, 1), Some(1));
    assert_eq!(watchdog_enabled(Some("1999"), None, 1), Some(1));
    assert_eq!(watchdog_enabled(Some("0"), None, 1), Some(0));
    assert_eq!(
        watchdog_enabled(Some("18446744073709551615"), None, 1),
        Some(18446744073709551)
    );
}

#[test]
fn watchdog_is_for_the_named_process() {
    assert_eq!(watchdog_enabled(Some("5000"), Some("77"), 77), Some(5));
    assert_eq!(watchdog_enabled(Some("5000"), Some("+77"), 77), Some(5));
    assert_eq!(watchdog_enabled(Some("5000"), Some("78"), 77), None);
    assert_eq!(watchdog_enabled(Some("5000"), Some(""), 77), None);
    assert_eq!(watchdog_enabled(Some("5000"), Some("pid"), 77), None);
    assert_eq!(watchdog_enabled(Some("5000"), Some("2147483648"), 77), None);
    assert_eq!(watchdog_enabled(Some("5000"), Some("-2"), -2), Some(5));
    assert_eq!(watchdog_enabled(Some("5000"), Some("-2147483648"), i32::MIN), Some(5));
    assert_eq!(watchdog_enabled(Some("5000"), Some("-2147483649"), i32::MIN), None);
    assert_eq!(watchdog_enabled(Some("x"), Some("77"), 77), None);
}
