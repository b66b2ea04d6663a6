use std::time::Duration;

use ambient_fd::decimal::{parse_usize, push_decimal, push_signed_decimal};
use ambient_fd::fd_store::{remove_fd_states, socket_remove_fd, store_fd_socket, store_fd_states, StoreFd};
use ambient_fd::notify;
use ambient_fd::SocketAccess;

#[test]
fn fixed_messages() {
    assert_eq!(notify::ready(), "READY=1");
    assert_eq!(notify::reloading(), "RELOADING=1");
    assert_eq!(notify::stopping(), "STOPPING=1");
    assert_eq!(notify::main_pidfd(), "MAINPIDFD=1");
    assert_eq!(notify::watchdog_update(), "WATCHDOG=1");
    assert_eq!(notify::watchdog_trigger(), "WATCHDOG=trigger");
    assert_eq!(notify::restart_reset(), "RESTART_RESET=1");
    assert_eq!(notify::barrier(), "BARRIER=1");
    assert_eq!(notify::fd_store(), "FDSTORE=1");
    assert_eq!(notify::fd_store_remove(), "FDSTOREREMOVE=1");
}

#[test]
fn text_messages() {
    assert_eq!(notify::status("Serving 3 clients"), "STATUS=Serving 3 clients");
    assert_eq!(notify::status(""), "STATUS=");
    assert_eq!(notify::bus_error("org.freedesktop.DBus.Error.TimedOut"), "BUSERROR=org.freedesktop.DBus.Error.TimedOut");
    assert_eq!(notify::varlink_error("io.systemd.Failed"), "VARLINKERROR=io.systemd.Failed");
    assert_eq!(notify::exit_status("3"), "EXIT_STATUS=3");
    assert_eq!(notify::fd_name("database"), "FDNAME=database");
}

#[test]
fn number_messages() {
    assert_eq!(notify::monotonic_usec(0), "MONOTONIC_USEC=0");
    assert_eq!(notify::monotonic_usec(1234567), "MONOTONIC_USEC=1234567");
    assert_eq!(
        notify::monotonic_usec(u128::MAX),
        format!("MONOTONIC_USEC={}", u128::MAX)
    );
    assert_eq!(notify::mainpid(4242), "MAINPID=4242");
    assert_eq!(notify::mainpid(u32::MAX), "MAINPID=4294967295");
    assert_eq!(notify::errno(0), "ERRNO=0");
    assert_eq!(notify::errno(13), "ERRNO=13");
    assert_eq!(notify::errno(-2), "ERRNO=-2");
    assert_eq!(notify::errno(i32::MIN), "ERRNO=-2147483648");
    assert_eq!(notify::errno(i32::MAX), "ERRNO=2147483647");
}

#[test]
fn timeout_messages() {
    assert_eq!(
        notify::watchdog_timeout(Duration::from_millis(1500)),
        "WATCHDOG_USEC=1500000"
    );
    assert_eq!(
        notify::watchdog_timeout(Duration::from_nanos(2999)),
        "WATCHDOG_USEC=2"
    );
    assert_eq!(notify::watchdog_timeout_micros(10), "WATCHDOG_USEC=10");
    assert_eq!(
        notify::extend_timeout(Duration::from_secs(90)),
        "EXTEND_TIMEOUT_USEC=90000000"
    );
    assert_eq!(notify::extend_timeout_micros(5), "EXTEND_TIMEOUT_USEC=5");
}

#[test]
fn access_messages_are_distinct() {
    let all = [
        SocketAccess::NoAccess,
        SocketAccess::Main,
        SocketAccess::Exec,
        SocketAccess::All,
    ];
    let texts: Vec<&str> = all.iter().map(|a| notify::notify_access(*a)).collect();
    assert_eq!(
        texts,
        vec![
            "NOTIFYACCESS=none",
            "NOTIFYACCESS=main",
            "NOTIFYACCESS=exec",
            "NOTIFYACCESS=all"
        ]
    );
    for i in 0..texts.len() {
        for j in 0..texts.len() {
            assert_eq!(i == j, texts[i] == texts[j]);
        }
    }
}

#[test]
fn mainpid_value_reads_back() {
    for pid in [0u32, 1, 9, 10, 4242, u32::MAX] {
        let msg = notify::mainpid(pid);
        let value = msg.strip_prefix("MAINPID=").unwrap();
        assert_eq!(parse_usize(value), Ok(pid as usize));
    }
}

#[test]
fn decimal_writers_append() {
    let mut s = String::from("n=");
    push_decimal(&mut s, 907);
    assert_eq!(s, "n=907");
    let mut s = String::new();
    push_signed_decimal(&mut s, -70);
    assert_eq!(s, "-70");
}

#[test]
fn datagram_holds_one_message_per_line() {
    let lines = vec![notify::fd_name("db"), notify::fd_store_remove().to_string()];
    assert_eq!(notify::notify_datagram(&lines), "FDNAME=db\nFDSTOREREMOVE=1");
    assert_eq!(notify::notify_datagram(&vec!["READY=1".to_string()]), "READY=1");
    assert_eq!(notify::notify_datagram(&vec![]), "");
}

#[test]
fn store_messages_carry_the_descriptor() {
    let (lines, fd) = store_fd_socket(StoreFd::new(11, "database"));
    assert_eq!(lines, vec!["FDSTORE=1".to_string(), "FDNAME=database".to_string()]);
    assert_eq!(fd, 11);
}

#[test]
fn remove_addresses_the_stored_name() {
    let remove = socket_remove_fd("database");
    assert_eq!(remove, vec!["FDNAME=database".to_string(), "FDSTOREREMOVE=1".to_string()]);
    let (store, _) = store_fd_socket(StoreFd::new((), "database"));
    assert_eq!(remove[0], store[1]);
    let (other, _) = store_fd_socket(StoreFd::new((), "cache"));
    assert_ne!(remove[0], other[1]);
}

#[test]
fn store_fd_parts() {
    let (fd, name) = StoreFd::new(5u8, "x").into_parts();
    assert_eq!(fd, 5);
    assert_eq!(name, "x");
}

#[test]
fn u128_values_read_back() {
    for n in [0u128, 7, 10, 1_000_000, u64::MAX as u128 + 1, u128::MAX] {
        let msg = notify::monotonic_usec(n);
        let value = msg.strip_prefix("MONOTONIC_USEC=").unwrap();
        assert_eq!(value.parse::<u128>(), Ok(n));
        assert!(n == 0 || !value.starts_with('0'));
        let msg = notify::watchdog_timeout_micros(n);
        assert_eq!(msg.strip_prefix("WATCHDOG_USEC=").unwrap().parse::<u128>(), Ok(n));
        let msg = notify::extend_timeout_micros(n);
        assert_eq!(msg.strip_prefix("EXTEND_TIMEOUT_USEC=").unwrap().parse::<u128>(), Ok(n));
    }
}

#[test]
fn reloading_carries_the_timestamp() {
    assert_eq!(
        notify::reloading_messages(123),
        vec!["RELOADING=1".to_string(), "MONOTONIC_USEC=123".to_string()]
    );
}

#[test]
fn libsystemd_pairs_send_the_socket_assignments() {
    let store = store_fd_states("db");
    assert_eq!(
        store,
        vec![
            ("FDSTORE".to_string(), "1".to_string()),
            ("FDNAME".to_string(), "db".to_string())
        ]
    );
    let joined: Vec<String> = store.iter().map(|(k, v)| format!("{k}={v}")).collect();
    assert_eq!(joined, store_fd_socket(StoreFd::new((), "db")).0);
    let remove = remove_fd_states("db");
    assert_eq!(
        remove,
        vec![
            ("FDSTOREREMOVE".to_string(), "1".to_string()),
            ("FDNAME".to_string(), "db".to_string())
        ]
    );
    let mut joined: Vec<String> = remove.iter().map(|(k, v)| format!("{k}={v}")).collect();
    let mut socket = socket_remove_fd("db");
    joined.sort();
    socket.sort();
    assert_eq!(joined, socket);
}
