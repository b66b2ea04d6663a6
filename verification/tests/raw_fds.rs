use ambient_fd::decimal::parse_usize;
use ambient_fd::raw::raw_fd_numbers_fit;
use ambient_fd::{get_raw_ambient_fds, EnvValue, EnvVarError, EnvVarErrorKind, IntErrorKind};

fn expect_error(r: Result<Vec<ambient_fd::RawAmbientFd>, EnvVarError>) -> EnvVarError {
    match r {
        Ok(fds) => panic!("expected an error, got {} descriptors", fds.len()),
        Err(e) => e,
    }
}

fn present(s: &str) -> EnvValue {
    EnvValue::Present(s.to_string())
}

#[test]
fn parse_usize_reads_plain_digits() {
    assert_eq!(parse_usize("0"), Ok(0));
    assert_eq!(parse_usize("12"), Ok(12));
    assert_eq!(parse_usize("007"), Ok(7));
    assert_eq!(parse_usize("+7"), Ok(7));
}

#[test]
fn parse_usize_reports_each_error() {
    assert_eq!(parse_usize(""), Err(IntErrorKind::Empty));
    assert_eq!(parse_usize("+"), Err(IntErrorKind::InvalidDigit));
    assert_eq!(parse_usize("-"), Err(IntErrorKind::InvalidDigit));
    assert_eq!(parse_usize("-5"), Err(IntErrorKind::InvalidDigit));
    assert_eq!(parse_usize("1x"), Err(IntErrorKind::InvalidDigit));
    assert_eq!(parse_usize(" 1"), Err(IntErrorKind::InvalidDigit));
    assert_eq!(parse_usize("1٣"), Err(IntErrorKind::InvalidDigit));
    assert_eq!(
        parse_usize("999999999999999999999999999999"),
        Err(IntErrorKind::PosOverflow)
    );
    // The first failure met from the left wins.
    assert_eq!(
        parse_usize("999999999999999999999999999999x"),
        Err(IntErrorKind::PosOverflow)
    );
}

#[test]
fn parse_usize_agrees_with_std() {
    let max = usize::MAX.to_string();
    let over = format!("{}0", max);
    for text in [
        "", "+", "-", "0", "+0", "42", "+42", "-42", "4 2", "x", "++1", &max, &over,
    ] {
        let ours = parse_usize(text);
        let theirs = text.parse::<usize>();
        match (ours, theirs) {
            (Ok(a), Ok(b)) => assert_eq!(a, b),
            (Err(a), Err(b)) => {
                let expected = match b.kind() {
                    std::num::IntErrorKind::Empty => IntErrorKind::Empty,
                    std::num::IntErrorKind::InvalidDigit => IntErrorKind::InvalidDigit,
                    std::num::IntErrorKind::PosOverflow => IntErrorKind::PosOverflow,
                    other => panic!("unexpected kind {other:?}"),
                };
                assert_eq!(a, expected, "for {text:?}");
            }
            (a, b) => panic!("for {text:?}: {a:?} against {b:?}"),
        }
    }
}

#[test]
fn raw_fds_are_numbered_from_four_and_named_in_order() {
    let fds = get_raw_ambient_fds(present("3"), present("config:database:stored")).unwrap();
    assert_eq!(fds.len(), 3);
    assert_eq!(fds[0].get_fd(), 4);
    assert_eq!(fds[0].get_name(), "config");
    assert_eq!(fds[1].get_fd(), 5);
    assert_eq!(fds[1].get_name(), "database");
    assert_eq!(fds[2].get_fd(), 6);
    assert_eq!(fds[2].get_name(), "stored");
}

#[test]
fn raw_fds_stop_at_the_count() {
    let fds = get_raw_ambient_fds(present("1"), present("a:b:c")).unwrap();
    assert_eq!(fds.len(), 1);
    assert_eq!(fds[0].get_fd(), 4);
    assert_eq!(fds[0].get_name(), "a");
}

#[test]
fn raw_fds_stop_at_the_names() {
    let fds = get_raw_ambient_fds(present("5"), present("a:b")).unwrap();
    assert_eq!(fds.len(), 2);
    assert_eq!(fds[1].get_fd(), 5);
    assert_eq!(fds[1].get_name(), "b");
}

#[test]
fn raw_fds_names_may_be_empty() {
    let fds = get_raw_ambient_fds(present("3"), present(":x:")).unwrap();
    let names: Vec<&str> = fds.iter().map(|f| f.get_name()).collect();
    assert_eq!(names, vec!["", "x", ""]);
    let fds = get_raw_ambient_fds(present("2"), present("")).unwrap();
    assert_eq!(fds.len(), 1);
    assert_eq!(fds[0].get_name(), "");
}

#[test]
fn raw_fds_nothing_to_collect() {
    let fds = get_raw_ambient_fds(present("0"), present("a:b")).unwrap();
    assert!(fds.is_empty());
}

#[test]
fn raw_fds_listen_fds_missing() {
    let err = expect_error(get_raw_ambient_fds(EnvValue::NotPresent, present("a")));
    assert_eq!(err.name, "LISTEN_FDS");
    assert!(matches!(err.kind, EnvVarErrorKind::NotFound));
}

#[test]
fn raw_fds_listen_fds_not_unicode() {
    let err = expect_error(get_raw_ambient_fds(EnvValue::NotUnicode(vec![0xff, 0x31]), EnvValue::NotPresent)
        );
    assert_eq!(err.name, "LISTEN_FDS");
    match err.kind {
        EnvVarErrorKind::NotUnicode(bytes) => assert_eq!(bytes, vec![0xff, 0x31]),
        other => panic!("unexpected {other:?}"),
    }
}

#[test]
fn raw_fds_listen_fds_not_a_number() {
    let err = expect_error(get_raw_ambient_fds(present("two"), present("a")));
    assert_eq!(err.name, "LISTEN_FDS");
    assert!(matches!(
        err.kind,
        EnvVarErrorKind::NotANumber(IntErrorKind::InvalidDigit)
    ));
    let err = expect_error(get_raw_ambient_fds(present(""), EnvValue::NotPresent));
    assert_eq!(err.name, "LISTEN_FDS");
    assert!(matches!(
        err.kind,
        EnvVarErrorKind::NotANumber(IntErrorKind::Empty)
    ));
}

#[test]
fn raw_fds_listen_fdnames_missing() {
    let err = expect_error(get_raw_ambient_fds(present("1"), EnvValue::NotPresent));
    assert_eq!(err.name, "LISTEN_FDNAMES");
    assert!(matches!(err.kind, EnvVarErrorKind::NotFound));
}

#[test]
fn raw_fds_listen_fdnames_not_unicode() {
    let err = expect_error(get_raw_ambient_fds(present("1"), EnvValue::NotUnicode(vec![0xc3])));
    assert_eq!(err.name, "LISTEN_FDNAMES");
    match err.kind {
        EnvVarErrorKind::NotUnicode(bytes) => assert_eq!(bytes, vec![0xc3]),
        other => panic!("unexpected {other:?}"),
    }
}

#[test]
fn raw_fd_numbers_fit_for_ordinary_values() {
    assert!(raw_fd_numbers_fit(&present("3"), &present("a:b:c")));
    assert!(raw_fd_numbers_fit(&present("18446744073709551615"), &present("a")));
    assert!(raw_fd_numbers_fit(&EnvValue::NotPresent, &present("a")));
    assert!(raw_fd_numbers_fit(&present("x"), &present("a")));
}
