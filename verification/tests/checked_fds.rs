use ambient_fd::checked::{name_ambient_fds, read_fd_name};
use ambient_fd::{AmbientFd, FdChecks, FdKind, FdName};

fn checks(fifo: bool, berkely: bool, unix: bool, queue: bool, special: bool) -> FdChecks {
    FdChecks { fifo, regular_file: false, berkely, unix, queue, special }
}

const REGULAR: u32 = 0o100644;
const CHAR_DEVICE: u32 = 0o020666;
const SOCKET: u32 = 0o140777;

#[test]
fn reserved_words_have_their_own_names() {
    assert!(matches!(read_fd_name("connection"), FdName::Connection));
    assert!(matches!(read_fd_name("stored"), FdName::Stored));
    assert!(matches!(read_fd_name("unknown"), FdName::Unknown));
    match read_fd_name("config") {
        FdName::Name(n) => assert_eq!(n, "config"),
        other => panic!("unexpected {other:?}"),
    }
    match read_fd_name("Stored") {
        FdName::Name(n) => assert_eq!(n, "Stored"),
        other => panic!("unexpected {other:?}"),
    }
    match read_fd_name("") {
        FdName::Name(n) => assert_eq!(n, ""),
        other => panic!("unexpected {other:?}"),
    }
}

#[test]
fn first_accepting_check_decides_the_kind() {
    assert!(matches!(FdKind::classify(7, checks(true, true, true, true, true)), FdKind::Fifo(7)));
    assert!(matches!(FdKind::classify(7, checks(false, true, true, true, true)), FdKind::Berkely(7)));
    assert!(matches!(FdKind::classify(7, checks(false, false, true, true, true)), FdKind::Unix(7)));
    assert!(matches!(
        FdKind::classify(7, checks(false, false, false, true, true)),
        FdKind::MessageQueue(7)
    ));
    assert!(matches!(
        FdKind::classify(7, checks(false, false, false, false, true)),
        FdKind::Special(7)
    ));
    assert!(matches!(
        FdKind::classify(7, checks(false, false, false, false, false)),
        FdKind::Unknown(7)
    ));
}

#[test]
fn into_fd_gives_back_the_checked_descriptor() {
    for c in [
        checks(true, false, false, false, false),
        checks(false, true, false, false, false),
        checks(false, false, true, false, false),
        checks(false, false, false, true, false),
        checks(false, false, false, false, true),
        checks(false, false, false, false, false),
    ] {
        assert_eq!(FdKind::classify(42, c).into_fd(), 42);
    }
}

#[test]
fn ambient_fd_keeps_name_and_kind() {
    let fd = AmbientFd::new(FdName::Stored, FdKind::Unix(9));
    assert!(matches!(fd.get_name(), FdName::Stored));
    assert!(matches!(fd.get_fd(), FdKind::Unix(9)));
    assert!(matches!(fd.into_kind(), FdKind::Unix(9)));
}

#[test]
fn descriptors_are_paired_with_names_in_order() {
    let paired = name_ambient_fds(&vec![3, 4, 5], "config:connection:stored");
    assert_eq!(paired.len(), 3);
    assert_eq!(paired[0].0, 3);
    assert!(matches!(&paired[0].1, FdName::Name(n) if n == "config"));
    assert_eq!(paired[1].0, 4);
    assert!(matches!(paired[1].1, FdName::Connection));
    assert_eq!(paired[2].0, 5);
    assert!(matches!(paired[2].1, FdName::Stored));
}

#[test]
fn pairing_stops_at_the_shorter_list() {
    assert_eq!(name_ambient_fds(&vec![3, 4, 5], "a").len(), 1);
    let paired = name_ambient_fds(&vec![3], "unknown:b:c");
    assert_eq!(paired.len(), 1);
    assert!(matches!(paired[0].1, FdName::Unknown));
    assert!(name_ambient_fds(&vec![], "a:b").is_empty());
}

#[test]
fn only_a_definite_yes_accepts() {
    let c = FdChecks::from_answers(Some(false), Some(SOCKET), Some(true), None, Some(true), Some(false));
    assert_eq!(c, checks(false, true, false, true, false));
    assert!(matches!(FdKind::classify(3, c), FdKind::Berkely(3)));
    let c = FdChecks::from_answers(None, None, None, None, None, None);
    assert!(matches!(FdKind::classify(3, c), FdKind::Unknown(3)));
    let c = FdChecks::from_answers(Some(false), Some(CHAR_DEVICE), Some(false), Some(false), Some(false), Some(true));
    assert!(matches!(FdKind::classify(3, c), FdKind::Special(3)));
    let c = FdChecks::from_answers(Some(false), None, Some(false), Some(true), Some(false), Some(false));
    assert!(matches!(FdKind::classify(3, c), FdKind::Unix(3)));
}

#[test]
fn open_file_regular_file_is_fifo() {
    // A regular file passes sd_is_special but is not a FIFO; it is a fifo kind.
    let c = FdChecks::from_answers(Some(false), Some(REGULAR), Some(false), Some(false), Some(false), Some(true));
    assert!(c.regular_file);
    assert!(matches!(FdKind::classify(4, c), FdKind::Fifo(4)));
    let c = FdChecks::from_answers(Some(true), Some(0o010600), Some(false), Some(false), Some(false), Some(false));
    assert!(!c.regular_file);
    assert!(matches!(FdKind::classify(4, c), FdKind::Fifo(4)));
}
