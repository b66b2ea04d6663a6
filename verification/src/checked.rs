//! Ambient file descriptors with their names interpreted and their kind
//! decided from systemd's checks.
use vstd::prelude::*;

use crate::names::{split_on, split_spec, string_views};

verus! {

/// Represents the name and context of what the name means.
#[derive(Debug)]
pub enum FdName {
    // Name of the FD systemd provided.
    //
    // This name is either provided via `OpenFile=` in the unit file, or set
    // with the systemd File Descriptor Store.
    //
    // Without a name, it is often difficult to determine what the FD is, thus it is highly recommended to set.
    Name(String),
    /// Was in systemd's FD store, but no name was provided.
    ///
    /// This can persist FDs across service restarts, kexec events, and soft-reboots.
    Stored,
    /// This service has been activated via `Accept=yes` in a systemd socket file
    /// This is the connection.
    Connection,
    /// No name was received for this FD, was not in the FD store, and was not a socket-activated connection.
    Unknown,
}

/// `name` is what the text `text` in `LISTEN_FDNAMES` means: the words
/// `connection`, `stored` and `unknown` have their own variants, any other
/// text is a name.
pub open spec fn names_fd(text: Seq<char>, name: FdName) -> bool {
    if text == "connection"@ {
        name is Connection
    } else if text == "stored"@ {
        name is Stored
    } else if text == "unknown"@ {
        name is Unknown
    } else {
        name matches FdName::Name(n) && n@ == text
    }
}

/// Law: the three reserved words mean their own variants, and any other
/// text is kept whole as the name, not a character dropped or changed.
pub proof fn lemma_names_kept_whole(text: Seq<char>, name: FdName)
    requires
        names_fd(text, name),
    ensures
        text == "connection"@ ==> name is Connection,
        text == "stored"@ ==> name is Stored,
        text == "unknown"@ ==> name is Unknown,
        text != "connection"@ && text != "stored"@ && text != "unknown"@ ==> (name matches FdName::Name(
            n,
        ) && n@ == text),
{
    reveal_strlit("connection");
    reveal_strlit("stored");
    reveal_strlit("unknown");
    assert("connection"@ != "stored"@) by {
        assert("connection"@.len() != "stored"@.len());
    }
    assert("connection"@ != "unknown"@) by {
        assert("connection"@.len() != "unknown"@.len());
    }
    assert("stored"@ != "unknown"@) by {
        assert("stored"@[0] != "unknown"@[0]);
    }
}

/// Whether two texts are the same.
fn same_text(a: &str, b: &str) -> (r: bool)
    ensures
        r == (a@ == b@),
{
    let len = a.unicode_len();
    if len != b.unicode_len() {
        return false;
    }
    let mut i: usize = 0;
    while i < len
        invariant
            len == a@.len(),
            len == b@.len(),
            i <= len,
            forall|j: int| 0 <= j < i ==> a@[j] == b@[j],
        decreases len - i,
    {
        if a.get_char(i) != b.get_char(i) {
            return false;
        }
        i = i + 1;
    }
    assert(a@ =~= b@);
    true
}

/// What a text in `LISTEN_FDNAMES` means.
pub fn read_fd_name(text: &str) -> (r: FdName)
    ensures
        names_fd(text@, r),
        text@ == "connection"@ ==> r is Connection,
        text@ == "stored"@ ==> r is Stored,
        text@ == "unknown"@ ==> r is Unknown,
        text@ != "connection"@ && text@ != "stored"@ && text@ != "unknown"@ ==> (r matches FdName::Name(
            n,
        ) && n@ == text@),
{
    let r = if same_text(text, "connection") {
        FdName::Connection
    } else if same_text(text, "stored") {
        FdName::Stored
    } else if same_text(text, "unknown") {
        FdName::Unknown
    } else {
        FdName::Name(text.to_owned())
    };
    proof {
        lemma_names_kept_whole(text@, r);
    }
    r
}

/// Types of FDs received
#[derive(Debug)]
pub enum FdKind<F> {
    /// SystemV FIFO FD
    ///
    /// Files using systemd's `OpenFile` will appear as a fifo FD.
    Fifo(F),
    /// IPv4 or IPv6 socket FD
    Berkely(F),
    /// Unix domain socket FD
    Unix(F),
    /// Posix message queue FD
    MessageQueue(F),
    /// Special FD, like those under /prov and /sys
    Special(F),
    /// Unable to determine FD type
    Unknown(F),
}

/// Which of systemd's checks accepted a descriptor: `sd_is_fifo`,
/// `sd_is_socket_inet`, `sd_is_socket_unix`, `sd_is_mq` and `sd_is_special`,
/// each asked without further conditions; and whether the descriptor is a
/// regular file, as files that systemd opens for `OpenFile=` are.
#[derive(Debug, Clone, Copy, PartialEq, Eq, Structural)]
pub struct FdChecks {
    pub fifo: bool,
    pub regular_file: bool,
    pub berkely: bool,
    pub unix: bool,
    pub queue: bool,
    pub special: bool,
}

/// Whether a check's answer accepts the descriptor: only a definite yes
/// does; a no, or a check that failed (`None`), does not.
pub open spec fn accepts(answer: Option<bool>) -> bool {
    answer == Some(true)
}

/// The file type bits of a file mode (`S_IFMT`).
pub const FILE_TYPE_MASK: u32 = 0o170000;

/// The file type of a regular file (`S_IFREG`).
pub const REGULAR_FILE_TYPE: u32 = 0o100000;

/// Whether a file mode, as `fstat` reports it in `st_mode`, is that of a
/// regular file; `None` (the `fstat` failed) is not.
pub open spec fn is_regular_mode(mode: Option<u32>) -> bool {
    mode matches Some(m) && m & FILE_TYPE_MASK == REGULAR_FILE_TYPE
}

impl FdChecks {
    /// The checks from the answers of systemd's checks, in the order fifo,
    /// internet socket, unix socket, message queue, special file; each answer
    /// is `Some` of what the check said, or `None` when the check failed.
    /// `mode` is the descriptor's `st_mode` from `fstat`, or `None` when
    /// that failed.
    pub fn from_answers(
        fifo: Option<bool>,
        mode: Option<u32>,
        berkely: Option<bool>,
        unix: Option<bool>,
        queue: Option<bool>,
        special: Option<bool>,
    ) -> (r: FdChecks)
        ensures
            r.fifo == accepts(fifo),
            r.regular_file == is_regular_mode(mode),
            r.berkely == accepts(berkely),
            r.unix == accepts(unix),
            r.queue == accepts(queue),
            r.special == accepts(special),
    {
        FdChecks {
            fifo: answer_accepts(fifo),
            regular_file: match mode {
                Some(m) => m & FILE_TYPE_MASK == REGULAR_FILE_TYPE,
                None => false,
            },
            berkely: answer_accepts(berkely),
            unix: answer_accepts(unix),
            queue: answer_accepts(queue),
            special: answer_accepts(special),
        }
    }
}

/// Whether a check's answer accepts the descriptor.
fn answer_accepts(answer: Option<bool>) -> (r: bool)
    ensures
        r == accepts(answer),
{
    match answer {
        Some(yes) => yes,
        None => false,
    }
}

/// The kind that the checks give a descriptor: a FIFO, or a regular file
/// such as those that `OpenFile=` gives, is a fifo; otherwise the first
/// check that accepted it, in the order internet socket, unix socket,
/// message queue, special file; unknown when none did.
pub open spec fn classify_spec<F>(fd: F, checks: FdChecks) -> FdKind<F> {
    if checks.fifo || checks.regular_file {
        FdKind::Fifo(fd)
    } else if checks.berkely {
        FdKind::Berkely(fd)
    } else if checks.unix {
        FdKind::Unix(fd)
    } else if checks.queue {
        FdKind::MessageQueue(fd)
    } else if checks.special {
        FdKind::Special(fd)
    } else {
        FdKind::Unknown(fd)
    }
}

impl<F> FdKind<F> {
    /// The descriptor that any kind holds.
    pub open spec fn fd_spec(self) -> F {
        match self {
            FdKind::Fifo(fd) => fd,
            FdKind::Berkely(fd) => fd,
            FdKind::Unix(fd) => fd,
            FdKind::MessageQueue(fd) => fd,
            FdKind::Special(fd) => fd,
            FdKind::Unknown(fd) => fd,
        }
    }

    /// The kind of `fd`, as systemd's checks decided.
    pub fn classify(fd: F, checks: FdChecks) -> (r: Self)
        ensures
            r == classify_spec(fd, checks),
            checks.fifo || checks.regular_file ==> r == FdKind::Fifo(fd),
            !checks.fifo && !checks.regular_file && checks.berkely ==> r == FdKind::Berkely(fd),
            !checks.fifo && !checks.regular_file && !checks.berkely && checks.unix ==> r
                == FdKind::Unix(fd),
            !checks.fifo && !checks.regular_file && !checks.berkely && !checks.unix && checks.queue
                ==> r == FdKind::MessageQueue(fd),
            !checks.fifo && !checks.regular_file && !checks.berkely && !checks.unix && !checks.queue
                && checks.special ==> r == FdKind::Special(fd),
            !checks.fifo && !checks.regular_file && !checks.berkely && !checks.unix && !checks.queue
                && !checks.special ==> r == FdKind::Unknown(fd),
    {
        // Let systemd do most of the checks as it is more comprehensive
        // and robust.
        if checks.fifo || checks.regular_file {
            FdKind::Fifo(fd)
        } else if checks.berkely {
            FdKind::Berkely(fd)
        } else if checks.unix {
            FdKind::Unix(fd)
        } else if checks.queue {
            FdKind::MessageQueue(fd)
        } else if checks.special {
            FdKind::Special(fd)
        } else {
            FdKind::Unknown(fd)
        }
    }

    pub fn into_fd(self) -> (r: F)
        ensures
            r == self.fd_spec(),
    {
        match self {
            FdKind::Unknown(fd)
            | FdKind::Special(fd)
            | FdKind::MessageQueue(fd)
            | FdKind::Unix(fd)
            | FdKind::Fifo(fd)
            | FdKind::Berkely(fd) => fd,
        }
    }
}

/// Law: a regular file, as systemd opens for an `OpenFile=` line, is a
/// fifo descriptor, whatever systemd's other checks answer. (`from_answers`
/// marks a descriptor a regular file exactly when its `st_mode` says so.)
pub proof fn lemma_open_file_is_fifo<F>(fd: F, checks: FdChecks)
    requires
        checks.regular_file,
    ensures
        classify_spec(fd, checks) == FdKind::Fifo(fd),
{
}

/// Law: the kind is the first check that accepts, in the order fifo or
/// regular file, internet socket, unix socket, message queue, special
/// file, and unknown when none accepts; later checks never change it.
pub proof fn lemma_first_accepting_check<F>(fd: F, c: FdChecks)
    ensures
        c.fifo || c.regular_file ==> classify_spec(fd, c) == FdKind::Fifo(fd),
        !c.fifo && !c.regular_file && c.berkely ==> classify_spec(fd, c) == FdKind::Berkely(fd),
        !c.fifo && !c.regular_file && !c.berkely && c.unix ==> classify_spec(fd, c) == FdKind::Unix(
            fd,
        ),
        !c.fifo && !c.regular_file && !c.berkely && !c.unix && c.queue ==> classify_spec(fd, c)
            == FdKind::MessageQueue(fd),
        !c.fifo && !c.regular_file && !c.berkely && !c.unix && !c.queue && c.special
            ==> classify_spec(fd, c) == FdKind::Special(fd),
        !c.fifo && !c.regular_file && !c.berkely && !c.unix && !c.queue && !c.special
            ==> classify_spec(fd, c) == FdKind::Unknown(fd),
{
}

/// Law: deciding a descriptor's kind keeps the descriptor, so taking it
/// back out of the kind gives the one that was checked.
pub proof fn lemma_classify_keeps_fd<F>(fd: F, checks: FdChecks)
    ensures
        classify_spec(fd, checks).fd_spec() == fd,
{
}

/// Represents an ambient FD that systemd has provided.
///
/// Attempts to get the name of the FD if one has been provided,
/// and checks the type of FD.
#[derive(Debug)]
pub struct AmbientFd<F> {
    name: FdName,
    fd: FdKind<F>,
}

impl<F> View for AmbientFd<F> {
    /// The name and the kind.
    type V = (FdName, FdKind<F>);

    closed spec fn view(&self) -> (FdName, FdKind<F>) {
        (self.name, self.fd)
    }
}

impl<F> AmbientFd<F> {
    /// The descriptor `fd` under the name `name`.
    pub fn new(name: FdName, fd: FdKind<F>) -> (r: Self)
        ensures
            r@ == (name, fd),
    {
        AmbientFd { name, fd }
    }

    pub fn get_fd(&self) -> (r: &FdKind<F>)
        ensures
            *r == self@.1,
    {
        &self.fd
    }

    pub fn get_name(&self) -> (r: &FdName)
        ensures
            *r == self@.0,
    {
        &self.name
    }

    pub fn into_kind(self) -> (r: FdKind<F>)
        ensures
            r == self@.1,
    {
        self.fd
    }
}

/// The smaller of two lengths.
pub open spec fn min_len(a: int, b: int) -> int {
    if a <= b {
        a
    } else {
        b
    }
}

/// Pairs the descriptors that systemd passed with the names in
/// `LISTEN_FDNAMES` (`names`, split at `:`), in order, for as long as both
/// last, and says what each name means.
pub fn name_ambient_fds(fds: &Vec<i32>, names: &str) -> (r: Vec<(i32, FdName)>)
    ensures
        r.len() == min_len(fds.len() as int, split_spec(names@, ':').len() as int),
        forall|i: int|
            0 <= i < r.len() ==> (#[trigger] r[i]).0 == fds[i] && names_fd(
                split_spec(names@, ':')[i],
                r[i].1,
            ),
        forall|i: int|
            0 <= i < r.len() && split_spec(names@, ':')[i] != "connection"@ && split_spec(
                names@,
                ':',
            )[i] != "stored"@ && split_spec(names@, ':')[i] != "unknown"@ ==> ((#[trigger] r[i]).1 matches FdName::Name(
                n,
            ) && n@ == split_spec(names@, ':')[i]),
{
    let pieces = split_on(names, ':');
    let ghost pieces_view = split_spec(names@, ':');
    let n: usize = if fds.len() <= pieces.len() { fds.len() } else { pieces.len() };
    let mut out: Vec<(i32, FdName)> = Vec::new();
    let mut k: usize = 0;
    while k < n
        invariant
            k <= n,
            n as int == min_len(fds.len() as int, pieces_view.len() as int),
            string_views(pieces@) == pieces_view,
            out.len() == k,
            forall|i: int|
                0 <= i < k ==> (#[trigger] out[i]).0 == fds[i] && names_fd(
                    pieces_view[i],
                    out[i].1,
                ),
        decreases n - k,
    {
        assert(pieces[k as int]@ == pieces_view[k as int]);
        let name = read_fd_name(pieces[k].as_str());
        out.push((fds[k], name));
        k = k + 1;
    }
    out
}

} // verus!
