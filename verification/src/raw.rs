//! The file descriptors that systemd passes, read from `LISTEN_FDS` and
//! `LISTEN_FDNAMES` without any check of what they are.
use vstd::prelude::*;

use crate::decimal::{parse_usize, parse_usize_spec};
use crate::error::{EnvValue, EnvVarError, EnvVarErrorKind};
use crate::names::{join_spec, lemma_join_split, split_on, split_spec, string_views};

verus! {

/// Unprocessed or validated FDs
pub struct RawAmbientFd {
    fd: i32,
    name: String,
}

impl View for RawAmbientFd {
    /// The descriptor's number and its name.
    type V = (int, Seq<char>);

    closed spec fn view(&self) -> (int, Seq<char>) {
        (self.fd as int, self.name@)
    }
}

impl RawAmbientFd {
    /// Get the unerlying FD. It is up to the user to use it correctly.
    pub fn get_fd(&self) -> (r: i32)
        ensures
            r as int == self@.0,
    {
        self.fd
    }

    /// Get the name. May be empty.
    pub fn get_name(&self) -> (r: &str)
        ensures
            r@ == self@.1,
    {
        self.name.as_str()
    }
}

/// This is a constant in a systemd header, and people hardcode this. So it's probably fine to do
/// the same here.
pub const SD_LISTEN_FDS_START: i32 = 3;

/// The smaller of two numbers.
pub open spec fn min_nat(a: nat, b: nat) -> nat {
    if a <= b {
        a
    } else {
        b
    }
}

/// The descriptors that a count and a list of names describe: one for each
/// name as long as the count lasts, numbered upwards from the one after
/// `SD_LISTEN_FDS_START` (the start itself is not counted as an FD).
pub open spec fn raw_fds_spec(count: nat, names: Seq<Seq<char>>) -> Seq<(int, Seq<char>)> {
    Seq::new(min_nat(count, names.len()), |i: int| (SD_LISTEN_FDS_START + 1 + i, names[i]))
}

/// Law: the descriptors are numbered one after another from the one after
/// `SD_LISTEN_FDS_START`, so no two share a number; each carries the name
/// at its position; and when the count is zero there is nothing to collect.
pub proof fn lemma_raw_fds_numbering(count: nat, names: Seq<Seq<char>>)
    ensures
        raw_fds_spec(count, names).len() == min_nat(count, names.len()),
        count == 0 ==> raw_fds_spec(count, names).len() == 0,
        forall|i: int|
            0 <= i < raw_fds_spec(count, names).len() ==> (#[trigger] raw_fds_spec(count, names)[i])
                == (SD_LISTEN_FDS_START + 1 + i, names[i]),
        forall|i: int, j: int|
            0 <= i < j < raw_fds_spec(count, names).len() ==> (#[trigger] raw_fds_spec(
                count,
                names,
            )[i]).0 != (#[trigger] raw_fds_spec(count, names)[j]).0,
{
}

/// Law: when systemd writes `LISTEN_FDNAMES` as the names of the passed
/// descriptors (none holding `:`) joined with `:`, and `LISTEN_FDS` as their
/// number, reading them back gives every descriptor with its own name.
pub proof fn lemma_raw_fds_read_what_systemd_wrote(names: Seq<Seq<char>>)
    requires
        names.len() >= 1,
        forall|i: int| 0 <= i < names.len() ==> !(#[trigger] names[i]).contains(':'),
    ensures
        raw_fds_spec(names.len(), split_spec(join_spec(names, ':'), ':')) == Seq::new(
            names.len(),
            |i: int| (SD_LISTEN_FDS_START + 1 + i, names[i]),
        ),
{
    lemma_join_split(names, ':');
    assert(raw_fds_spec(names.len(), split_spec(join_spec(names, ':'), ':')) =~= Seq::new(
        names.len(),
        |i: int| (SD_LISTEN_FDS_START + 1 + i, names[i]),
    ));
}

/// The views of a list of raw descriptors.
pub open spec fn raw_views(v: Seq<RawAmbientFd>) -> Seq<(int, Seq<char>)> {
    v.map_values(|f: RawAmbientFd| f@)
}

/// `e` reports that the variable `name` is missing or not unicode, as
/// `value` says.
pub open spec fn reports_unusable(e: EnvVarError, name: Seq<char>, value: EnvValue) -> bool {
    &&& e.name@ == name
    &&& match value {
        EnvValue::NotPresent => e.kind is NotFound,
        EnvValue::NotUnicode(bytes) => e.kind matches EnvVarErrorKind::NotUnicode(b) && b@
            == bytes@,
        EnvValue::Present(_) => false,
    }
}

/// The descriptor numbers stay within `i32`: counting upwards from the
/// first one never passes `i32::MAX`. The numbers are counted while both
/// the count and the names last, and one more time when the names run out
/// before the count.
pub open spec fn fd_numbers_fit_spec(listen_fds: EnvValue, listen_fdnames: EnvValue) -> bool {
    match (listen_fds, listen_fdnames) {
        (EnvValue::Present(c), EnvValue::Present(n)) => match parse_usize_spec(c@) {
            Ok(count) => min_nat(count as nat, split_spec(n@, ':').len() + 1) <= i32::MAX - 4,
            Err(_) => true,
        },
        _ => true,
    }
}

/// Whether the descriptor numbers that `get_raw_ambient_fds` would count
/// for these values stay within `i32`.
pub fn raw_fd_numbers_fit(listen_fds: &EnvValue, listen_fdnames: &EnvValue) -> (r: bool)
    ensures
        r == fd_numbers_fit_spec(*listen_fds, *listen_fdnames),
{
    match (listen_fds, listen_fdnames) {
        (EnvValue::Present(c), EnvValue::Present(n)) => match parse_usize(c.as_str()) {
            Ok(count) => {
                let pieces = split_on(n.as_str(), ':');
                let bound: usize = (i32::MAX - 4) as usize;
                if count <= pieces.len() {
                    count <= bound
                } else {
                    pieces.len() < bound
                }
            },
            Err(_) => true,
        },
        _ => true,
    }
}

/// This function doesn't do any checking, just collects.
/// If there isn't anything to collect, returns an empty Vec.
///
/// `listen_fds` and `listen_fdnames` are what the environment holds for
/// `LISTEN_FDS` and `LISTEN_FDNAMES`.
///
/// It is recommended to use the above API has it does checking
/// through systemd's API to ensure the FDs are chill guys, and
/// lets the user know what type of FD they are.
///
/// Systemd docs recommends, essentially, to ignore the exact error
/// and just go to a fallback (if possible) if this fails.
pub fn get_raw_ambient_fds(listen_fds: EnvValue, listen_fdnames: EnvValue) -> (r: Result<
    Vec<RawAmbientFd>,
    EnvVarError,
>)
    requires
        fd_numbers_fit_spec(listen_fds, listen_fdnames),
    ensures
        match listen_fds {
            EnvValue::Present(count_text) => match parse_usize_spec(count_text@) {
                Err(k) => r matches Err(e) && e.name@ == "LISTEN_FDS"@ && e.kind
                    == EnvVarErrorKind::NotANumber(k),
                Ok(count) => match listen_fdnames {
                    EnvValue::Present(names) => r matches Ok(v) && raw_views(v@) == raw_fds_spec(
                        count as nat,
                        split_spec(names@, ':'),
                    ),
                    _ => r matches Err(e) && reports_unusable(e, "LISTEN_FDNAMES"@, listen_fdnames),
                },
            },
            _ => r matches Err(e) && reports_unusable(e, "LISTEN_FDS"@, listen_fds),
        },
{
    let ghost fds_value = listen_fds;
    let ghost names_value = listen_fdnames;
    let count_text = match listen_fds {
        EnvValue::Present(text) => text,
        EnvValue::NotPresent => {
            return Err(
                EnvVarError {
                    name: String::from_str("LISTEN_FDS"),
                    kind: EnvVarErrorKind::NotFound,
                },
            );
        },
        EnvValue::NotUnicode(bytes) => {
            return Err(
                EnvVarError {
                    name: String::from_str("LISTEN_FDS"),
                    kind: EnvVarErrorKind::NotUnicode(bytes),
                },
            );
        },
    };
    let count = match parse_usize(count_text.as_str()) {
        Ok(count) => count,
        Err(kind) => {
            return Err(
                EnvVarError {
                    name: String::from_str("LISTEN_FDS"),
                    kind: EnvVarErrorKind::NotANumber(kind),
                },
            );
        },
    };
    let names = match listen_fdnames {
        EnvValue::Present(text) => text,
        EnvValue::NotPresent => {
            return Err(
                EnvVarError {
                    name: String::from_str("LISTEN_FDNAMES"),
                    kind: EnvVarErrorKind::NotFound,
                },
            );
        },
        EnvValue::NotUnicode(bytes) => {
            return Err(
                EnvVarError {
                    name: String::from_str("LISTEN_FDNAMES"),
                    kind: EnvVarErrorKind::NotUnicode(bytes),
                },
            );
        },
    };
    let pieces = split_on(names.as_str(), ':');
    let ghost pieces_view = split_spec(names@, ':');
    let n: usize = if count <= pieces.len() { count } else { pieces.len() };
    let mut fds: Vec<RawAmbientFd> = Vec::new();
    let mut k: usize = 0;
    while k < n
        invariant
            k <= n,
            n as nat == min_nat(count as nat, pieces_view.len()),
            n <= i32::MAX - 4,
            string_views(pieces@) == pieces_view,
            raw_views(fds@) =~= raw_fds_spec(count as nat, pieces_view).take(k as int),
        decreases n - k,
    {
        let ghost before = raw_views(fds@);
        let name = pieces[k].clone();
        assert(name@ == pieces_view[k as int]);
        let fd = RawAmbientFd { fd: SD_LISTEN_FDS_START + 1 + k as i32, name };
        fds.push(fd);
        assert(raw_views(fds@) =~= before.push(fd@));
        k = k + 1;
    }
    assert(raw_fds_spec(count as nat, pieces_view).take(n as int) =~= raw_fds_spec(
        count as nat,
        pieces_view,
    ));
    Ok(fds)
}

} // verus!
