//! The messages that a service sends to systemd's notification socket.
//! Each message is one `KEY=VALUE` assignment; a datagram holds one or more
//! of them, one per line.
use core::time::Duration;

use vstd::prelude::*;

use crate::decimal::{
    decimal, is_digit_spec, lemma_decimal_roundtrip, lemma_signed_decimal_reads_back,
    lemma_u128_decimal_reads_back, parse_i32_value, parse_unsigned_spec, parse_usize_spec,
    push_decimal, push_signed_decimal, signed_decimal,
};
use crate::error::IntErrorKind;
use crate::names::{join_spec, string_views};

verus! {

pub fn ready() -> (r: &'static str)
    ensures
        r@ == "READY=1"@,
{
    "READY=1"
}

pub fn reloading() -> (r: &'static str)
    ensures
        r@ == "RELOADING=1"@,
{
    "RELOADING=1"
}

/// The messages that announce a reload begun at `monotonic` microseconds
/// of `CLOCK_MONOTONIC`: `RELOADING=1` and the timestamp.
pub fn reloading_messages(monotonic: u128) -> (r: Vec<String>)
    ensures
        string_views(r@) == seq!["RELOADING=1"@, "MONOTONIC_USEC="@ + decimal(monotonic as nat)],
{
    let mut lines: Vec<String> = Vec::new();
    lines.push(String::from_str(reloading()));
    lines.push(monotonic_usec(monotonic));
    assert(string_views(lines@) =~= seq![
        "RELOADING=1"@,
        "MONOTONIC_USEC="@ + decimal(monotonic as nat),
    ]);
    lines
}

pub fn stopping() -> (r: &'static str)
    ensures
        r@ == "STOPPING=1"@,
{
    "STOPPING=1"
}

/// `prefix` followed by the decimal text of `n`.
fn with_decimal(prefix: &str, n: u128) -> (r: String)
    ensures
        r@ == prefix@ + decimal(n as nat),
{
    let mut s = String::from_str(prefix);
    push_decimal(&mut s, n);
    s
}

/// `prefix` followed by `value`.
fn with_text(prefix: &str, value: &str) -> (r: String)
    ensures
        r@ == prefix@ + value@,
{
    let mut s = String::from_str(prefix);
    s.append(value);
    s
}

pub fn monotonic_usec(timestamp: u128) -> (r: String)
    ensures
        r@ == "MONOTONIC_USEC="@ + decimal(timestamp as nat),
{
    with_decimal("MONOTONIC_USEC=", timestamp)
}

/// The value of a message made of `prefix` and the decimal text of `n`:
/// the text after the prefix reads back as `n` (as `u128::from_str` reads
/// it), and holds only digits, without a leading zero unless `n` is zero.
pub open spec fn u128_value_reads_back(prefix: Seq<char>, n: u128) -> bool {
    let v = (prefix + decimal(n as nat)).skip(prefix.len() as int);
    &&& parse_unsigned_spec(v, u128::MAX as nat) == Ok::<nat, IntErrorKind>(n as nat)
    &&& v.len() >= 1
    &&& forall|i: int| 0 <= i < v.len() ==> #[trigger] is_digit_spec(v[i])
    &&& (n != 0 ==> v[0] != '0')
}

/// The text after a prefix is what was written after it.
proof fn lemma_u128_value(prefix: Seq<char>, n: u128)
    ensures
        u128_value_reads_back(prefix, n),
{
    assert((prefix + decimal(n as nat)).skip(prefix.len() as int) =~= decimal(n as nat));
    lemma_u128_decimal_reads_back(n);
}

/// Law: the value of a `MONOTONIC_USEC=` message reads back as the
/// timestamp it was written for, for every `u128`, with no sign and no
/// leading zero.
pub proof fn lemma_monotonic_usec_reads_back(timestamp: u128)
    ensures
        u128_value_reads_back("MONOTONIC_USEC="@, timestamp),
{
    lemma_u128_value("MONOTONIC_USEC="@, timestamp);
}

/// Law: the values of `WATCHDOG_USEC=` and `EXTEND_TIMEOUT_USEC=` messages
/// read back as the microseconds they were written for, for every `u128`.
pub proof fn lemma_timeout_usec_reads_back(micros: u128)
    ensures
        u128_value_reads_back("WATCHDOG_USEC="@, micros),
        u128_value_reads_back("EXTEND_TIMEOUT_USEC="@, micros),
{
    lemma_u128_value("WATCHDOG_USEC="@, micros);
    lemma_u128_value("EXTEND_TIMEOUT_USEC="@, micros);
}

pub fn status(text: &str) -> (r: String)
    ensures
        r@ == "STATUS="@ + text@,
{
    with_text("STATUS=", text)
}

/// Controls what processes can send systemd messages
#[derive(Debug, Copy, Clone, Eq, PartialEq, Structural)]
pub enum SocketAccess {
    /// Do not accept any status updates from the service
    NoAccess,
    /// Only accept status updates from the main process (`send_mainpid`)
    Main,
    /// Only accept status updates from the main process, control processes, or from the `Exec*` unit commands.
    Exec,
    /// Accept status updates from all service processes
    All,
}

/// The `NOTIFYACCESS=` message for each access setting.
pub open spec fn notify_access_spec(state: SocketAccess) -> Seq<char> {
    match state {
        SocketAccess::NoAccess => "NOTIFYACCESS=none"@,
        SocketAccess::Main => "NOTIFYACCESS=main"@,
        SocketAccess::Exec => "NOTIFYACCESS=exec"@,
        SocketAccess::All => "NOTIFYACCESS=all"@,
    }
}

pub fn notify_access(state: SocketAccess) -> (r: &'static str)
    ensures
        r@ == notify_access_spec(state),
{
    match state {
        SocketAccess::NoAccess => "NOTIFYACCESS=none",
        SocketAccess::Main => "NOTIFYACCESS=main",
        SocketAccess::Exec => "NOTIFYACCESS=exec",
        SocketAccess::All => "NOTIFYACCESS=all",
    }
}

/// Law: different access settings give different messages, so systemd can
/// tell each setting from the message.
pub proof fn lemma_notify_access_distinct(a: SocketAccess, b: SocketAccess)
    requires
        a != b,
    ensures
        notify_access_spec(a) != notify_access_spec(b),
{
    reveal_strlit("NOTIFYACCESS=none");
    reveal_strlit("NOTIFYACCESS=main");
    reveal_strlit("NOTIFYACCESS=exec");
    reveal_strlit("NOTIFYACCESS=all");
    let x = notify_access_spec(a);
    let y = notify_access_spec(b);
    if x.len() == y.len() {
        assert(x[13] != y[13] || x[14] != y[14]);
    }
}

pub fn errno(code: i32) -> (r: String)
    ensures
        r@ == "ERRNO="@ + signed_decimal(code as int),
{
    let mut s = String::from_str("ERRNO=");
    push_signed_decimal(&mut s, code);
    s
}

/// Law: the value of an `ERRNO=` message, the text after `=`, reads back
/// as the error number it was written for (as `i32::from_str` reads it); it
/// carries a `-` exactly when the number is negative, and a non-negative
/// number is written as its plain digits.
pub proof fn lemma_errno_reads_back(code: i32)
    ensures
        parse_i32_value(("ERRNO="@ + signed_decimal(code as int)).skip("ERRNO="@.len() as int))
            == Some(code as int),
        (("ERRNO="@ + signed_decimal(code as int)).skip("ERRNO="@.len() as int)[0] == '-') <==> code
            < 0,
        code >= 0 ==> ("ERRNO="@ + signed_decimal(code as int)).skip("ERRNO="@.len() as int)
            == decimal(code as nat),
{
    let p = "ERRNO="@;
    assert((p + signed_decimal(code as int)).skip(p.len() as int) =~= signed_decimal(code as int));
    lemma_signed_decimal_reads_back(code);
}

pub fn bus_error(error: &str) -> (r: String)
    ensures
        r@ == "BUSERROR="@ + error@,
{
    with_text("BUSERROR=", error)
}

pub fn varlink_error(error: &str) -> (r: String)
    ensures
        r@ == "VARLINKERROR="@ + error@,
{
    with_text("VARLINKERROR=", error)
}

pub fn exit_status(status: &str) -> (r: String)
    ensures
        r@ == "EXIT_STATUS="@ + status@,
{
    with_text("EXIT_STATUS=", status)
}

pub fn mainpid(pid: u32) -> (r: String)
    ensures
        r@ == "MAINPID="@ + decimal(pid as nat),
{
    with_decimal("MAINPID=", pid as u128)
}

/// Law: the value of a `MAINPID=` message, the text after `=`, reads back
/// as the process id it was written for.
pub proof fn lemma_mainpid_reads_back(pid: u32)
    ensures
        parse_usize_spec(("MAINPID="@ + decimal(pid as nat)).skip("MAINPID="@.len() as int))
            == Ok::<usize, IntErrorKind>(pid as usize),
{
    let p = "MAINPID="@;
    assert((p + decimal(pid as nat)).skip(p.len() as int) =~= decimal(pid as nat));
    lemma_decimal_roundtrip(pid as nat, usize::MAX as nat);
}

pub fn main_pidfd() -> (r: &'static str)
    ensures
        r@ == "MAINPIDFD=1"@,
{
    "MAINPIDFD=1"
}

pub fn watchdog_update() -> (r: &'static str)
    ensures
        r@ == "WATCHDOG=1"@,
{
    "WATCHDOG=1"
}

pub fn watchdog_trigger() -> (r: &'static str)
    ensures
        r@ == "WATCHDOG=trigger"@,
{
    "WATCHDOG=trigger"
}

/// The whole number of microseconds in a duration, as
/// `Duration::as_micros` gives it.
pub uninterp spec fn duration_micros(d: Duration) -> u128;

/// `Duration::as_micros`. Its result, the whole microseconds that the
/// duration holds, is named by `duration_micros`; nothing more of it is
/// claimed here than that it depends on the duration alone.
#[verifier::external_body]
fn as_micros(d: &Duration) -> (r: u128)
    ensures
        r == duration_micros(*d),
{
    d.as_micros()
}

/// The `WATCHDOG_USEC=` message for a timeout of `micros` microseconds.
pub fn watchdog_timeout_micros(micros: u128) -> (r: String)
    ensures
        r@ == "WATCHDOG_USEC="@ + decimal(micros as nat),
{
    with_decimal("WATCHDOG_USEC=", micros)
}

pub fn watchdog_timeout(timeout: Duration) -> (r: String)
    ensures
        r@ == "WATCHDOG_USEC="@ + decimal(duration_micros(timeout) as nat),
{
    watchdog_timeout_micros(as_micros(&timeout))
}

/// The `EXTEND_TIMEOUT_USEC=` message for an extension of `micros`
/// microseconds.
pub fn extend_timeout_micros(micros: u128) -> (r: String)
    ensures
        r@ == "EXTEND_TIMEOUT_USEC="@ + decimal(micros as nat),
{
    with_decimal("EXTEND_TIMEOUT_USEC=", micros)
}

pub fn extend_timeout(timeout: Duration) -> (r: String)
    ensures
        r@ == "EXTEND_TIMEOUT_USEC="@ + decimal(duration_micros(timeout) as nat),
{
    extend_timeout_micros(as_micros(&timeout))
}

pub fn restart_reset() -> (r: &'static str)
    ensures
        r@ == "RESTART_RESET=1"@,
{
    "RESTART_RESET=1"
}

pub fn barrier() -> (r: &'static str)
    ensures
        r@ == "BARRIER=1"@,
{
    "BARRIER=1"
}

/// Asks systemd to keep the descriptors sent with the message in its
/// file descriptor store.
pub fn fd_store() -> (r: &'static str)
    ensures
        r@ == "FDSTORE=1"@,
{
    "FDSTORE=1"
}

/// Asks systemd to drop the descriptors of the named entry from its file
/// descriptor store.
pub fn fd_store_remove() -> (r: &'static str)
    ensures
        r@ == "FDSTOREREMOVE=1"@,
{
    "FDSTOREREMOVE=1"
}

/// The name under which descriptors are stored or removed.
pub fn fd_name(name: &str) -> (r: String)
    ensures
        r@ == "FDNAME="@ + name@,
{
    with_text("FDNAME=", name)
}

/// The datagram that carries the messages `lines`: one per line.
pub fn notify_datagram(lines: &Vec<String>) -> (r: String)
    ensures
        r@ == join_spec(string_views(lines@), '\n'),
{
    let mut out = String::new();
    let mut i: usize = 0;
    while i < lines.len()
        invariant
            i <= lines.len(),
            out@ == join_spec(string_views(lines@).take(i as int), '\n'),
        decreases lines.len() - i,
    {
        let ghost views = string_views(lines@);
        let ghost before = out@;
        assert(views.take(i + 1).drop_last() =~= views.take(i as int));
        assert(views.take(i + 1).last() == lines[i as int]@);
        if i > 0 {
            out.append("\n");
            proof { reveal_strlit("\n"); }
        }
        out.append(lines[i].as_str());
        proof {
            if i == 0 {
                assert(views.take(1) =~= seq![lines[0]@]);
                assert(before =~= Seq::<char>::empty());
                assert(out@ =~= join_spec(views.take(1), '\n'));
            } else {
                assert(out@ =~= before.push('\n') + lines[i as int]@);
            }
        }
        i = i + 1;
    }
    assert(string_views(lines@).take(lines.len() as int) =~= string_views(lines@));
    out
}

} // verus!
