//! Decimal numbers as text: the reader used for `LISTEN_FDS` and the writer
//! used by the notification messages.
use vstd::prelude::*;

use crate::error::IntErrorKind;

verus! {

/// The character `'0'` .. `'9'` for a digit value below ten.
pub open spec fn digit_char(d: nat) -> char {
    (d + 48) as char
}

/// Whether `c` is one of the ASCII digits `'0'` .. `'9'`.
pub open spec fn is_digit_spec(c: char) -> bool {
    '0' <= c && c <= '9'
}

/// The value of an ASCII digit.
pub open spec fn digit_value(c: char) -> nat {
    (c as int - 48) as nat
}

/// The decimal text of `n`: its digits, most significant first, without
/// leading zeros (zero is the single digit `0`).
pub open spec fn decimal(n: nat) -> Seq<char>
    decreases n,
{
    if n < 10 {
        seq![digit_char(n)]
    } else {
        decimal(n / 10).push(digit_char(n % 10))
    }
}

/// The decimal text of a signed number: a `-` before the digits of its
/// magnitude when it is negative.
pub open spec fn signed_decimal(n: int) -> Seq<char> {
    if n < 0 {
        seq!['-'] + decimal((-n) as nat)
    } else {
        decimal(n as nat)
    }
}

/// Reads `d` left to right as the digits of an unsigned number whose
/// largest value is `max`. The first failure met wins: a character that is
/// not a digit gives `InvalidDigit`, a value above `max` gives
/// `PosOverflow`.
pub open spec fn scan_digits(d: Seq<char>, max: nat) -> Result<nat, IntErrorKind>
    decreases d.len(),
{
    if d.len() == 0 {
        Ok(0)
    } else {
        match scan_digits(d.drop_last(), max) {
            Ok(v) => if !is_digit_spec(d.last()) {
                Err(IntErrorKind::InvalidDigit)
            } else if v * 10 + digit_value(d.last()) > max {
                Err(IntErrorKind::PosOverflow)
            } else {
                Ok(v * 10 + digit_value(d.last()))
            },
            Err(e) => Err(e),
        }
    }
}

/// What reading `s` as an unsigned number whose largest value is `max`
/// gives, as `from_str` of the unsigned integer types reads it: an empty
/// text is `Empty`; one `+` may stand before the digits; a lone `+` is
/// `InvalidDigit`; otherwise the digits are read as `scan_digits` says.
pub open spec fn parse_unsigned_spec(s: Seq<char>, max: nat) -> Result<nat, IntErrorKind> {
    if s.len() == 0 {
        Err(IntErrorKind::Empty)
    } else {
        let d = if s[0] == '+' {
            s.drop_first()
        } else {
            s
        };
        if d.len() == 0 {
            Err(IntErrorKind::InvalidDigit)
        } else {
            scan_digits(d, max)
        }
    }
}

/// What reading `s` as a `usize` gives.
pub open spec fn parse_usize_spec(s: Seq<char>) -> Result<usize, IntErrorKind> {
    match parse_unsigned_spec(s, usize::MAX as nat) {
        Ok(v) => Ok(v as usize),
        Err(e) => Err(e),
    }
}

/// Once a prefix of the digits has failed, the whole text fails the same way.
pub proof fn lemma_scan_error_persists(d: Seq<char>, max: nat, k: int)
    requires
        0 <= k <= d.len(),
        scan_digits(d.take(k), max) is Err,
    ensures
        scan_digits(d, max) == scan_digits(d.take(k), max),
    decreases d.len() - k,
{
    if k < d.len() {
        assert(d.take(k + 1).drop_last() =~= d.take(k));
        lemma_scan_error_persists(d, max, k + 1);
    } else {
        assert(d.take(k) =~= d);
    }
}

/// The characters of a decimal text are digits (so there is no sign), and
/// the first is `0` only for zero itself.
pub proof fn lemma_decimal_shape(n: nat)
    ensures
        decimal(n).len() >= 1,
        forall|i: int| 0 <= i < decimal(n).len() ==> #[trigger] is_digit_spec(decimal(n)[i]),
        n != 0 ==> decimal(n)[0] != '0',
    decreases n,
{
    if n >= 10 {
        lemma_decimal_shape(n / 10);
        assert(decimal(n)[0] == decimal(n / 10)[0]);
    } else {
        assert(digit_char(n) as int == n + 48);
    }
}

/// Law: every decimal text that the library writes is read back, as an
/// unsigned number of any width that holds the value, as that very number.
pub proof fn lemma_decimal_roundtrip(n: nat, max: nat)
    requires
        n <= max,
    ensures
        scan_digits(decimal(n), max) == Ok::<nat, IntErrorKind>(n),
        parse_unsigned_spec(decimal(n), max) == Ok::<nat, IntErrorKind>(n),
    decreases n,
{
    lemma_decimal_shape(n);
    let d = decimal(n);
    let last: nat = n % 10;
    assert(digit_char(last) as int == last + 48);
    assert(digit_value(digit_char(last)) == last);
    assert(d.last() == digit_char(last));
    assert(is_digit_spec(d.last()));
    if n < 10 {
        assert(d.drop_last() =~= Seq::<char>::empty());
        assert(scan_digits(d.drop_last(), max) == Ok::<nat, IntErrorKind>(0));
        assert(last == n);
    } else {
        lemma_decimal_roundtrip(n / 10, max);
        assert(d.drop_last() =~= decimal(n / 10));
        assert((n / 10) * 10 + last == n);
    }
    assert(scan_digits(d, max) == Ok::<nat, IntErrorKind>(n));
    assert(is_digit_spec(d[0]));
    assert(d[0] != '+');
}

/// Law: the decimal text of any `u128` reads back as a `u128`, as
/// `u128::from_str` reads it, and has no sign and no leading zero.
pub proof fn lemma_u128_decimal_reads_back(n: u128)
    ensures
        parse_unsigned_spec(decimal(n as nat), u128::MAX as nat) == Ok::<nat, IntErrorKind>(
            n as nat,
        ),
        decimal(n as nat).len() >= 1,
        forall|i: int|
            0 <= i < decimal(n as nat).len() ==> #[trigger] is_digit_spec(decimal(n as nat)[i]),
        n != 0 ==> decimal(n as nat)[0] != '0',
{
    lemma_decimal_shape(n as nat);
    lemma_decimal_roundtrip(n as nat, u128::MAX as nat);
}

/// The value that `i32::from_str` gives for `s` when it succeeds, `None`
/// when it fails: an optional `+` or `-` before the digits, a lone sign is
/// not a number, and the value must lie in `i32::MIN ..= i32::MAX`.
pub open spec fn parse_i32_value(s: Seq<char>) -> Option<int> {
    if s.len() > 0 && s[0] == '-' {
        let d = s.drop_first();
        if d.len() == 0 {
            None
        } else {
            match scan_digits(d, 0x8000_0000nat) {
                Ok(v) => Some(-v),
                Err(_) => None,
            }
        }
    } else {
        match parse_unsigned_spec(s, i32::MAX as nat) {
            Ok(v) => Some(v as int),
            Err(_) => None,
        }
    }
}

/// Law: the signed decimal text of every `i32` reads back, as
/// `i32::from_str` reads it, as the same number; it starts with `-`
/// exactly when the number is negative, and a non-negative number is its
/// plain digits with no sign.
pub proof fn lemma_signed_decimal_reads_back(n: i32)
    ensures
        parse_i32_value(signed_decimal(n as int)) == Some(n as int),
        signed_decimal(n as int).len() >= 1,
        (signed_decimal(n as int)[0] == '-') <==> n < 0,
        n >= 0 ==> signed_decimal(n as int) == decimal(n as nat),
        n < 0 ==> signed_decimal(n as int).drop_first() == decimal((-n) as nat),
{
    let s = signed_decimal(n as int);
    if n < 0 {
        let m: nat = (-n) as nat;
        lemma_decimal_shape(m);
        lemma_decimal_roundtrip(m, 0x8000_0000nat);
        assert(s.drop_first() =~= decimal(m));
        assert(s[0] == '-');
    } else {
        lemma_decimal_shape(n as nat);
        lemma_decimal_roundtrip(n as nat, i32::MAX as nat);
        assert(is_digit_spec(s[0]));
        assert(s[0] != '-');
    }
}

/// The one-character text of a digit value.
fn digit_str(d: u8) -> (r: &'static str)
    requires
        d < 10,
    ensures
        r@ == seq![digit_char(d as nat)],
{
    if d == 0 {
        proof { reveal_strlit("0"); }
        "0"
    } else if d == 1 {
        proof { reveal_strlit("1"); }
        "1"
    } else if d == 2 {
        proof { reveal_strlit("2"); }
        "2"
    } else if d == 3 {
        proof { reveal_strlit("3"); }
        "3"
    } else if d == 4 {
        proof { reveal_strlit("4"); }
        "4"
    } else if d == 5 {
        proof { reveal_strlit("5"); }
        "5"
    } else if d == 6 {
        proof { reveal_strlit("6"); }
        "6"
    } else if d == 7 {
        proof { reveal_strlit("7"); }
        "7"
    } else if d == 8 {
        proof { reveal_strlit("8"); }
        "8"
    } else {
        proof { reveal_strlit("9"); }
        "9"
    }
}

/// Appends the decimal text of `n` to `out`.
pub fn push_decimal(out: &mut String, n: u128)
    ensures
        final(out)@ == old(out)@ + decimal(n as nat),
    decreases n,
{
    if n >= 10 {
        push_decimal(out, n / 10);
    }
    out.append(digit_str((n % 10) as u8));
    assert(out@ =~= old(out)@ + decimal(n as nat));
}

/// Appends the decimal text of a signed number to `out`.
pub fn push_signed_decimal(out: &mut String, n: i32)
    ensures
        final(out)@ == old(out)@ + signed_decimal(n as int),
{
    if n < 0 {
        out.append("-");
        proof { reveal_strlit("-"); }
        let magnitude: u128 = (0i64 - (n as i64)) as u128;
        push_decimal(out, magnitude);
        assert(out@ =~= old(out)@ + signed_decimal(n as int));
    } else {
        push_decimal(out, n as u128);
    }
}

/// Reads `s` as a `usize`, as `usize::from_str` does.
pub fn parse_usize(s: &str) -> (r: Result<usize, IntErrorKind>)
    ensures
        r == parse_usize_spec(s@),
{
    let len = s.unicode_len();
    if len == 0 {
        return Err(IntErrorKind::Empty);
    }
    let start: usize = if s.get_char(0) == '+' { 1 } else { 0 };
    let ghost d = if s@[0] == '+' { s@.drop_first() } else { s@ };
    assert(d =~= s@.subrange(start as int, len as int));
    if start == len {
        return Err(IntErrorKind::InvalidDigit);
    }
    let mut acc: usize = 0;
    let mut i: usize = start;
    assert(d.take(0) =~= Seq::<char>::empty());
    while i < len
        invariant
            start <= i <= len,
            len == s@.len(),
            start < len,
            d =~= s@.subrange(start as int, len as int),
            d == (if s@[0] == '+' { s@.drop_first() } else { s@ }),
            scan_digits(d.take(i - start), usize::MAX as nat) == Ok::<nat, IntErrorKind>(acc as nat),
        decreases len - i,
    {
        let c = s.get_char(i);
        let ghost k: int = i - start;
        assert(d.take(k + 1).drop_last() =~= d.take(k));
        assert(d.take(k + 1).last() == c);
        if !('0' <= c && c <= '9') {
            proof {
                lemma_scan_error_persists(d, usize::MAX as nat, k + 1);
            }
            return Err(IntErrorKind::InvalidDigit);
        }
        let digit: usize = ((c as u32) - 48) as usize;
        match acc.checked_mul(10) {
            Some(m) => match m.checked_add(digit) {
                Some(v) => {
                    acc = v;
                },
                None => {
                    proof { lemma_scan_error_persists(d, usize::MAX as nat, k + 1); }
                    return Err(IntErrorKind::PosOverflow);
                },
            },
            None => {
                proof { lemma_scan_error_persists(d, usize::MAX as nat, k + 1); }
                return Err(IntErrorKind::PosOverflow);
            },
        }
        i = i + 1;
    }
    assert(d.take((len - start) as int) =~= d);
    Ok(acc)
}

} // verus!
