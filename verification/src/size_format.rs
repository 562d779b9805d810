//! Human-readable file sizes in base-1024 units.
use vstd::prelude::*;
use vstd::string::StringExecFns;

use crate::text::push_char;

verus! {

/// The character for a single decimal digit.
pub open spec fn digit_char(d: int) -> char {
    (('0' as int) + d) as char
}

/// The decimal representation of `n`, most significant digit first,
/// with no leading zeros (a single `'0'` for zero itself).
pub open spec fn dec_digits(n: nat) -> Seq<char>
    decreases n,
{
    if n < 10 {
        seq![digit_char(n as int)]
    } else {
        dec_digits(n / 10) + seq![digit_char((n % 10) as int)]
    }
}

/// Appends the decimal digits of `n` to `s`.
fn push_dec(s: &mut String, n: u64)
    ensures
        final(s)@ == old(s)@ + dec_digits(n as nat),
    decreases n,
{
    if n >= 10 {
        push_dec(s, n / 10);
    }
    let d: u8 = (n % 10) as u8;
    push_char(s, (48 + d) as char);
    assert(s@ =~= old(s)@ + dec_digits(n as nat));
}

/// The unit a size is displayed in: 0 bytes, 1 kilobytes, 2 megabytes, 3 gigabytes.
pub open spec fn size_unit_index(size: u64) -> int {
    if size < 1024 {
        0
    } else if size < 1048576 {
        1
    } else if size < 1073741824 {
        2
    } else {
        3
    }
}

/// The number of bytes in one unit at index `i` (for `i >= 1`).
pub open spec fn unit_divisor(i: int) -> int {
    if i == 1 {
        1024
    } else if i == 2 {
        1048576
    } else {
        1073741824
    }
}

/// The suffix printed for unit index `i`.
pub open spec fn unit_name(i: int) -> Seq<char> {
    if i == 0 {
        "B"@
    } else if i == 1 {
        "KB"@
    } else if i == 2 {
        "MB"@
    } else {
        "GB"@
    }
}

/// `size * 10 / den` rounded to the nearest integer, ties to even.
pub open spec fn rounded_tenths(size: int, den: int) -> int {
    let num = size * 10;
    let q = num / den;
    let r = num % den;
    if 2 * r > den || (2 * r == den && q % 2 == 1) {
        q + 1
    } else {
        q
    }
}

/// What `format_file_size` returns: the plain byte count for sizes under
/// one kilobyte, otherwise the size in the largest unit it reaches, with
/// one decimal place.
pub open spec fn spec_format_file_size(size: u64) -> Seq<char> {
    let i = size_unit_index(size);
    if i == 0 {
        dec_digits(size as nat) + seq![' '] + "B"@
    } else {
        let t = rounded_tenths(size as int, unit_divisor(i));
        dec_digits((t / 10) as nat) + seq!['.', digit_char(t % 10), ' '] + unit_name(i)
    }
}

/// Format a byte count for humans: base-1024 units B/KB/MB/GB, the exact
/// integer for plain bytes, one decimal place (rounded to nearest, ties
/// to even) for the larger units.
pub fn format_file_size(size: u64) -> (r: String)
    ensures
        r@ == spec_format_file_size(size),
{
    let mut s = String::new();
    if size < 1024 {
        push_dec(&mut s, size);
        push_char(&mut s, ' ');
        s.append("B");
    } else {
        let den: u64 = if size < 1048576 {
            1024
        } else if size < 1073741824 {
            1048576
        } else {
            1073741824
        };
        let num: u128 = (size as u128) * 10;
        let q: u128 = num / (den as u128);
        let r128: u128 = num % (den as u128);
        proof {
            assert(q * (den as u128) <= num) by (nonlinear_arith)
                requires
                    q == num / (den as u128),
                    den >= 1024,
                    num >= 0,
            {
            }
            assert(q <= num / 1024) by (nonlinear_arith)
                requires
                    q * (den as u128) <= num,
                    den >= 1024,
                    q >= 0,
            {
            }
        }
        let t: u64 = if 2 * r128 > den as u128 || (2 * r128 == den as u128 && q % 2 == 1) {
            (q + 1) as u64
        } else {
            q as u64
        };
        assert(t as int == rounded_tenths(size as int, unit_divisor(size_unit_index(size))));
        push_dec(&mut s, t / 10);
        push_char(&mut s, '.');
        let d: u8 = (t % 10) as u8;
        push_char(&mut s, (48 + d) as char);
        push_char(&mut s, ' ');
        if size < 1048576 {
            s.append("KB");
        } else if size < 1073741824 {
            s.append("MB");
        } else {
            s.append("GB");
        }
        assert(s@ =~= spec_format_file_size(size));
    }
    s
}

} // verus!
