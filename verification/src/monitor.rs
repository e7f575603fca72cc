//! Human-readable formatting for the health endpoint: byte counts scaled to
//! a unit with one decimal digit, and uptimes as days, hours and minutes.
//! The scaling is done in integer tenths, rounding half to even as a
//! one-decimal float display would.
use vstd::prelude::*;

use crate::text::dec_chars;
use crate::text::dec_digit;
use crate::text::dec_digit_char;
use crate::text::decimal_string;
use crate::text::push_char;

verus! {

/// The divisor of the unit a byte count is shown in: bytes, kibi, mebi or
/// gibi.
pub open spec fn byte_unit_div(b: int) -> int {
    if b < 1024 {
        1
    } else if b < 1048576 {
        1024
    } else if b < 1073741824 {
        1048576
    } else {
        1073741824
    }
}

/// The label of the unit a byte count is shown in.
pub open spec fn byte_unit_name(b: int) -> Seq<char> {
    if b < 1024 {
        "B"@
    } else if b < 1048576 {
        "KB"@
    } else if b < 1073741824 {
        "MB"@
    } else {
        "GB"@
    }
}

/// A byte count scaled to its unit in tenths, rounding half to even.
pub open spec fn byte_tenths(b: int) -> int {
    let d = byte_unit_div(b);
    let q = (10 * b) / d;
    let rem = (10 * b) % d;
    if 2 * rem > d {
        q + 1
    } else if 2 * rem < d {
        q
    } else if q % 2 == 0 {
        q
    } else {
        q + 1
    }
}

/// The text a byte count is shown as: the scaled value with one decimal
/// digit, a space, and the unit label.
pub open spec fn bytes_text(b: int) -> Seq<char> {
    dec_chars(byte_tenths(b) / 10) + seq!['.'] + seq![dec_digit(byte_tenths(b) % 10)] + seq![' ']
        + byte_unit_name(b)
}

/// The text an uptime in seconds is shown as: days, hours and minutes, with
/// the leading zero fields dropped.
pub open spec fn uptime_text(s: int) -> Seq<char> {
    let d = s / 86400;
    let h = (s % 86400) / 3600;
    let m = (s % 3600) / 60;
    if d > 0 {
        dec_chars(d) + "d "@ + dec_chars(h) + "h "@ + dec_chars(m) + "m"@
    } else if h > 0 {
        dec_chars(h) + "h "@ + dec_chars(m) + "m"@
    } else {
        dec_chars(m) + "m"@
    }
}

/// Formatting helpers for system monitoring output.
pub struct SystemMonitorService;

impl SystemMonitorService {
    /// Formats a byte count for humans: scaled to bytes, KB, MB or GB with
    /// one decimal digit.
    pub fn format_bytes(bytes: u64) -> (r: String)
        ensures
            r@ == bytes_text(bytes as int),
    {
        let b: u128 = bytes as u128;
        let d: u128 = if bytes < 1024 {
            1
        } else if bytes < 1048576 {
            1024
        } else if bytes < 1073741824 {
            1048576
        } else {
            1073741824
        };
        let unit: &'static str = if bytes < 1024 {
            "B"
        } else if bytes < 1048576 {
            "KB"
        } else if bytes < 1073741824 {
            "MB"
        } else {
            "GB"
        };
        let num: u128 = 10 * b;
        let q: u128 = num / d;
        let rem: u128 = num % d;
        let t: u128 = if 2 * rem > d {
            q + 1
        } else if 2 * rem < d {
            q
        } else if q % 2 == 0 {
            q
        } else {
            q + 1
        };
        proof {
            assert(t as int == byte_tenths(bytes as int));
            if d >= 1024 {
                let c = 10 * (u64::MAX as int) + 536870912;
                vstd::arithmetic::div_mod::lemma_div_is_ordered(num as int, c, d as int);
                vstd::arithmetic::div_mod::lemma_div_is_ordered_by_denominator(c, 1024, d as int);
                assert(q as int <= c / 1024);
            }
        }
        let whole = (t / 10) as u64;
        let frac = (t % 10) as u64;
        let mut s = decimal_string(whole);
        push_char(&mut s, '.');
        push_char(&mut s, dec_digit_char(frac));
        push_char(&mut s, ' ');
        s.append(unit);
        proof {
            assert(s@ =~= bytes_text(bytes as int));
        }
        s
    }

    /// Formats an uptime in seconds for humans: days, hours and minutes,
    /// dropping the leading zero fields.
    pub fn format_uptime(seconds: u64) -> (r: String)
        ensures
            r@ == uptime_text(seconds as int),
    {
        let days = seconds / 86400;
        let hours = (seconds % 86400) / 3600;
        let minutes = (seconds % 3600) / 60;
        if days > 0 {
            let mut s = decimal_string(days);
            s.append("d ");
            let h = decimal_string(hours);
            s.append(h.as_str());
            s.append("h ");
            let m = decimal_string(minutes);
            s.append(m.as_str());
            s.append("m");
            proof {
                assert(s@ =~= uptime_text(seconds as int));
            }
            s
        } else if hours > 0 {
            let mut s = decimal_string(hours);
            s.append("h ");
            let m = decimal_string(minutes);
            s.append(m.as_str());
            s.append("m");
            proof {
                assert(s@ =~= uptime_text(seconds as int));
            }
            s
        } else {
            let mut s = decimal_string(minutes);
            s.append("m");
            proof {
                assert(s@ =~= uptime_text(seconds as int));
            }
            s
        }
    }
}

} // verus!
