//! Human-readable rendering of byte counts and durations for the
//! analytics view.
//!
//! Sizes are scaled to the largest binary unit they reach and shown with
//! two decimals, rounding the exact quotient to the nearest hundredth and
//! ties to even; durations are broken into hours, minutes and seconds.

use vstd::prelude::*;
use vstd::string::StringExecFns;
use vstd::arithmetic::div_mod::lemma_fundamental_div_mod;
use vstd::arithmetic::div_mod::lemma_mod_bound;

verus! {

/// Bytes in one kibibyte.
pub const KB: u64 = 1024;

/// Bytes in one mebibyte.
pub const MB: u64 = 1024 * 1024;

/// Bytes in one gibibyte.
pub const GB: u64 = 1024 * 1024 * 1024;

/// The character for decimal digit `d`.
pub open spec fn spec_digit(d: nat) -> char {
    if d == 0 {
        '0'
    } else if d == 1 {
        '1'
    } else if d == 2 {
        '2'
    } else if d == 3 {
        '3'
    } else if d == 4 {
        '4'
    } else if d == 5 {
        '5'
    } else if d == 6 {
        '6'
    } else if d == 7 {
        '7'
    } else if d == 8 {
        '8'
    } else {
        '9'
    }
}

/// The decimal digits of `n`, most significant first, with no leading
/// zeroes (a single `'0'` for zero).
pub open spec fn spec_digits(n: nat) -> Seq<char>
    decreases n,
{
    if n < 10 {
        seq![spec_digit(n)]
    } else {
        spec_digits(n / 10).push(spec_digit(n % 10))
    }
}

fn push_digit(s: &mut String, d: u64)
    requires
        d < 10,
    ensures
        final(s)@ == old(s)@ + seq![spec_digit(d as nat)],
{
    if d == 0 {
        s.append("0");
        proof {
            reveal_strlit("0");
            assert("0"@ =~= seq![spec_digit(0nat)]);
        }
    } else if d == 1 {
        s.append("1");
        proof {
            reveal_strlit("1");
            assert("1"@ =~= seq![spec_digit(1nat)]);
        }
    } else if d == 2 {
        s.append("2");
        proof {
            reveal_strlit("2");
            assert("2"@ =~= seq![spec_digit(2nat)]);
        }
    } else if d == 3 {
        s.append("3");
        proof {
            reveal_strlit("3");
            assert("3"@ =~= seq![spec_digit(3nat)]);
        }
    } else if d == 4 {
        s.append("4");
        proof {
            reveal_strlit("4");
            assert("4"@ =~= seq![spec_digit(4nat)]);
        }
    } else if d == 5 {
        s.append("5");
        proof {
            reveal_strlit("5");
            assert("5"@ =~= seq![spec_digit(5nat)]);
        }
    } else if d == 6 {
        s.append("6");
        proof {
            reveal_strlit("6");
            assert("6"@ =~= seq![spec_digit(6nat)]);
        }
    } else if d == 7 {
        s.append("7");
        proof {
            reveal_strlit("7");
            assert("7"@ =~= seq![spec_digit(7nat)]);
        }
    } else if d == 8 {
        s.append("8");
        proof {
            reveal_strlit("8");
            assert("8"@ =~= seq![spec_digit(8nat)]);
        }
    } else {
        s.append("9");
        proof {
            reveal_strlit("9");
            assert("9"@ =~= seq![spec_digit(9nat)]);
        }
    }
}

/// Renders `n` in decimal.
pub fn u64_to_string(n: u64) -> (s: String)
    ensures
        s@ == spec_digits(n as nat),
    decreases n,
{
    if n < 10 {
        let mut s = String::new();
        push_digit(&mut s, n);
        assert(s@ =~= seq![spec_digit(n as nat)]);
        s
    } else {
        let mut s = u64_to_string(n / 10);
        push_digit(&mut s, n % 10);
        assert(s@ =~= spec_digits((n / 10) as nat).push(spec_digit((n % 10) as nat)));
        s
    }
}

/// The exact quotient `num / den`, rounded to the nearest integer with
/// ties going to the even neighbour.
pub open spec fn spec_round_half_even(num: int, den: int) -> int
    recommends
        den > 0,
{
    let q = num / den;
    let r = num % den;
    if 2 * r > den {
        q + 1
    } else if 2 * r < den {
        q
    } else if q % 2 == 0 {
        q
    } else {
        q + 1
    }
}

/// `bytes / unit` in hundredths, rounded half to even.
fn hundredths(bytes: u64, unit: u64) -> (h: u64)
    requires
        unit >= 1024,
    ensures
        h == spec_round_half_even(bytes as int * 100, unit as int),
{
    let num: u128 = (bytes as u128) * 100;
    let den: u128 = unit as u128;
    let q: u128 = num / den;
    let r: u128 = num % den;
    proof {
        let ni = num as int;
        let di = den as int;
        lemma_fundamental_div_mod(ni, di);
        lemma_mod_bound(ni, di);
        assert(ni == di * (ni / di) + ni % di);
        assert(di * (q as int) <= ni);
        assert((q as int) * 1024 <= ni) by (nonlinear_arith)
            requires
                (q as int) >= 0,
                di >= 1024,
                di * (q as int) <= ni,
        ;
    }
    let h: u128 = if 2 * r > den {
        q + 1
    } else if 2 * r < den {
        q
    } else if q % 2 == 0 {
        q
    } else {
        q + 1
    };
    h as u64
}

/// A nonnegative count of hundredths as `"w.ff"`.
pub open spec fn spec_two_decimals(h: int) -> Seq<char>
    recommends
        h >= 0,
{
    spec_digits((h / 100) as nat) + seq![
        '.',
        spec_digit(((h % 100) / 10) as nat),
        spec_digit((h % 10) as nat),
    ]
}

fn two_decimals(h: u64) -> (s: String)
    ensures
        s@ == spec_two_decimals(h as int),
{
    let mut s = u64_to_string(h / 100);
    s.append(".");
    push_digit(&mut s, (h % 100) / 10);
    push_digit(&mut s, h % 10);
    proof {
        reveal_strlit(".");
        assert("."@ =~= seq!['.']);
        assert(s@ =~= spec_two_decimals(h as int));
    }
    s
}

/// How a byte count is rendered: scaled to the largest binary unit it
/// reaches, with two decimals, or as a plain count below one kibibyte.
pub open spec fn spec_format_data_size(bytes: nat) -> Seq<char> {
    if bytes >= GB {
        spec_two_decimals(spec_round_half_even(bytes as int * 100, GB as int)) + " GB"@
    } else if bytes >= MB {
        spec_two_decimals(spec_round_half_even(bytes as int * 100, MB as int)) + " MB"@
    } else if bytes >= KB {
        spec_two_decimals(spec_round_half_even(bytes as int * 100, KB as int)) + " KB"@
    } else {
        spec_digits(bytes) + " B"@
    }
}

/// Renders a byte count for display, scaled to GB, MB, KB or plain bytes.
pub fn format_data_size(bytes: u64) -> (text: String)
    ensures
        text@ == spec_format_data_size(bytes as nat),
{
    if bytes >= GB {
        let h = hundredths(bytes, GB);
        let mut s = two_decimals(h);
        s.append(" GB");
        s
    } else if bytes >= MB {
        let h = hundredths(bytes, MB);
        let mut s = two_decimals(h);
        s.append(" MB");
        s
    } else if bytes >= KB {
        let h = hundredths(bytes, KB);
        let mut s = two_decimals(h);
        s.append(" KB");
        s
    } else {
        let mut s = u64_to_string(bytes);
        s.append(" B");
        s
    }
}

/// How a duration in seconds is rendered: hours, minutes and seconds,
/// dropping the leading parts that are zero, and `"~1s"` below one second.
pub open spec fn spec_format_duration(d: nat) -> Seq<char> {
    if d >= 3600 {
        spec_digits(d / 3600) + "h "@ + spec_digits((d % 3600) / 60) + "m "@ + spec_digits(d % 60)
            + "s"@
    } else if d >= 60 {
        spec_digits(d / 60) + "m "@ + spec_digits(d % 60) + "s"@
    } else if d >= 1 {
        spec_digits(d) + "s"@
    } else {
        "~1s"@
    }
}

/// Renders a duration in seconds for display.
pub fn format_duration(duration: u64) -> (text: String)
    ensures
        text@ == spec_format_duration(duration as nat),
{
    if duration >= 3600 {
        let mut s = u64_to_string(duration / 3600);
        s.append("h ");
        let minutes = u64_to_string((duration % 3600) / 60);
        s.append(minutes.as_str());
        s.append("m ");
        let seconds = u64_to_string(duration % 60);
        s.append(seconds.as_str());
        s.append("s");
        s
    } else if duration >= 60 {
        let mut s = u64_to_string(duration / 60);
        s.append("m ");
        let seconds = u64_to_string(duration % 60);
        s.append(seconds.as_str());
        s.append("s");
        s
    } else if duration >= 1 {
        let mut s = u64_to_string(duration);
        s.append("s");
        s
    } else {
        String::from_str("~1s")
    }
}

} // verus!
