//! Text formatting for the dashboard.
//!
//! Every figure is formatted from integers: percentages are carried in
//! hundredths of a percent, byte counts are turned into hundredths of a
//! gigabyte or megabyte by rounded division (round half up, the one rounding
//! rule used throughout the crate), and all numbers are printed in decimal
//! with exactly two digits after the point where a unit asks for them.

use vstd::arithmetic::div_mod::{
    lemma_div_is_ordered, lemma_fundamental_div_mod, lemma_fundamental_div_mod_converse_div,
};
use vstd::prelude::*;
use vstd::string::StringExecFns;

verus! {

/// Decimal digit as a character; meaningful for 0 through 9.
pub open spec fn spec_digit_char(d: int) -> char {
    if d == 0 {
        '0'
    } else if d == 1 {
        '1'
    } else if d == 2 {
        '2'
    } else if d == 3 {
        '3'
    } else if d == 4 {
        '4'
    } else if d == 5 {
        '5'
    } else if d == 6 {
        '6'
    } else if d == 7 {
        '7'
    } else if d == 8 {
        '8'
    } else {
        '9'
    }
}

/// Decimal representation of a non-negative integer, most significant
/// digit first, without leading zeros (a lone `0` for zero).
pub open spec fn spec_dec(n: int) -> Seq<char>
    recommends
        n >= 0,
    decreases n,
{
    if n < 10 {
        seq![spec_digit_char(n)]
    } else {
        spec_dec(n / 10).push(spec_digit_char(n % 10))
    }
}

/// Exactly two decimal digits, leading zero included; meaningful for 0
/// through 99.
pub open spec fn spec_two_digits(n: int) -> Seq<char> {
    seq![spec_digit_char(n / 10), spec_digit_char(n % 10)]
}

/// A count of hundredths written with two digits after the decimal point:
/// `1600` becomes `16.00`.
pub open spec fn spec_centi(c: int) -> Seq<char> {
    spec_dec(c / 100) + seq!['.'] + spec_two_digits(c % 100)
}

/// A percentage in hundredths of a percent, with the percent sign.
pub open spec fn spec_percent_string(c: int) -> Seq<char> {
    spec_centi(c) + seq!['%']
}

/// Rounded division into hundredths of a unit: `centi_unit` is the number
/// of base elements in one hundredth of the display unit, and the result
/// rounds half up.
pub open spec fn spec_round_to_centi(amount: int, centi_unit: int) -> int
    recommends
        centi_unit >= 2,
{
    (amount + centi_unit / 2) / centi_unit
}

/// Byte count in decimal gigabytes, two decimals: one hundredth of a
/// gigabyte is 10\^7 bytes.
pub open spec fn spec_gb_string(bytes: int) -> Seq<char> {
    spec_centi(spec_round_to_centi(bytes, 10_000_000)) + " GB"@
}

/// Byte count in decimal megabytes, two decimals: one hundredth of a
/// megabyte is 10\^4 bytes.
pub open spec fn spec_mb_string(bytes: int) -> Seq<char> {
    spec_centi(spec_round_to_centi(bytes, 10_000)) + " MB"@
}

/// Share of `used` in `total` as a percentage in hundredths, rounded half
/// up; zero when the total is zero.
pub open spec fn spec_percent_centi(used: int, total: int) -> int {
    if total <= 0 {
        0
    } else {
        (used * 10000 + total / 2) / total
    }
}

/// Marker shown in place of an identity field the host did not report.
pub open spec fn spec_unavailable() -> Seq<char> {
    "unavailable"@
}

/// Effective user and group ids as one field: `uid/gid` when both are
/// present, the absent side replaced by `N/A`, and a bare `N/A` when
/// neither is present.
pub open spec fn spec_ids_string(euid: Option<u64>, egid: Option<u64>) -> Seq<char> {
    match (euid, egid) {
        (Some(u), Some(g)) => spec_dec(u as int) + "/"@ + spec_dec(g as int),
        (Some(u), None) => spec_dec(u as int) + " / N/A"@,
        (None, Some(g)) => "N/A / "@ + spec_dec(g as int),
        (None, None) => "N/A"@,
    }
}

/// Which of the two effective ids a process reports.
#[derive(Clone, Copy, Debug, PartialEq, Eq, Structural)]
pub enum IdPresence {
    Both(u64, u64),
    UserOnly(u64),
    GroupOnly(u64),
    Neither,
}

/// The four id display cases as a tagged value, decided once per process.
pub open spec fn spec_id_presence(euid: Option<u64>, egid: Option<u64>) -> IdPresence {
    match (euid, egid) {
        (Some(u), Some(g)) => IdPresence::Both(u, g),
        (Some(u), None) => IdPresence::UserOnly(u),
        (None, Some(g)) => IdPresence::GroupOnly(g),
        (None, None) => IdPresence::Neither,
    }
}

fn push_digit(s: &mut String, d: u64)
    requires
        d < 10,
    ensures
        final(s)@ == old(s)@.push(spec_digit_char(d as int)),
{
    match d {
        0 => {
            proof {
                reveal_strlit("0");
            }
            s.append("0");
        },
        1 => {
            proof {
                reveal_strlit("1");
            }
            s.append("1");
        },
        2 => {
            proof {
                reveal_strlit("2");
            }
            s.append("2");
        },
        3 => {
            proof {
                reveal_strlit("3");
            }
            s.append("3");
        },
        4 => {
            proof {
                reveal_strlit("4");
            }
            s.append("4");
        },
        5 => {
            proof {
                reveal_strlit("5");
            }
            s.append("5");
        },
        6 => {
            proof {
                reveal_strlit("6");
            }
            s.append("6");
        },
        7 => {
            proof {
                reveal_strlit("7");
            }
            s.append("7");
        },
        8 => {
            proof {
                reveal_strlit("8");
            }
            s.append("8");
        },
        _ => {
            proof {
                reveal_strlit("9");
            }
            s.append("9");
        },
    }
    proof {
        assert(s@ =~= old(s)@.push(spec_digit_char(d as int)));
    }
}

/// Decimal text of an unsigned number.
pub fn u64_to_string(n: u64) -> (s: String)
    ensures
        s@ == spec_dec(n as int),
    decreases n,
{
    if n < 10 {
        let mut s = String::new();
        push_digit(&mut s, n);
        proof {
            assert(s@ =~= spec_dec(n as int));
        }
        s
    } else {
        let mut s = u64_to_string(n / 10);
        push_digit(&mut s, n % 10);
        s
    }
}

fn push_two_digits(s: &mut String, n: u64)
    requires
        n < 100,
    ensures
        final(s)@ == old(s)@ + spec_two_digits(n as int),
{
    push_digit(s, n / 10);
    push_digit(s, n % 10);
    proof {
        assert(s@ =~= old(s)@ + spec_two_digits(n as int));
    }
}

/// A count of hundredths as text with two digits after the point.
pub fn format_centi(c: u64) -> (s: String)
    ensures
        s@ == spec_centi(c as int),
{
    let mut s = u64_to_string(c / 100);
    proof {
        reveal_strlit(".");
    }
    s.append(".");
    push_two_digits(&mut s, c % 100);
    proof {
        assert(s@ =~= spec_centi(c as int));
    }
    s
}

/// A percentage in hundredths of a percent as text, percent sign included.
pub fn format_percent(c: u64) -> (s: String)
    ensures
        s@ == spec_percent_string(c as int),
{
    let mut s = format_centi(c);
    proof {
        reveal_strlit("%");
    }
    s.append("%");
    proof {
        assert(s@ =~= spec_percent_string(c as int));
    }
    s
}

/// Hundredths of a display unit in `amount` base elements, rounded half
/// up; `centi_unit` is the number of base elements per hundredth.
pub fn round_to_centi(amount: u64, centi_unit: u64) -> (r: u64)
    requires
        2 <= centi_unit,
        centi_unit % 2 == 0,
    ensures
        r == spec_round_to_centi(amount as int, centi_unit as int),
{
    let q = amount / centi_unit;
    let rem = amount % centi_unit;
    let half = centi_unit / 2;
    proof {
        lemma_fundamental_div_mod(amount as int, centi_unit as int);
    }
    if rem >= half {
        proof {
            let u = centi_unit as int;
            let h = u / 2;
            assert(2 * h == u);
            assert(amount as int == u * (q as int) + rem);
            assert((q as int + 1) * u == u * (q as int) + u) by (nonlinear_arith);
            assert(amount + h == (q as int + 1) * u + (rem + h - u));
            assert(0 <= rem + h - u < u);
            lemma_fundamental_div_mod_converse_div(
                amount as int + h,
                u,
                q as int + 1,
                rem + h - u,
            );
            assert(2 * (q as int) <= amount) by (nonlinear_arith)
                requires
                    q as int * u + rem == amount && 0 <= rem && 2 <= u && 0 <= q as int,
            ;
        }
        q + 1
    } else {
        proof {
            let u = centi_unit as int;
            let h = u / 2;
            assert(2 * h == u);
            assert(0 <= rem + h < u);
            lemma_fundamental_div_mod_converse_div(amount as int + h, u, q as int, rem + h);
        }
        q
    }
}

/// Byte count as decimal gigabytes with two decimals.
pub fn format_gb(bytes: u64) -> (s: String)
    ensures
        s@ == spec_gb_string(bytes as int),
{
    let mut s = format_centi(round_to_centi(bytes, 10_000_000));
    proof {
        reveal_strlit(" GB");
    }
    s.append(" GB");
    proof {
        assert(s@ =~= spec_gb_string(bytes as int));
    }
    s
}

/// Byte count as decimal megabytes with two decimals.
pub fn format_mb(bytes: u64) -> (s: String)
    ensures
        s@ == spec_mb_string(bytes as int),
{
    let mut s = format_centi(round_to_centi(bytes, 10_000));
    proof {
        reveal_strlit(" MB");
    }
    s.append(" MB");
    proof {
        assert(s@ =~= spec_mb_string(bytes as int));
    }
    s
}

/// Share of `used` in `total`, in hundredths of a percent, rounded half up.
pub fn percent_centi(used: u64, total: u64) -> (r: u64)
    requires
        used <= total,
    ensures
        r == spec_percent_centi(used as int, total as int),
        r <= 10000,
{
    if total == 0 {
        0
    } else {
        let wide: u128 = (used as u128) * 10000 + (total as u128) / 2;
        let q: u128 = wide / (total as u128);
        proof {
            let t = total as int;
            let w = used as int * 10000 + t / 2;
            assert(w <= t * 10000 + t / 2) by (nonlinear_arith)
                requires
                    used as int <= t && t > 0 && w == used as int * 10000 + t / 2,
            ;
            lemma_div_is_ordered(w, t * 10000 + t / 2, t);
            assert((t * 10000 + t / 2) / t == 10000) by {
                lemma_fundamental_div_mod_converse_div(t * 10000 + t / 2, t, 10000, t / 2);
            }
        }
        q as u64
    }
}

/// Text of an optional field: the value when present, the unavailable
/// marker otherwise.
pub open spec fn spec_opt_text(v: Option<String>) -> Seq<char> {
    match v {
        Some(t) => t@,
        None => spec_unavailable(),
    }
}

/// Text of an optional identity field: the value when present, the
/// unavailable marker otherwise.
pub fn opt_text(v: &Option<String>) -> (s: String)
    ensures
        s@ == spec_opt_text(*v),
{
    match v {
        Some(t) => t.clone(),
        None => String::from_str("unavailable"),
    }
}

/// The id display case for one process.
pub fn id_presence(euid: Option<u64>, egid: Option<u64>) -> (p: IdPresence)
    ensures
        p == spec_id_presence(euid, egid),
{
    match (euid, egid) {
        (Some(u), Some(g)) => IdPresence::Both(u, g),
        (Some(u), None) => IdPresence::UserOnly(u),
        (None, Some(g)) => IdPresence::GroupOnly(g),
        (None, None) => IdPresence::Neither,
    }
}

/// Effective user and group ids as one display field.
pub fn format_ids(euid: Option<u64>, egid: Option<u64>) -> (s: String)
    ensures
        s@ == spec_ids_string(euid, egid),
{
    match id_presence(euid, egid) {
        IdPresence::Both(u, g) => {
            let mut s = u64_to_string(u);
            proof {
                reveal_strlit("/");
            }
            s.append("/");
            let g_text = u64_to_string(g);
            s.append(g_text.as_str());
            proof {
                assert(s@ =~= spec_ids_string(euid, egid));
            }
            s
        },
        IdPresence::UserOnly(u) => {
            let mut s = u64_to_string(u);
            s.append(" / N/A");
            proof {
                assert(s@ =~= spec_ids_string(euid, egid));
            }
            s
        },
        IdPresence::GroupOnly(g) => {
            let mut s = String::from_str("N/A / ");
            let g_text = u64_to_string(g);
            s.append(g_text.as_str());
            proof {
                assert(s@ =~= spec_ids_string(euid, egid));
            }
            s
        },
        IdPresence::Neither => String::from_str("N/A"),
    }
}

} // verus!
