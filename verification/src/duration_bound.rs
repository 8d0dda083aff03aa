//! An upper bound, in nanoseconds, on the span that a duration text such as
//! `1h 30m` or `2.5s` denotes: each number times its unit, plus one unit for
//! a number with a fractional part.

use vstd::prelude::*;

use crate::text::{chars_of, is_white_space, range_is};

verus! {

/// The length in nanoseconds of the unit named `w`; zero for a word that
/// names no unit.
pub open spec fn unit_nanos(w: Seq<char>) -> nat {
    if w == "nanos"@ || w == "nsec"@ || w == "ns"@ {
        1
    } else if w == "usec"@ || w == "us"@ || w == "µs"@ {
        1_000
    } else if w == "millis"@ || w == "msec"@ || w == "ms"@ {
        1_000_000
    } else if w == "seconds"@ || w == "second"@ || w == "secs"@ || w == "sec"@ || w == "s"@ {
        1_000_000_000
    } else if w == "minutes"@ || w == "minute"@ || w == "min"@ || w == "mins"@ || w == "m"@ {
        60_000_000_000
    } else if w == "hours"@ || w == "hour"@ || w == "hr"@ || w == "hrs"@ || w == "h"@ {
        3_600_000_000_000
    } else if w == "days"@ || w == "day"@ || w == "d"@ {
        86_400_000_000_000
    } else if w == "weeks"@ || w == "week"@ || w == "wk"@ || w == "wks"@ || w == "w"@ {
        604_800_000_000_000
    } else if w == "months"@ || w == "month"@ || w == "M"@ {
        2_630_016_000_000_000
    } else if w == "years"@ || w == "year"@ || w == "yr"@ || w == "yrs"@ || w == "y"@ {
        31_557_600_000_000_000
    } else {
        0
    }
}

/// Whether `c` belongs to a number: a digit, white space or the decimal point.
pub open spec fn is_number_char(c: char) -> bool {
    ('0' <= c <= '9') || is_white_space(c) || c == '.'
}

/// Whether `c` belongs to a unit word.
pub open spec fn is_unit_char(c: char) -> bool {
    ('a' <= c <= 'z') || ('A' <= c <= 'Z') || c == 'µ'
}

/// Where a scan of a duration text stands after some of its characters.
pub struct DurationScan {
    /// The bound of the spans already closed.
    pub total: nat,
    /// The whole part of the current number.
    pub number: nat,
    /// Whether the current number has a fractional part.
    pub fraction: bool,
    /// Whether the scan is inside a unit word.
    pub in_word: bool,
    /// The unit word read so far.
    pub word: Seq<char>,
}

/// The bound of the current span: its whole part times its unit (nothing
/// when the whole part exceeds the largest 64-bit number, on which the parse
/// stops with an error), plus one unit for a fractional part.
pub open spec fn span_bound(st: DurationScan) -> nat {
    (if st.number <= u64::MAX {
        st.number * unit_nanos(st.word)
    } else {
        0
    }) + (if st.fraction {
        unit_nanos(st.word)
    } else {
        0
    })
}

/// The scan with no number and no word under way, and with the current span
/// added to the total when a word was being read.
pub open spec fn closed(st: DurationScan) -> DurationScan {
    DurationScan {
        total: if st.in_word {
            st.total + span_bound(st)
        } else {
            st.total
        },
        number: 0,
        fraction: false,
        in_word: false,
        word: Seq::empty(),
    }
}

/// The scan after one more character `c`.
pub open spec fn scan_step(st: DurationScan, c: char) -> DurationScan {
    if is_number_char(c) {
        let s = if st.in_word {
            closed(st)
        } else {
            st
        };
        if '0' <= c <= '9' {
            if s.fraction {
                s
            } else {
                DurationScan { number: s.number * 10 + (c as int - 48) as nat, ..s }
            }
        } else if c == '.' {
            DurationScan { fraction: true, ..s }
        } else {
            s
        }
    } else if is_unit_char(c) {
        if st.in_word {
            DurationScan { word: st.word.push(c), ..st }
        } else {
            DurationScan { in_word: true, word: seq![c], ..st }
        }
    } else {
        closed(st)
    }
}

/// The scan of the whole text `s`.
pub open spec fn scan(s: Seq<char>) -> DurationScan
    decreases s.len(),
{
    if s.len() == 0 {
        DurationScan { total: 0, number: 0, fraction: false, in_word: false, word: Seq::empty() }
    } else {
        scan_step(scan(s.drop_last()), s.last())
    }
}

/// The bound, in nanoseconds, on the span that the text `s` denotes.
pub open spec fn duration_bound(s: Seq<char>) -> nat {
    closed(scan(s)).total
}

/// The largest number of nanoseconds in a span of time: the largest second
/// count and 999999999 nanoseconds.
pub const MAX_SPAN_NANOS: u128 = 18_446_744_073_709_551_615_999_999_999;

/// Whether the span that the text `s` denotes, by its bound, fits in a span
/// of time.
pub open spec fn duration_fits(s: Seq<char>) -> bool {
    duration_bound(s) <= MAX_SPAN_NANOS
}

proof fn lemma_scan_total_grows(s: Seq<char>, i: int)
    requires
        0 <= i <= s.len(),
    ensures
        scan(s.take(i)).total <= scan(s).total,
    decreases s.len(),
{
    if i < s.len() {
        assert(s.drop_last().take(i) =~= s.take(i));
        lemma_scan_total_grows(s.drop_last(), i);
    } else {
        assert(s.take(i) =~= s);
    }
}

/// The length in nanoseconds of the unit named by `v` from `lo` up to `hi`.
fn unit_nanos_of(v: &Vec<char>, lo: usize, hi: usize) -> (n: u128)
    requires
        lo <= hi <= v@.len(),
    ensures
        n == unit_nanos(v@.subrange(lo as int, hi as int)),
        n <= 31_557_600_000_000_000,
{
    if range_is(v, lo, hi, "nanos") || range_is(v, lo, hi, "nsec") || range_is(v, lo, hi, "ns") {
        1
    } else if range_is(v, lo, hi, "usec") || range_is(v, lo, hi, "us") || range_is(v, lo, hi, "µs") {
        1_000
    } else if range_is(v, lo, hi, "millis") || range_is(v, lo, hi, "msec") || range_is(v, lo, hi, "ms") {
        1_000_000
    } else if range_is(v, lo, hi, "seconds") || range_is(v, lo, hi, "second") || range_is(v, lo, hi, "secs")
        || range_is(v, lo, hi, "sec") || range_is(v, lo, hi, "s") {
        1_000_000_000
    } else if range_is(v, lo, hi, "minutes") || range_is(v, lo, hi, "minute") || range_is(v, lo, hi, "min")
        || range_is(v, lo, hi, "mins") || range_is(v, lo, hi, "m") {
        60_000_000_000
    } else if range_is(v, lo, hi, "hours") || range_is(v, lo, hi, "hour") || range_is(v, lo, hi, "hr")
        || range_is(v, lo, hi, "hrs") || range_is(v, lo, hi, "h") {
        3_600_000_000_000
    } else if range_is(v, lo, hi, "days") || range_is(v, lo, hi, "day") || range_is(v, lo, hi, "d") {
        86_400_000_000_000
    } else if range_is(v, lo, hi, "weeks") || range_is(v, lo, hi, "week") || range_is(v, lo, hi, "wk")
        || range_is(v, lo, hi, "wks") || range_is(v, lo, hi, "w") {
        604_800_000_000_000
    } else if range_is(v, lo, hi, "months") || range_is(v, lo, hi, "month") || range_is(v, lo, hi, "M") {
        2_630_016_000_000_000
    } else if range_is(v, lo, hi, "years") || range_is(v, lo, hi, "year") || range_is(v, lo, hi, "yr")
        || range_is(v, lo, hi, "yrs") || range_is(v, lo, hi, "y") {
        31_557_600_000_000_000
    } else {
        0
    }
}

/// The bound of the current span, from its parts.
fn span_bound_of(number: u64, big: bool, fraction: bool, unit: u128) -> (b: u128)
    requires
        unit <= 31_557_600_000_000_000,
    ensures
        b == (if big {
            0
        } else {
            number * unit
        }) + (if fraction {
            unit
        } else {
            0
        }),
        b <= 600_000_000_000_000_000_000_000_000_000_000_000,
{
    let whole: u128 = if big {
        0
    } else {
        assert(number * unit <= 18_446_744_073_709_551_615 * 31_557_600_000_000_000) by (nonlinear_arith)
            requires
                number <= 18_446_744_073_709_551_615,
                unit <= 31_557_600_000_000_000,
        ;
        (number as u128) * unit
    };
    if fraction {
        whole + unit
    } else {
        whole
    }
}

/// Whether the span that the text `s` denotes, by its bound, fits in a span
/// of time.
pub fn duration_fits_in(s: &str) -> (b: bool)
    ensures
        b == duration_fits(s@),
{
    let v = chars_of(s);
    let mut total: u128 = 0;
    let mut number: u64 = 0;
    let mut big = false;
    let mut fraction = false;
    let mut in_word = false;
    let mut word_start: usize = 0;
    let mut i: usize = 0;
    while i < v.len()
        invariant
            0 <= i <= v@.len(),
            v@ == s@,
            scan(v@.take(i as int)).total == total,
            total <= MAX_SPAN_NANOS,
            (scan(v@.take(i as int)).number > u64::MAX) == big,
            !big ==> scan(v@.take(i as int)).number == number,
            scan(v@.take(i as int)).fraction == fraction,
            scan(v@.take(i as int)).in_word == in_word,
            in_word ==> word_start <= i && scan(v@.take(i as int)).word == v@.subrange(
                word_start as int,
                i as int,
            ),
        decreases v@.len() - i,
    {
        let ghost before = scan(v@.take(i as int));
        let c = v[i];
        assert(v@.take(i + 1).drop_last() =~= v@.take(i as int));
        assert(v@.take(i + 1).last() == c);
        let number_char = ('0' <= c && c <= '9') || crate::text::char_is_white_space(c) || c == '.';
        let unit_char = ('a' <= c && c <= 'z') || ('A' <= c && c <= 'Z') || c == 'µ';
        if number_char || !unit_char {
            if in_word {
                let unit = unit_nanos_of(&v, word_start, i);
                let b = span_bound_of(number, big, fraction, unit);
                total = total + b;
                number = 0;
                big = false;
                fraction = false;
                in_word = false;
                if total > MAX_SPAN_NANOS {
                    proof {
                        lemma_scan_total_grows(v@, i + 1);
                        assert(closed(scan(v@)).total >= scan(v@).total);
                    }
                    return false;
                }
            } else if !number_char {
                number = 0;
                big = false;
                fraction = false;
            }
            if '0' <= c && c <= '9' {
                if !fraction {
                    let d: u64 = (c as u32 - 48) as u64;
                    if big || number > 1_844_674_407_370_955_161 || (number == 1_844_674_407_370_955_161
                        && d > 5) {
                        big = true;
                    } else {
                        number = number * 10 + d;
                    }
                }
            } else if c == '.' {
                fraction = true;
            }
        } else {
            if !in_word {
                in_word = true;
                word_start = i;
            }
        }
        proof {
            let after = scan(v@.take(i + 1));
            assert(after == scan_step(before, c));
            if in_word {
                assert(after.word =~= v@.subrange(word_start as int, i + 1));
            }
        }
        i = i + 1;
    }
    assert(v@.take(v@.len() as int) =~= v@);
    if in_word {
        let unit = unit_nanos_of(&v, word_start, i);
        let b = span_bound_of(number, big, fraction, unit);
        total + b <= MAX_SPAN_NANOS
    } else {
        true
    }
}

} // verus!
