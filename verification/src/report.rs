//! The statistics snapshot and its JSON text.

use vstd::prelude::*;
use vstd::string::*;

verus! {

/// Aggregate figures over one time window.
#[derive(Debug, Clone, Copy, PartialEq, Eq)]
pub struct Statistics {
    pub downloads: i64,
    pub hits: i64,
    pub misses: i64,
    pub bandwidth_saved: i64,
}

/// The character that stands for the digit `d`.
pub open spec fn digit_char(d: int) -> char {
    if d == 0 {
        '0'
    } else if d == 1 {
        '1'
    } else if d == 2 {
        '2'
    } else if d == 3 {
        '3'
    } else if d == 4 {
        '4'
    } else if d == 5 {
        '5'
    } else if d == 6 {
        '6'
    } else if d == 7 {
        '7'
    } else if d == 8 {
        '8'
    } else {
        '9'
    }
}

/// Decimal digits of a natural number, most significant first, no leading zero.
pub open spec fn decimal_nat(n: nat) -> Seq<char>
    decreases n,
{
    if n < 10 {
        seq![digit_char(n as int)]
    } else {
        decimal_nat(n / 10) + seq![digit_char((n % 10) as int)]
    }
}

/// Decimal text of an integer: a minus sign for a negative one, then its digits.
pub open spec fn decimal(n: int) -> Seq<char> {
    if n < 0 {
        seq!['-'] + decimal_nat((-n) as nat)
    } else {
        decimal_nat(n as nat)
    }
}

/// The JSON object of a snapshot: four integer fields in a fixed order.
pub open spec fn json_text(s: Statistics) -> Seq<char> {
    "{\"downloads\": "@ + decimal(s.downloads as int) + ", \"hits\": "@ + decimal(s.hits as int)
        + ", \"misses\": "@ + decimal(s.misses as int) + ", \"bandwidth_saved\": "@ + decimal(
        s.bandwidth_saved as int,
    ) + "}"@
}

fn digit_text(d: u64) -> (t: &'static str)
    requires
        d < 10,
    ensures
        t@ == seq![digit_char(d as int)],
{
    proof {
        reveal_strlit("0");
        reveal_strlit("1");
        reveal_strlit("2");
        reveal_strlit("3");
        reveal_strlit("4");
        reveal_strlit("5");
        reveal_strlit("6");
        reveal_strlit("7");
        reveal_strlit("8");
        reveal_strlit("9");
    }
    let t = if d == 0 {
        "0"
    } else if d == 1 {
        "1"
    } else if d == 2 {
        "2"
    } else if d == 3 {
        "3"
    } else if d == 4 {
        "4"
    } else if d == 5 {
        "5"
    } else if d == 6 {
        "6"
    } else if d == 7 {
        "7"
    } else if d == 8 {
        "8"
    } else {
        "9"
    };
    assert(t@ =~= seq![digit_char(d as int)]);
    t
}

fn push_decimal_nat(out: &mut String, n: u64)
    ensures
        final(out)@ == old(out)@ + decimal_nat(n as nat),
    decreases n,
{
    if n >= 10 {
        push_decimal_nat(out, n / 10);
    }
    out.append(digit_text(n % 10));
    proof {
        let tail = seq![digit_char((n % 10) as int)];
        if n >= 10 {
            assert((old(out)@ + decimal_nat((n / 10) as nat)) + tail =~= old(out)@ + (decimal_nat(
                (n / 10) as nat,
            ) + tail));
        }
    }
}

/// Appends the decimal text of `n` to `out`.
pub fn push_decimal(out: &mut String, n: i64)
    ensures
        final(out)@ == old(out)@ + decimal(n as int),
{
    if n < 0 {
        out.append("-");
        let magnitude: u64 = if n == i64::MIN {
            9223372036854775808u64
        } else {
            (-n) as u64
        };
        push_decimal_nat(out, magnitude);
        proof {
            reveal_strlit("-");
            assert("-"@ =~= seq!['-']);
            assert((old(out)@ + seq!['-']) + decimal_nat(magnitude as nat) =~= old(out)@ + (
            seq!['-'] + decimal_nat(magnitude as nat)));
        }
    } else {
        push_decimal_nat(out, n as u64);
    }
}

impl Statistics {
    /// Builds a snapshot from the three figures that are counted; the misses
    /// are what is left of the downloads once the hits are taken away.
    pub fn from_counts(downloads: i32, hits: i32, bandwidth_saved: i64) -> (s: Statistics)
        ensures
            s.downloads == downloads,
            s.hits == hits,
            s.misses == downloads - hits,
            s.bandwidth_saved == bandwidth_saved,
            s.downloads == s.hits + s.misses,
    {
        let downloads: i64 = downloads as i64;
        let hits: i64 = hits as i64;
        Statistics { downloads, hits, misses: downloads - hits, bandwidth_saved }
    }

    /// The snapshot as a JSON object with the fields `downloads`, `hits`,
    /// `misses` and `bandwidth_saved`, each a plain decimal integer.
    pub fn as_json(&self) -> (text: String)
        ensures
            text@ == json_text(*self),
    {
        let mut out = String::new();
        out.append("{\"downloads\": ");
        push_decimal(&mut out, self.downloads);
        out.append(", \"hits\": ");
        push_decimal(&mut out, self.hits);
        out.append(", \"misses\": ");
        push_decimal(&mut out, self.misses);
        out.append(", \"bandwidth_saved\": ");
        push_decimal(&mut out, self.bandwidth_saved);
        out.append("}");
        assert(out@ =~= json_text(*self));
        out
    }
}

} // verus!
