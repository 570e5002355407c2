//! Media time: nanosecond clock values and their `mm:ss` rendering.

use vstd::prelude::*;
use vstd::string::*;

verus! {

/// Nanoseconds in one second.
pub const NANOS_PER_SECOND: u64 = 1_000_000_000;

/// A position on the media clock, or a length of media, in nanoseconds.
///
/// The pipeline reserves the all-ones value for "no time"; a `ClockTime`
/// never holds it.
#[derive(Clone, Copy, Debug, PartialEq, Eq)]
pub struct ClockTime {
    nanos: u64,
}

impl View for ClockTime {
    type V = nat;

    closed spec fn view(&self) -> nat {
        self.nanos as nat
    }
}

impl ClockTime {
    #[verifier::type_invariant]
    spec fn not_reserved(self) -> bool {
        self.nanos < u64::MAX
    }

    /// The start of the media.
    pub fn zero() -> (t: ClockTime)
        ensures
            t@ == 0,
    {
        ClockTime { nanos: 0 }
    }

    /// The clock value `nanos` nanoseconds after the start.
    pub fn from_nseconds(nanos: u64) -> (t: ClockTime)
        requires
            nanos != u64::MAX,
        ensures
            t@ == nanos,
    {
        ClockTime { nanos }
    }

    /// The clock value `nanos` nanoseconds after the start, or `None` for the
    /// reserved value.
    pub fn checked_from_nseconds(nanos: u64) -> (t: Option<ClockTime>)
        ensures
            nanos == u64::MAX <==> t is None,
            t matches Some(time) ==> time@ == nanos,
    {
        if nanos == u64::MAX {
            None
        } else {
            Some(ClockTime::from_nseconds(nanos))
        }
    }

    /// Nanoseconds since the start.
    pub fn nseconds(self) -> (nanos: u64)
        ensures
            nanos == self@,
            nanos < u64::MAX,
    {
        proof {
            use_type_invariant(self);
        }
        self.nanos
    }

    /// Whole seconds since the start.
    pub fn seconds(self) -> (secs: u64)
        ensures
            secs == self@ / (NANOS_PER_SECOND as nat),
    {
        self.nanos / NANOS_PER_SECOND
    }
}

/// The nanosecond count of a clock value that may be unknown.
pub open spec fn nanos_of(time: Option<ClockTime>) -> Option<nat> {
    match time {
        Some(t) => Some(t@),
        None => None,
    }
}

/// The character that writes the decimal digit `d`.
pub open spec fn digit_char(d: nat) -> char {
    if d == 0 {
        '0'
    } else if d == 1 {
        '1'
    } else if d == 2 {
        '2'
    } else if d == 3 {
        '3'
    } else if d == 4 {
        '4'
    } else if d == 5 {
        '5'
    } else if d == 6 {
        '6'
    } else if d == 7 {
        '7'
    } else if d == 8 {
        '8'
    } else {
        '9'
    }
}

/// `n` in decimal, most significant digit first, without leading zeros.
pub open spec fn decimal(n: nat) -> Seq<char>
    decreases n,
{
    if n < 10 {
        seq![digit_char(n)]
    } else {
        decimal(n / 10).push(digit_char(n % 10))
    }
}

/// `n` in decimal, with a leading zero where it has a single digit.
pub open spec fn two_digits(n: nat) -> Seq<char> {
    if n < 10 {
        seq!['0'] + decimal(n)
    } else {
        decimal(n)
    }
}

/// Minutes and seconds of `nanos` nanoseconds, as `mm:ss`. Minutes are not
/// wrapped into hours, and fractions of a second are dropped.
pub open spec fn minutes_seconds(nanos: nat) -> Seq<char> {
    let secs = nanos / (NANOS_PER_SECOND as nat);
    two_digits(secs / 60) + seq![':'] + two_digits(secs % 60)
}

/// The one-character string of a decimal digit.
fn digit_str(d: u64) -> (s: &'static str)
    requires
        d < 10,
    ensures
        s@ == seq![digit_char(d as nat)],
{
    proof {
        reveal_strlit("0");
        reveal_strlit("1");
        reveal_strlit("2");
        reveal_strlit("3");
        reveal_strlit("4");
        reveal_strlit("5");
        reveal_strlit("6");
        reveal_strlit("7");
        reveal_strlit("8");
        reveal_strlit("9");
    }
    let s = if d == 0 {
        "0"
    } else if d == 1 {
        "1"
    } else if d == 2 {
        "2"
    } else if d == 3 {
        "3"
    } else if d == 4 {
        "4"
    } else if d == 5 {
        "5"
    } else if d == 6 {
        "6"
    } else if d == 7 {
        "7"
    } else if d == 8 {
        "8"
    } else {
        "9"
    };
    assert(s@ =~= seq![digit_char(d as nat)]);
    s
}

/// Appends `n` in decimal to `out`.
pub fn push_decimal(out: &mut String, n: u64)
    ensures
        final(out)@ == old(out)@ + decimal(n as nat),
    decreases n,
{
    if n >= 10 {
        push_decimal(out, n / 10);
    }
    out.append(digit_str(n % 10));
    assert(out@ =~= old(out)@ + decimal(n as nat));
}

/// Appends `n` in decimal to `out`, padded with a zero to two digits.
pub fn push_two_digits(out: &mut String, n: u64)
    ensures
        final(out)@ == old(out)@ + two_digits(n as nat),
{
    if n < 10 {
        out.append("0");
        proof {
            reveal_strlit("0");
        }
    }
    push_decimal(out, n);
    assert(out@ =~= old(out)@ + two_digits(n as nat));
}

impl ClockTime {
    /// Appends this clock value to `out` as `mm:ss`.
    pub fn push_minutes_seconds(self, out: &mut String)
        ensures
            final(out)@ == old(out)@ + minutes_seconds(self@),
    {
        let secs = self.seconds();
        push_two_digits(out, secs / 60);
        out.append(":");
        proof {
            reveal_strlit(":");
        }
        push_two_digits(out, secs % 60);
        assert(out@ =~= old(out)@ + minutes_seconds(self@));
    }
}

} // verus!
