//! The elapsed time as text: hours, minutes and seconds, two digits each.

use vstd::prelude::*;
use vstd::string::*;

verus! {

/// Division that rounds toward zero, for a positive divisor.
pub open spec fn trunc_div(a: int, b: int) -> int
    recommends
        b > 0,
{
    if a >= 0 {
        a / b
    } else {
        -((-a) / b)
    }
}

/// The remainder that goes with `trunc_div`: it has the sign of `a`.
pub open spec fn trunc_rem(a: int, b: int) -> int
    recommends
        b > 0,
{
    a - b * trunc_div(a, b)
}

/// The character of one decimal digit.
pub open spec fn digit_char(d: int) -> char
    recommends
        0 <= d < 10,
{
    if d == 0 {
        '0'
    } else if d == 1 {
        '1'
    } else if d == 2 {
        '2'
    } else if d == 3 {
        '3'
    } else if d == 4 {
        '4'
    } else if d == 5 {
        '5'
    } else if d == 6 {
        '6'
    } else if d == 7 {
        '7'
    } else if d == 8 {
        '8'
    } else {
        '9'
    }
}

/// A natural number in decimal, without leading zeros.
pub open spec fn decimal(n: nat) -> Seq<char>
    decreases n,
{
    if n < 10 {
        seq![digit_char(n as int)]
    } else {
        decimal(n / 10).push(digit_char((n % 10) as int))
    }
}

/// One field of the display: at least two characters, filled with a zero
/// on the left; a negative number has its sign in front and no filling.
pub open spec fn two_digits(n: int) -> Seq<char> {
    if n < 0 {
        seq!['-'] + decimal((-n) as nat)
    } else if n < 10 {
        seq!['0'] + decimal(n as nat)
    } else {
        decimal(n as nat)
    }
}

/// The whole seconds in a number of milliseconds, rounded toward zero.
pub open spec fn whole_seconds(millis: int) -> int {
    trunc_div(millis, 1000)
}

/// The display of an elapsed time of `millis` milliseconds: hours, then
/// minutes and seconds modulo 60, with colons between. Hours do not roll
/// over into days.
pub open spec fn clock_face(millis: int) -> Seq<char> {
    let secs = whole_seconds(millis);
    two_digits(trunc_div(secs, 3600)) + seq![':'] + two_digits(trunc_rem(trunc_div(secs, 60), 60))
        + seq![':'] + two_digits(trunc_rem(secs, 60))
}

fn digit_text(d: u64) -> (s: &'static str)
    requires
        d < 10,
    ensures
        s@ == seq![digit_char(d as int)],
{
    proof {
        reveal_strlit("0");
        reveal_strlit("1");
        reveal_strlit("2");
        reveal_strlit("3");
        reveal_strlit("4");
        reveal_strlit("5");
        reveal_strlit("6");
        reveal_strlit("7");
        reveal_strlit("8");
        reveal_strlit("9");
    }
    if d == 0 {
        "0"
    } else if d == 1 {
        "1"
    } else if d == 2 {
        "2"
    } else if d == 3 {
        "3"
    } else if d == 4 {
        "4"
    } else if d == 5 {
        "5"
    } else if d == 6 {
        "6"
    } else if d == 7 {
        "7"
    } else if d == 8 {
        "8"
    } else {
        "9"
    }
}

fn push_decimal(out: &mut String, n: u64)
    ensures
        final(out)@ == old(out)@ + decimal(n as nat),
    decreases n,
{
    if n >= 10 {
        push_decimal(out, n / 10);
    }
    out.append(digit_text(n % 10));
}

fn push_field(out: &mut String, negative: bool, n: u64)
    ensures
        final(out)@ == old(out)@ + two_digits(
            if negative {
                -(n as int)
            } else {
                n as int
            },
        ),
{
    if negative && n > 0 {
        out.append("-");
        proof {
            reveal_strlit("-");
        }
    } else if n < 10 {
        out.append("0");
        proof {
            reveal_strlit("0");
        }
    }
    push_decimal(out, n);
}

/// The size of a number without its sign.
fn magnitude(n: i64) -> (m: u64)
    ensures
        m == if n < 0 {
            -(n as int)
        } else {
            n as int
        },
{
    if n < 0 {
        (-(n + 1)) as u64 + 1
    } else {
        n as u64
    }
}

/// Writes an elapsed time of `millis` milliseconds as hours, minutes and
/// seconds.
pub fn render_elapsed(millis: i64) -> (s: String)
    ensures
        s@ == clock_face(millis as int),
{
    let negative = millis < 0;
    let secs: u64 = magnitude(millis) / 1000;
    let mut out = String::new();
    push_field(&mut out, negative, secs / 3600);
    out.append(":");
    push_field(&mut out, negative, (secs / 60) % 60);
    out.append(":");
    push_field(&mut out, negative, secs % 60);
    proof {
        reveal_strlit(":");
    }
    out
}

/// The line that shows an elapsed time on the terminal: a carriage return,
/// so that it overwrites the line before it, a label, the time, and no
/// newline.
pub open spec fn status_line(millis: int) -> Seq<char> {
    "\rElapsed time: "@ + clock_face(millis)
}

/// Writes the status line for an elapsed time of `millis` milliseconds.
pub fn render_status(millis: i64) -> (s: String)
    ensures
        s@ == status_line(millis as int),
{
    let mut out = String::from_str("\rElapsed time: ");
    let face = render_elapsed(millis);
    out.append(face.as_str());
    out
}

/// One line of the session log: the timestamp, a comma, the elapsed time.
pub open spec fn log_line(timestamp: Seq<char>, elapsed: Seq<char>) -> Seq<char> {
    timestamp + seq![','] + elapsed
}

/// Writes the log line for a session that ended at `timestamp` with the
/// display `elapsed`.
pub fn render_log_line(timestamp: &str, elapsed: &str) -> (s: String)
    ensures
        s@ == log_line(timestamp@, elapsed@),
{
    let mut out = String::from_str(timestamp);
    out.append(",");
    out.append(elapsed);
    proof {
        reveal_strlit(",");
    }
    out
}

} // verus!
