//! The top bar's clock: reads the local wall-clock time and renders it
//! as a zero-padded `HH:MM:SS` string.

use vstd::prelude::*;
use vstd::string::StringExecFns;

use chrono::Timelike;

verus! {

/// Relies on chrono's `Local::now` and the `Timelike` accessors, which
/// document `hour` as 0 to 23 and `minute` and `second` as 0 to 59.
#[verifier::external_body]
fn local_time_hms() -> (r: (u8, u8, u8))
    ensures
        r.0 < 24,
        r.1 < 60,
        r.2 < 60,
{
    let now = chrono::Local::now();
    (now.hour() as u8, now.minute() as u8, now.second() as u8)
}

pub open spec fn digit_char(d: int) -> char {
    if d == 0 {
        '0'
    } else if d == 1 {
        '1'
    } else if d == 2 {
        '2'
    } else if d == 3 {
        '3'
    } else if d == 4 {
        '4'
    } else if d == 5 {
        '5'
    } else if d == 6 {
        '6'
    } else if d == 7 {
        '7'
    } else if d == 8 {
        '8'
    } else {
        '9'
    }
}

/// The clock line: hours, minutes and seconds, each two digits,
/// separated by colons.
pub open spec fn clock_text_spec(h: int, m: int, s: int) -> Seq<char> {
    seq![
        digit_char(h / 10),
        digit_char(h % 10),
        ':',
        digit_char(m / 10),
        digit_char(m % 10),
        ':',
        digit_char(s / 10),
        digit_char(s % 10),
    ]
}

fn digit_str(d: u8) -> (r: &'static str)
    requires
        d < 10,
    ensures
        r@ == seq![digit_char(d as int)],
{
    proof {
        reveal_strlit("0");
        reveal_strlit("1");
        reveal_strlit("2");
        reveal_strlit("3");
        reveal_strlit("4");
        reveal_strlit("5");
        reveal_strlit("6");
        reveal_strlit("7");
        reveal_strlit("8");
        reveal_strlit("9");
    }
    match d {
        0 => "0",
        1 => "1",
        2 => "2",
        3 => "3",
        4 => "4",
        5 => "5",
        6 => "6",
        7 => "7",
        8 => "8",
        _ => "9",
    }
}

/// Renders a time of day as the zero-padded `HH:MM:SS` clock line.
pub fn clock_text(h: u8, m: u8, s: u8) -> (r: String)
    requires
        h < 24,
        m < 60,
        s < 60,
    ensures
        r@ == clock_text_spec(h as int, m as int, s as int),
{
    proof {
        reveal_strlit(":");
    }
    let mut r = String::new();
    r.append(digit_str(h / 10));
    r.append(digit_str(h % 10));
    r.append(":");
    r.append(digit_str(m / 10));
    r.append(digit_str(m % 10));
    r.append(":");
    r.append(digit_str(s / 10));
    r.append(digit_str(s % 10));
    proof {
        assert(r@ =~= clock_text_spec(h as int, m as int, s as int));
    }
    r
}

/// The clock line for the time now.
pub fn current_clock_text() -> (r: String)
    ensures
        ({
            let t = r@;
            exists|h: int, m: int, s: int|
                0 <= h < 24 && 0 <= m < 60 && 0 <= s < 60 && t == #[trigger] clock_text_spec(
                    h,
                    m,
                    s,
                )
        }),
{
    let (h, m, s) = local_time_hms();
    let r = clock_text(h, m, s);
    proof {
        assert(r@ == clock_text_spec(h as int, m as int, s as int));
    }
    r
}

} // verus!
