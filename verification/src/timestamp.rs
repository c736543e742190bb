//! A calendar instant in Coordinated Universal Time, held as plain
//! fields so that its canonical rendering can be specified exactly.

use vstd::prelude::*;

use crate::strutil::dec_digit;

verus! {

/// A timezone-aware instant at second precision, in Coordinated
/// Universal Time.
#[derive(Clone, Copy, Debug)]
pub struct Timestamp {
    pub year: u32,
    pub month: u32,
    pub day: u32,
    pub hour: u32,
    pub minute: u32,
    pub second: u32,
}

/// Two decimal digits, zero-padded.
pub open spec fn two_digits(n: int) -> Seq<char> {
    seq![dec_digit((n / 10) % 10), dec_digit(n % 10)]
}

/// Four decimal digits, zero-padded.
pub open spec fn four_digits(n: int) -> Seq<char> {
    seq![
        dec_digit((n / 1000) % 10),
        dec_digit((n / 100) % 10),
        dec_digit((n / 10) % 10),
        dec_digit(n % 10),
    ]
}

/// The canonical rendering of an instant: date, a space, the time of
/// day, a space and the timezone name.
pub open spec fn timestamp_str(ts: Timestamp) -> Seq<char> {
    four_digits(ts.year as int) + seq!['-'] + two_digits(ts.month as int) + seq!['-'] + two_digits(
        ts.day as int,
    ) + seq![' '] + two_digits(ts.hour as int) + seq![':'] + two_digits(ts.minute as int)
        + seq![':'] + two_digits(ts.second as int) + seq![' ', 'U', 'T', 'C']
}

impl Timestamp {
    /// The fields that make up the instant, in display order.
    pub fn new(year: u32, month: u32, day: u32, hour: u32, minute: u32, second: u32) -> (r:
        Timestamp)
        ensures
            r == (Timestamp { year, month, day, hour, minute, second }),
    {
        Timestamp { year, month, day, hour, minute, second }
    }

    /// The canonical rendering, as `timestamp_str` describes.
    pub fn render(&self) -> (r: String)
        ensures
            r@ == timestamp_str(*self),
    {
        let mut out = push_digit(String::new(), (self.year / 1000) % 10);
        out = push_digit(out, (self.year / 100) % 10);
        out = push_digit(out, (self.year / 10) % 10);
        out = push_digit(out, self.year % 10);
        out = push_sep(out, Sep::Dash);
        out = push_two_digits(out, self.month);
        out = push_sep(out, Sep::Dash);
        out = push_two_digits(out, self.day);
        out = push_sep(out, Sep::Space);
        out = push_two_digits(out, self.hour);
        out = push_sep(out, Sep::Colon);
        out = push_two_digits(out, self.minute);
        out = push_sep(out, Sep::Colon);
        out = push_two_digits(out, self.second);
        proof {
            reveal_strlit(" UTC");
        }
        out.append(" UTC");
        proof {
            assert(out@ =~= timestamp_str(*self));
        }
        out
    }
}

enum Sep {
    Dash,
    Space,
    Colon,
}

/// Appends one separator character.
fn push_sep(s: String, sep: Sep) -> (r: String)
    ensures
        r@ == s@ + seq![
            match sep {
                Sep::Dash => '-',
                Sep::Space => ' ',
                Sep::Colon => ':',
            },
        ],
{
    let mut out = s;
    match sep {
        Sep::Dash => {
            proof {
                reveal_strlit("-");
            }
            out.append("-");
        },
        Sep::Space => {
            proof {
                reveal_strlit(" ");
            }
            out.append(" ");
        },
        Sep::Colon => {
            proof {
                reveal_strlit(":");
            }
            out.append(":");
        },
    }
    proof {
        assert(out@ =~= s@ + seq![
            match sep {
                Sep::Dash => '-',
                Sep::Space => ' ',
                Sep::Colon => ':',
            },
        ]);
    }
    out
}

/// Appends one decimal digit character.
fn push_digit(s: String, d: u32) -> (r: String)
    requires
        d < 10,
    ensures
        r@ == s@ + seq![dec_digit(d as int)],
{
    let mut out = s;
    out.append(crate::strutil::digit_str(d as u64));
    out
}

/// Appends the two low decimal digits of `n`, zero-padded.
fn push_two_digits(s: String, n: u32) -> (r: String)
    ensures
        r@ == s@ + two_digits(n as int),
{
    let mut out = s;
    out.append(crate::strutil::digit_str(((n / 10) % 10) as u64));
    out.append(crate::strutil::digit_str((n % 10) as u64));
    proof {
        assert(out@ =~= s@ + two_digits(n as int));
    }
    out
}

} // verus!
