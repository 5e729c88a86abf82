//! The remote API's date and time values, held as plain fields.
//!
//! The remote service sends local Polish time without a zone offset;
//! these types carry the broken-down values and render them in the
//! exact wire shapes (`yyyy-mm-dd`, `hh:mm:ss`, and their
//! combinations).  Decoding from JSON happens outside the verified
//! core.

use vstd::prelude::*;
use crate::ascii::{chars_of_bytes, spec_decimal, lemma_decimal_ascii, ascii_to_string,
    u64_to_decimal};

verus! {

use vstd::string::StringExecFns;

/// The decimal rendering of a value, left-padded with zeros to the
/// given width (the value is assumed to fit).
pub open spec fn spec_zero_padded(value: u64, width: int) -> Seq<char> {
    let digits = chars_of_bytes(spec_decimal(value as nat));
    if digits.len() >= width {
        digits
    } else {
        spec_zeros(width - digits.len()) + digits
    }
}

/// `n` zero characters.
pub open spec fn spec_zeros(n: int) -> Seq<char>
    decreases n,
{
    if n <= 0 {
        Seq::empty()
    } else {
        spec_zeros(n - 1) + seq!['0']
    }
}

/// Renders a value in decimal, left-padded with zeros to `width`.
pub fn zero_padded(value: u64, width: usize) -> (r: String)
    ensures
        r@ == spec_zero_padded(value, width as int),
{
    let digits = u64_to_decimal(value);
    proof {
        lemma_decimal_ascii(value as nat);
    }
    let rendered = ascii_to_string(&digits);
    let mut out = String::new();
    let have = digits.len();
    let mut pad: usize = 0;
    let missing: usize = if have >= width {
        0
    } else {
        width - have
    };
    while pad < missing
        invariant
            0 <= pad <= missing,
            out@ == spec_zeros(pad as int),
        decreases missing - pad,
    {
        out.append("0");
        proof {
            assert(spec_zeros(pad + 1) =~= spec_zeros(pad as int) + seq!['0']);
            assert("0"@ =~= seq!['0']) by {
                reveal_strlit("0");
            }
        }
        pad = pad + 1;
    }
    out.append(rendered.as_str());
    proof {
        if have >= width {
            assert(spec_zeros(0) =~= Seq::<char>::empty());
            assert(out@ =~= chars_of_bytes(spec_decimal(value as nat)));
        }
    }
    out
}

/// A calendar date as the remote API sends it (`yyyy-mm-dd`).
pub struct UsosDate {
    pub year: u64,
    pub month: u64,
    pub day: u64,
}

impl UsosDate {
    /// The value denotes a plausible date of the wire format: a
    /// four-digit year and in-range month and day numbers.
    pub open spec fn wf(&self) -> bool {
        &&& self.year <= 9999
        &&& 1 <= self.month <= 12
        &&& 1 <= self.day <= 31
    }

    /// The wire rendering of the date.
    pub open spec fn spec_rendered(&self) -> Seq<char> {
        spec_zero_padded(self.year, 4) + "-"@ + spec_zero_padded(self.month, 2) + "-"@
            + spec_zero_padded(self.day, 2)
    }

    /// Wraps a plausible date.
    pub fn new(year: u64, month: u64, day: u64) -> (r: Result<UsosDate, ()>)
        ensures
            match r {
                Ok(d) => d.wf() && d.year == year && d.month == month && d.day == day,
                Err(()) => !(year <= 9999 && 1 <= month <= 12 && 1 <= day <= 31),
            },
    {
        if year <= 9999 && 1 <= month && month <= 12 && 1 <= day && day <= 31 {
            Ok(UsosDate { year, month, day })
        } else {
            Err(())
        }
    }

    /// Renders the date as `yyyy-mm-dd`.
    pub fn render(&self) -> (r: String)
        ensures
            r@ == self.spec_rendered(),
    {
        let mut out = zero_padded(self.year, 4);
        out.append("-");
        let m = zero_padded(self.month, 2);
        out.append(m.as_str());
        out.append("-");
        let d = zero_padded(self.day, 2);
        out.append(d.as_str());
        out
    }
}

/// A time of day as the remote API sends it (`hh:mm:ss`).
pub struct UsosTime {
    pub hour: u64,
    pub minute: u64,
    pub second: u64,
}

impl UsosTime {
    /// The value denotes a time of day.
    pub open spec fn wf(&self) -> bool {
        &&& self.hour < 24
        &&& self.minute < 60
        &&& self.second < 60
    }

    /// The wire rendering of the time.
    pub open spec fn spec_rendered(&self) -> Seq<char> {
        spec_zero_padded(self.hour, 2) + ":"@ + spec_zero_padded(self.minute, 2) + ":"@
            + spec_zero_padded(self.second, 2)
    }

    /// Wraps a time of day.
    pub fn new(hour: u64, minute: u64, second: u64) -> (r: Result<UsosTime, ()>)
        ensures
            match r {
                Ok(t) => t.wf() && t.hour == hour && t.minute == minute && t.second == second,
                Err(()) => !(hour < 24 && minute < 60 && second < 60),
            },
    {
        if hour < 24 && minute < 60 && second < 60 {
            Ok(UsosTime { hour, minute, second })
        } else {
            Err(())
        }
    }

    /// Renders the time as `hh:mm:ss`.
    pub fn render(&self) -> (r: String)
        ensures
            r@ == self.spec_rendered(),
    {
        let mut out = zero_padded(self.hour, 2);
        out.append(":");
        let m = zero_padded(self.minute, 2);
        out.append(m.as_str());
        out.append(":");
        let s = zero_padded(self.second, 2);
        out.append(s.as_str());
        out
    }
}

/// A date with a time of day (`yyyy-mm-dd hh:mm:ss`).
pub struct UsosDateTime {
    pub date: UsosDate,
    pub time: UsosTime,
}

impl UsosDateTime {
    /// Both halves are plausible.
    pub open spec fn wf(&self) -> bool {
        self.date.wf() && self.time.wf()
    }

    /// The wire rendering of the datetime.
    pub open spec fn spec_rendered(&self) -> Seq<char> {
        self.date.spec_rendered() + " "@ + self.time.spec_rendered()
    }

    /// Pairs a date with a time of day.
    pub fn new(date: UsosDate, time: UsosTime) -> (r: UsosDateTime)
        ensures
            r.date == date,
            r.time == time,
    {
        UsosDateTime { date, time }
    }

    /// Renders the datetime as `yyyy-mm-dd hh:mm:ss`.
    pub fn render(&self) -> (r: String)
        ensures
            r@ == self.spec_rendered(),
    {
        let mut out = self.date.render();
        out.append(" ");
        let t = self.time.render();
        out.append(t.as_str());
        out
    }
}

/// A datetime with microsecond precision
/// (`yyyy-mm-dd hh:mm:ss.mmmmmm`).
pub struct UsosPreciseDateTime {
    pub datetime: UsosDateTime,
    pub microsecond: u64,
}

impl UsosPreciseDateTime {
    /// The fraction fits in six digits and the rest is plausible.
    pub open spec fn wf(&self) -> bool {
        self.datetime.wf() && self.microsecond < 1000000
    }

    /// The wire rendering of the precise datetime.
    pub open spec fn spec_rendered(&self) -> Seq<char> {
        self.datetime.spec_rendered() + "."@ + spec_zero_padded(self.microsecond, 6)
    }

    /// Attaches a microsecond fraction to a datetime.
    pub fn new(datetime: UsosDateTime, microsecond: u64) -> (r: Result<UsosPreciseDateTime, ()>)
        ensures
            match r {
                Ok(t) => t.datetime == datetime && t.microsecond == microsecond,
                Err(()) => microsecond >= 1000000,
            },
    {
        if microsecond < 1000000 {
            Ok(UsosPreciseDateTime { datetime, microsecond })
        } else {
            Err(())
        }
    }

    /// Renders the precise datetime.
    pub fn render(&self) -> (r: String)
        ensures
            r@ == self.spec_rendered(),
    {
        let mut out = self.datetime.render();
        out.append(".");
        let f = zero_padded(self.microsecond, 6);
        out.append(f.as_str());
        out
    }
}

} // verus!
