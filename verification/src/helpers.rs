use vstd::prelude::*;

verus! {

/// The decimal digit character for a value below ten.
pub open spec fn dec_digit(d: nat) -> char {
    if d == 0 {
        '0'
    } else if d == 1 {
        '1'
    } else if d == 2 {
        '2'
    } else if d == 3 {
        '3'
    } else if d == 4 {
        '4'
    } else if d == 5 {
        '5'
    } else if d == 6 {
        '6'
    } else if d == 7 {
        '7'
    } else if d == 8 {
        '8'
    } else {
        '9'
    }
}

/// The decimal digits of a natural number, most significant first.
pub open spec fn dec_str(n: nat) -> Seq<char>
    decreases n,
{
    if n < 10 {
        seq![dec_digit(n)]
    } else {
        dec_str(n / 10).push(dec_digit(n % 10))
    }
}

/// The decimal digits of an integer, with a leading minus sign when negative.
pub open spec fn int_str(n: int) -> Seq<char> {
    if n < 0 {
        seq!['-'] + dec_str((-n) as nat)
    } else {
        dec_str(n as nat)
    }
}

/// Decimal digits zero-padded to at least two places.
pub open spec fn pad2(n: nat) -> Seq<char> {
    if n < 10 {
        seq!['0'] + dec_str(n)
    } else {
        dec_str(n)
    }
}

/// Decimal digits zero-padded to at least four places.
pub open spec fn pad4(n: nat) -> Seq<char> {
    if n < 10 {
        seq!['0', '0', '0'] + dec_str(n)
    } else if n < 100 {
        seq!['0', '0'] + dec_str(n)
    } else if n < 1000 {
        seq!['0'] + dec_str(n)
    } else {
        dec_str(n)
    }
}

/// Whether a year is a leap year of the proleptic Gregorian calendar.
pub open spec fn is_leap_year(y: nat) -> bool {
    (y % 4 == 0 && y % 100 != 0) || y % 400 == 0
}

/// How many days the given month of the given year has.
pub open spec fn days_in_month(y: nat, m: nat) -> nat {
    if m == 2 {
        if is_leap_year(y) {
            29
        } else {
            28
        }
    } else if m == 4 || m == 6 || m == 9 || m == 11 {
        30
    } else {
        31
    }
}

/// A calendar date, held as plain year, month and day numbers.
#[derive(Clone, Copy, PartialEq, Eq, Structural, Debug)]
pub struct Date {
    pub year: u16,
    pub month: u8,
    pub day: u8,
}

impl Date {
    /// A real date of the proleptic Gregorian calendar, within the years
    /// that render as four digits.
    pub open spec fn wf(self) -> bool {
        &&& self.year <= 9999
        &&& 1 <= self.month <= 12
        &&& 1 <= self.day <= days_in_month(self.year as nat, self.month as nat)
    }

    /// Decides whether this is a real calendar date.
    pub fn is_valid(&self) -> (r: bool)
        ensures
            r == self.wf(),
    {
        let dim: u8 = if self.month == 2 {
            let y = self.year;
            if (y % 4 == 0 && y % 100 != 0) || y % 400 == 0 {
                29
            } else {
                28
            }
        } else if self.month == 4 || self.month == 6 || self.month == 9 || self.month == 11 {
            30
        } else {
            31
        };
        self.year <= 9999 && 1 <= self.month && self.month <= 12 && 1 <= self.day && self.day
            <= dim
    }
}

/// A time of day to minute precision.
#[derive(Clone, Copy, PartialEq, Eq, Structural, Debug)]
pub struct Time {
    pub hour: u8,
    pub minute: u8,
}

impl Time {
    /// A real time of day.
    pub open spec fn wf(self) -> bool {
        self.hour < 24 && self.minute < 60
    }

    /// Decides whether this is a real time of day.
    pub fn is_valid(&self) -> (r: bool)
        ensures
            r == self.wf(),
    {
        self.hour < 24 && self.minute < 60
    }
}

/// A calendar date together with a time of day.
#[derive(Clone, Copy, PartialEq, Eq, Structural, Debug)]
pub struct DateTime {
    pub date: Date,
    pub time: Time,
}

impl DateTime {
    /// A real date with a real time of day.
    pub open spec fn wf(self) -> bool {
        self.date.wf() && self.time.wf()
    }

    /// Decides whether date and time are both real.
    pub fn is_valid(&self) -> (r: bool)
        ensures
            r == self.wf(),
    {
        self.date.is_valid() && self.time.is_valid()
    }
}

/// A date in `YYYY-MM-DD` layout.
pub open spec fn date_text(d: Date) -> Seq<char> {
    pad4(d.year as nat) + "-"@ + pad2(d.month as nat) + "-"@ + pad2(d.day as nat)
}

/// A time in `HH:MM` layout.
pub open spec fn time_text(t: Time) -> Seq<char> {
    pad2(t.hour as nat) + ":"@ + pad2(t.minute as nat)
}

/// A date and time in `YYYY-MM-DDTHH:MM` layout.
pub open spec fn datetime_text(t: DateTime) -> Seq<char> {
    date_text(t.date) + "T"@ + time_text(t.time)
}

/// Serializes any displayable value to its textual form; never fails.
/// For string slices the text is the input itself.
pub fn to_string_serialize<T: core::fmt::Display + ?Sized>(t: &T) -> (r: Result<String, ()>)
    ensures
        r is Ok,
        r matches Ok(s) ==> vstd::string::to_string_from_display_ensures::<T>(t, s),
{
    Ok(t.to_string())
}

/// Relies on chrono's `NaiveDate`: `from_ymd_opt` accepts exactly the real
/// proleptic-Gregorian dates, and formatting one with `%Y-%m-%d` writes the
/// year zero-padded to four digits and month and day to two.
#[verifier::external_body]
pub fn date_ser(t: &Date) -> (r: Result<String, ()>)
    requires
        t.wf(),
    ensures
        r is Ok,
        r matches Ok(s) ==> s@ == date_text(*t),
{
    match chrono::NaiveDate::from_ymd_opt(t.year as i32, t.month as u32, t.day as u32) {
        Some(d) => Ok(d.format("%Y-%m-%d").to_string()),
        None => Err(()),
    }
}

/// Relies on chrono's `NaiveTime`: `from_hms_opt` accepts every real time of
/// day, and formatting one with `%H:%M` writes hour and minute zero-padded to
/// two digits.
#[verifier::external_body]
pub fn time_ser(t: &Time) -> (r: Result<String, ()>)
    requires
        t.wf(),
    ensures
        r is Ok,
        r matches Ok(s) ==> s@ == time_text(*t),
{
    match chrono::NaiveTime::from_hms_opt(t.hour as u32, t.minute as u32, 0) {
        Some(tm) => Ok(tm.format("%H:%M").to_string()),
        None => Err(()),
    }
}

/// Relies on chrono's `NaiveDateTime`: formatting one with `%Y-%m-%dT%H:%M`
/// writes the date as `%Y-%m-%d`, a literal `T`, and the time as `%H:%M`.
#[verifier::external_body]
pub fn datetime_ser(t: &DateTime) -> (r: Result<String, ()>)
    requires
        t.wf(),
    ensures
        r is Ok,
        r matches Ok(s) ==> s@ == datetime_text(*t),
{
    let d = t.date;
    let tm = t.time;
    let nd = match chrono::NaiveDate::from_ymd_opt(d.year as i32, d.month as u32, d.day as u32) {
        Some(nd) => nd,
        None => return Err(()),
    };
    let nt = match chrono::NaiveTime::from_hms_opt(tm.hour as u32, tm.minute as u32, 0) {
        Some(nt) => nt,
        None => return Err(()),
    };
    Ok(chrono::NaiveDateTime::new(nd, nt).format("%Y-%m-%dT%H:%M").to_string())
}

} // verus!
