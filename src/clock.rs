use vstd::prelude::*;

verus! {

/// Earliest year the calendar accepts.
pub const MIN_YEAR: i32 = -9999;

/// Latest year the calendar accepts.
pub const MAX_YEAR: i32 = 9999;

/// A leap year of the proleptic Gregorian calendar.
pub open spec fn is_leap_year(year: int) -> bool {
    year % 4 == 0 && (year % 100 != 0 || year % 400 == 0)
}

/// Number of days in `month` (1 to 12) of `year`.
pub open spec fn days_in_month(year: int, month: int) -> int {
    if month == 2 {
        if is_leap_year(year) {
            29
        } else {
            28
        }
    } else if month == 4 || month == 6 || month == 9 || month == 11 {
        30
    } else {
        31
    }
}

/// A date that the calendar accepts.
pub open spec fn valid_date(year: int, month: int, day: int) -> bool {
    &&& MIN_YEAR <= year <= MAX_YEAR
    &&& 1 <= month <= 12
    &&& 1 <= day <= days_in_month(year, month)
}

/// Days from Monday (0) to the weekday of a calendar date.
pub uninterp spec fn weekday_of(year: int, month: int, day: int) -> int;

/// Relies on `time::Month::try_from`, `time::Date::from_calendar_date` and
/// `time::Date::weekday`: a date is accepted when its year lies in
/// -9999..=9999, its month in 1..=12 and its day within the month, and its
/// weekday comes back as days from Monday.
#[verifier::external_body]
fn calendar_weekday(year: i32, month: u8, day: u8) -> (r: Option<u8>)
    ensures
        r.is_some() <==> valid_date(year as int, month as int, day as int),
        r matches Some(w) ==> w < 7 && w as int == weekday_of(year as int, month as int, day as int),
{
    let month = time::Month::try_from(month).ok()?;
    let date = time::Date::from_calendar_date(year, month, day).ok()?;
    Some(date.weekday().number_days_from_monday())
}

/// A day of the week.
#[derive(Debug, Clone, Copy, PartialEq, Eq, Structural)]
pub enum Weekday {
    Monday,
    Tuesday,
    Wednesday,
    Thursday,
    Friday,
    Saturday,
    Sunday,
}

/// The weekday `n` days after Monday.
pub open spec fn weekday_from_monday(n: int) -> Weekday {
    if n == 0 {
        Weekday::Monday
    } else if n == 1 {
        Weekday::Tuesday
    } else if n == 2 {
        Weekday::Wednesday
    } else if n == 3 {
        Weekday::Thursday
    } else if n == 4 {
        Weekday::Friday
    } else if n == 5 {
        Weekday::Saturday
    } else {
        Weekday::Sunday
    }
}

/// The first three letters of the weekday's English name.
pub open spec fn abbreviation(w: Weekday) -> Seq<char> {
    match w {
        Weekday::Monday => seq!['M', 'o', 'n'],
        Weekday::Tuesday => seq!['T', 'u', 'e'],
        Weekday::Wednesday => seq!['W', 'e', 'd'],
        Weekday::Thursday => seq!['T', 'h', 'u'],
        Weekday::Friday => seq!['F', 'r', 'i'],
        Weekday::Saturday => seq!['S', 'a', 't'],
        Weekday::Sunday => seq!['S', 'u', 'n'],
    }
}

impl Weekday {
    fn from_monday(n: u8) -> (r: Weekday)
        requires
            n < 7,
        ensures
            r == weekday_from_monday(n as int),
    {
        match n {
            0 => Weekday::Monday,
            1 => Weekday::Tuesday,
            2 => Weekday::Wednesday,
            3 => Weekday::Thursday,
            4 => Weekday::Friday,
            5 => Weekday::Saturday,
            _ => Weekday::Sunday,
        }
    }

    /// The first three letters of the weekday's name.
    pub fn abbreviation(&self) -> (r: &'static str)
        ensures
            r@ == abbreviation(*self),
    {
        proof {
            reveal_strlit("Mon");
            reveal_strlit("Tue");
            reveal_strlit("Wed");
            reveal_strlit("Thu");
            reveal_strlit("Fri");
            reveal_strlit("Sat");
            reveal_strlit("Sun");
        }
        match self {
            Weekday::Monday => "Mon",
            Weekday::Tuesday => "Tue",
            Weekday::Wednesday => "Wed",
            Weekday::Thursday => "Thu",
            Weekday::Friday => "Fri",
            Weekday::Saturday => "Sat",
            Weekday::Sunday => "Sun",
        }
    }
}

/// A calendar date with a time of day, to the second.
#[derive(Debug, Clone, Copy, PartialEq, Eq)]
pub struct DateTime {
    year: i32,
    month: u8,
    day: u8,
    hour: u8,
    minute: u8,
    second: u8,
    weekday: Weekday,
}

impl DateTime {
    pub closed spec fn spec_year(&self) -> int {
        self.year as int
    }

    pub closed spec fn spec_month(&self) -> int {
        self.month as int
    }

    pub closed spec fn spec_day(&self) -> int {
        self.day as int
    }

    pub closed spec fn spec_hour(&self) -> int {
        self.hour as int
    }

    pub closed spec fn spec_minute(&self) -> int {
        self.minute as int
    }

    pub closed spec fn spec_second(&self) -> int {
        self.second as int
    }

    pub closed spec fn spec_weekday(&self) -> Weekday {
        self.weekday
    }

    /// A real date and time of day, with the weekday of that date.
    #[verifier::type_invariant]
    pub closed spec fn inv(&self) -> bool {
        self.wf()
    }

    /// A real date and time of day, with the weekday of that date.
    pub open spec fn wf(&self) -> bool {
        &&& valid_date(self.spec_year(), self.spec_month(), self.spec_day())
        &&& 0 <= self.spec_hour() < 24
        &&& 0 <= self.spec_minute() < 60
        &&& 0 <= self.spec_second() < 60
        &&& self.spec_weekday() == weekday_from_monday(
            weekday_of(self.spec_year(), self.spec_month(), self.spec_day()),
        )
    }

    /// The date and time given, or `None` where the date is not in the
    /// calendar or the time of day is out of range.
    pub fn new(year: i32, month: u8, day: u8, hour: u8, minute: u8, second: u8) -> (r: Option<
        DateTime,
    >)
        ensures
            r.is_some() <==> valid_date(year as int, month as int, day as int) && hour < 24
                && minute < 60 && second < 60,
            r matches Some(t) ==> {
                &&& t.wf()
                &&& t.spec_year() == year
                &&& t.spec_month() == month
                &&& t.spec_day() == day
                &&& t.spec_hour() == hour
                &&& t.spec_minute() == minute
                &&& t.spec_second() == second
            },
    {
        if hour >= 24 || minute >= 60 || second >= 60 {
            return None;
        }
        match calendar_weekday(year, month, day) {
            Some(w) => Some(
                DateTime { year, month, day, hour, minute, second, weekday: Weekday::from_monday(w) },
            ),
            None => None,
        }
    }

    pub fn year(&self) -> (r: i32)
        ensures
            r == self.spec_year(),
    {
        self.year
    }

    pub fn month(&self) -> (r: u8)
        ensures
            r == self.spec_month(),
            1 <= r <= 12,
    {
        proof {
            use_type_invariant(self);
        }
        self.month
    }

    pub fn day(&self) -> (r: u8)
        ensures
            r == self.spec_day(),
            r >= 1,
            r <= 31,
    {
        proof {
            use_type_invariant(self);
        }
        self.day
    }

    pub fn hour(&self) -> (r: u8)
        ensures
            r == self.spec_hour(),
            r < 24,
    {
        proof {
            use_type_invariant(self);
        }
        self.hour
    }

    pub fn minute(&self) -> (r: u8)
        ensures
            r == self.spec_minute(),
            r < 60,
    {
        proof {
            use_type_invariant(self);
        }
        self.minute
    }

    pub fn second(&self) -> (r: u8)
        ensures
            r == self.spec_second(),
            r < 60,
    {
        proof {
            use_type_invariant(self);
        }
        self.second
    }

    pub fn weekday(&self) -> (r: Weekday)
        ensures
            r == self.spec_weekday(),
    {
        self.weekday
    }
}

/// `a / b` rounded toward zero, as integer division does.
pub open spec fn div_toward_zero(a: int, b: int) -> int {
    if a >= 0 {
        a / b
    } else {
        -((-a) / b)
    }
}

/// The remainder of `a / b` rounded toward zero; it has the sign of `a`.
pub open spec fn rem_toward_zero(a: int, b: int) -> int {
    a - b * div_toward_zero(a, b)
}

/// A signed span of time, in whole seconds.
#[derive(Debug, Clone, Copy, PartialEq, Eq, Structural)]
pub struct Duration {
    pub seconds: i64,
}

impl Duration {
    pub fn from_seconds(seconds: i64) -> (r: Duration)
        ensures
            r.seconds == seconds,
    {
        Duration { seconds }
    }

    /// Number of whole minutes, rounded toward zero.
    pub fn whole_minutes(&self) -> (r: i64)
        ensures
            r == div_toward_zero(self.seconds as int, 60),
    {
        let s: i128 = self.seconds as i128;
        let m: i128 = if s < 0 { -((-s) / 60) } else { s / 60 };
        m as i64
    }

    /// Number of whole seconds.
    pub fn whole_seconds(&self) -> (r: i64)
        ensures
            r == self.seconds,
    {
        self.seconds
    }
}

} // verus!
