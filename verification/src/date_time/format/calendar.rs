//! The proleptic Gregorian calendar: which day of which month of which year
//! a day is, counted from the Unix epoch.

use vstd::prelude::*;

verus! {

/// The number of seconds in a day.
pub const SECONDS_PER_DAY: i64 = 86_400;

/// The day number of January 1 of the year 0.
pub const FIRST_DAY: i64 = -719_528;

/// The day number of December 31 of the year 9999.
pub const LAST_DAY: i64 = 2_932_896;

/// Whether `year` has a February 29.
pub open spec fn is_leap_year(year: int) -> bool {
    year % 4 == 0 && (year % 100 != 0 || year % 400 == 0)
}

/// The number of days of the month `month` of `year`.
pub open spec fn days_in_month(year: int, month: int) -> int {
    if month == 2 {
        if is_leap_year(year) {
            29
        } else {
            28
        }
    } else if month == 4 || month == 6 || month == 9 || month == 11 {
        30
    } else {
        31
    }
}

/// The number of days of `year` that lie before its month `month`.
pub open spec fn days_before_month(year: int, month: int) -> int {
    let leap: int = if is_leap_year(year) && month > 2 {
        1
    } else {
        0
    };
    if month <= 1 {
        0
    } else if month == 2 {
        31
    } else if month == 3 {
        59 + leap
    } else if month == 4 {
        90 + leap
    } else if month == 5 {
        120 + leap
    } else if month == 6 {
        151 + leap
    } else if month == 7 {
        181 + leap
    } else if month == 8 {
        212 + leap
    } else if month == 9 {
        243 + leap
    } else if month == 10 {
        273 + leap
    } else if month == 11 {
        304 + leap
    } else {
        334 + leap
    }
}

/// The number of leap years from the year 1 up to, not including, `year`;
/// for the year 0 and earlier, minus the number of leap years from `year`
/// up to the year 0.
pub open spec fn leap_years_before(year: int) -> int {
    (year - 1) / 4 - (year - 1) / 100 + (year - 1) / 400
}

/// The day number of January 1 of `year`: the number of days from January
/// 1, 1970 to it, negative for earlier years.
pub open spec fn days_before_year(year: int) -> int {
    365 * (year - 1970) + leap_years_before(year) - 477
}

/// A day of the calendar.
#[derive(Clone, Copy, Debug, PartialEq, Eq, Structural)]
pub struct Date {
    pub year: i32,
    pub month: u8,
    pub day: u8,
}

impl Date {
    /// Whether the date exists: the month is one of the twelve and the day
    /// is one of the month's.
    pub open spec fn valid(self) -> bool {
        &&& 1 <= self.month <= 12
        &&& 1 <= self.day <= days_in_month(self.year as int, self.month as int)
    }

    /// The number of days from January 1, 1970 to this date, negative for
    /// earlier dates.
    pub open spec fn day_number(self) -> int {
        days_before_year(self.year as int) + days_before_month(self.year as int, self.month as int)
            + self.day - 1
    }

    /// The date whose day number is `days`.
    pub open spec fn of_day(days: int) -> Date {
        choose|date: Date| date.valid() && date.day_number() == days
    }
}

/// The day of the week of the day `days`, counted from Monday as 0. January
/// 1, 1970 was a Thursday.
pub open spec fn weekday(days: int) -> int {
    (days + 3) % 7
}

/// Going from `n - 1` to `n`, the quotient by a positive `d` grows by one
/// exactly where `d` divides `n`.
proof fn lemma_quotient_step(n: int, d: int)
    requires
        d > 0,
    ensures
        n / d - (n - 1) / d == if n % d == 0 {
            1int
        } else {
            0int
        },
{
    vstd::arithmetic::div_mod::lemma_fundamental_div_mod(n, d);
    vstd::arithmetic::div_mod::lemma_fundamental_div_mod(n - 1, d);
    vstd::arithmetic::div_mod::lemma_mod_bound(n, d);
    vstd::arithmetic::div_mod::lemma_mod_bound(n - 1, d);
    let q = n / d;
    let p = (n - 1) / d;
    assert(d * q + n % d == n);
    assert(d * p + (n - 1) % d == n - 1);
    assert(d * (q - p) == d * q - d * p) by (nonlinear_arith);
    assert(d * (q - p) == 1 + (n - 1) % d - n % d);
    if q - p >= 2 {
        assert(d * (q - p) >= 2 * d) by (nonlinear_arith)
            requires
                d > 0,
                q - p >= 2,
        ;
    } else if q - p <= -1 {
        assert(d * (q - p) <= -d) by (nonlinear_arith)
            requires
                d > 0,
                q - p <= -1,
        ;
    } else if q - p == 1 {
        assert(d * (q - p) == d) by (nonlinear_arith)
            requires
                q - p == 1,
        ;
    } else {
        assert(d * (q - p) == 0) by (nonlinear_arith)
            requires
                q - p == 0,
        ;
    }
}

/// What divides by 400 divides by 100, and what divides by 100 divides by 4.
proof fn lemma_century_divides(year: int)
    ensures
        year % 400 == 0 ==> year % 100 == 0,
        year % 100 == 0 ==> year % 4 == 0,
{
    vstd::arithmetic::div_mod::lemma_fundamental_div_mod(year, 400);
    vstd::arithmetic::div_mod::lemma_fundamental_div_mod(year, 100);
    vstd::arithmetic::div_mod::lemma_fundamental_div_mod(year, 4);
    if year % 400 == 0 {
        let q = year / 400;
        assert(year == 100 * (4 * q));
        vstd::arithmetic::div_mod::lemma_mod_multiples_basic(4 * q, 100);
        assert((4 * q) * 100 == 100 * (4 * q));
    }
    if year % 100 == 0 {
        let q = year / 100;
        assert(year == 4 * (25 * q));
        vstd::arithmetic::div_mod::lemma_mod_multiples_basic(25 * q, 4);
        assert((25 * q) * 4 == 4 * (25 * q));
    }
}

/// A year is as long as the distance between its first day and the first
/// day of the next.
pub proof fn lemma_year_length(year: int)
    ensures
        days_before_year(year + 1) == days_before_year(year) + if is_leap_year(year) {
            366int
        } else {
            365int
        },
{
    lemma_quotient_step(year, 4);
    lemma_quotient_step(year, 100);
    lemma_quotient_step(year, 400);
    lemma_century_divides(year);
}

/// Later years begin later.
pub proof fn lemma_years_increase(earlier: int, later: int)
    requires
        earlier <= later,
    ensures
        days_before_year(earlier) + 365 * (later - earlier) <= days_before_year(later),
    decreases later - earlier,
{
    if earlier < later {
        lemma_years_increase(earlier, later - 1);
        lemma_year_length(later - 1);
    }
}

/// No two dates share a day number.
pub proof fn lemma_day_number_injective(a: Date, b: Date)
    requires
        a.valid(),
        b.valid(),
        a.day_number() == b.day_number(),
    ensures
        a == b,
{
    if a.year < b.year {
        lemma_year_length(a.year as int);
        lemma_years_increase(a.year + 1, b.year as int);
    } else if b.year < a.year {
        lemma_year_length(b.year as int);
        lemma_years_increase(b.year + 1, a.year as int);
    }
}

/// A date is the date of its day number.
pub proof fn lemma_of_day(date: Date)
    requires
        date.valid(),
    ensures
        Date::of_day(date.day_number()) == date,
{
    let found = Date::of_day(date.day_number());
    lemma_day_number_injective(found, date);
}

/// Whether `year` has a February 29.
pub fn leap_year(year: i32) -> (r: bool)
    requires
        0 <= year <= 10_000,
    ensures
        r == is_leap_year(year as int),
{
    year % 4 == 0 && (year % 100 != 0 || year % 400 == 0)
}

/// The number of days of the month `month` of `year`.
pub fn month_length(year: i32, month: u8) -> (r: u8)
    requires
        0 <= year <= 10_000,
    ensures
        r == days_in_month(year as int, month as int),
{
    if month == 2 {
        if leap_year(year) {
            29
        } else {
            28
        }
    } else if month == 4 || month == 6 || month == 9 || month == 11 {
        30
    } else {
        31
    }
}

/// The number of days of `year` that lie before its month `month`.
pub fn month_start(year: i32, month: u8) -> (r: i64)
    requires
        0 <= year <= 10_000,
    ensures
        r == days_before_month(year as int, month as int),
        0 <= r <= 335,
{
    let leap: i64 = if leap_year(year) && month > 2 {
        1
    } else {
        0
    };
    if month <= 1 {
        0
    } else if month == 2 {
        31
    } else if month == 3 {
        59 + leap
    } else if month == 4 {
        90 + leap
    } else if month == 5 {
        120 + leap
    } else if month == 6 {
        151 + leap
    } else if month == 7 {
        181 + leap
    } else if month == 8 {
        212 + leap
    } else if month == 9 {
        243 + leap
    } else if month == 10 {
        273 + leap
    } else if month == 11 {
        304 + leap
    } else {
        334 + leap
    }
}

/// The day number of January 1 of `year`.
pub fn year_start(year: i32) -> (r: i64)
    requires
        0 <= year <= 10_000,
    ensures
        r == days_before_year(year as int),
        FIRST_DAY <= r,
{
    let y: i64 = year as i64;
    let leaps: i64 = if year == 0 {
        -1
    } else {
        (y - 1) / 4 - (y - 1) / 100 + (y - 1) / 400
    };
    proof {
        lemma_years_increase(0, year as int);
    }
    365 * (y - 1970) + leaps - 477
}

impl Date {
    /// The number of days from January 1, 1970 to this date.
    pub fn to_day_number(self) -> (r: i64)
        requires
            self.valid(),
            0 <= self.year <= 9999,
        ensures
            r == self.day_number(),
            FIRST_DAY <= r <= LAST_DAY,
    {
        proof {
            lemma_years_increase(self.year as int, 9999);
        }
        year_start(self.year) + month_start(self.year, self.month) + self.day as i64 - 1
    }

    /// The date whose day number is `days`, for the days of the years 0 to
    /// 9999.
    pub fn from_day_number(days: i64) -> (r: Date)
        requires
            FIRST_DAY <= days <= LAST_DAY,
        ensures
            r == Date::of_day(days as int),
            r.valid(),
            r.day_number() == days,
            0 <= r.year <= 9999,
    {
        let mut year: i32 = ((days - FIRST_DAY) / 366) as i32;
        while year < 9999 && year_start(year + 1) <= days
            invariant
                0 <= year <= 9999,
                FIRST_DAY <= days <= LAST_DAY,
                days_before_year(year as int) <= days,
            decreases 9999 - year,
        {
            year += 1;
        }
        let day_of_year: i64 = days - year_start(year);
        proof {
            lemma_year_length(year as int);
        }
        let mut month: u8 = 1;
        while month < 12 && month_start(year, month + 1) <= day_of_year
            invariant
                1 <= month <= 12,
                0 <= year <= 9999,
                days_before_month(year as int, month as int) <= day_of_year,
            decreases 12 - month,
        {
            month += 1;
        }
        let day: i64 = day_of_year - month_start(year, month) + 1;
        let date = Date { year, month, day: day as u8 };
        proof {
            lemma_of_day(date);
        }
        date
    }
}

/// The day of the week of the day `days`, counted from Monday as 0.
pub fn day_of_week(days: i64) -> (r: u8)
    requires
        FIRST_DAY <= days <= LAST_DAY,
    ensures
        r == weekday(days as int),
        r < 7,
{
    ((days + 719_533) % 7) as u8
}

/// The first second of the year 0, in seconds since the Unix epoch.
pub const FIRST_SECOND: i64 = -62_167_219_200;

/// The last second of the year 9999, in seconds since the Unix epoch.
pub const LAST_SECOND: i64 = 253_402_300_799;

/// A date and a time of day, in UTC.
#[derive(Clone, Copy, Debug, PartialEq, Eq, Structural)]
pub struct Civil {
    pub date: Date,
    pub hour: u8,
    pub minute: u8,
    pub second: u8,
}

impl Civil {
    /// Whether the date exists and the time of day is one of its seconds.
    pub open spec fn valid(self) -> bool {
        &&& self.date.valid()
        &&& self.hour < 24
        &&& self.minute < 60
        &&& self.second < 60
    }

    /// The seconds from the Unix epoch to this time.
    pub open spec fn seconds(self) -> int {
        self.date.day_number() * 86_400 + self.hour * 3_600 + self.minute * 60 + self.second
    }

    /// The date and time of day at `seconds` from the Unix epoch.
    pub open spec fn of_seconds(seconds: int) -> Civil {
        let in_day = seconds % 86_400;
        Civil {
            date: Date::of_day(seconds / 86_400),
            hour: (in_day / 3_600) as u8,
            minute: (in_day % 3_600 / 60) as u8,
            second: (in_day % 60) as u8,
        }
    }

    /// The seconds from the Unix epoch to this time.
    pub fn to_seconds(self) -> (r: i64)
        requires
            self.valid(),
            0 <= self.date.year <= 9999,
        ensures
            r == self.seconds(),
            FIRST_SECOND <= r <= LAST_SECOND,
    {
        self.date.to_day_number() * SECONDS_PER_DAY + self.hour as i64 * 3_600 + self.minute as i64
            * 60 + self.second as i64
    }

    /// The date and time of day at `seconds` from the Unix epoch, for the
    /// seconds of the years 0 to 9999.
    pub fn from_seconds(seconds: i64) -> (r: Civil)
        requires
            FIRST_SECOND <= seconds <= LAST_SECOND,
        ensures
            r == Civil::of_seconds(seconds as int),
            r.valid(),
            r.seconds() == seconds,
            0 <= r.date.year <= 9999,
            r.date.day_number() == seconds as int / 86_400,
            FIRST_DAY <= seconds as int / 86_400 <= LAST_DAY,
    {
        let shifted: i64 = seconds - FIRST_SECOND;
        let days: i64 = shifted / SECONDS_PER_DAY + FIRST_DAY;
        let in_day: i64 = shifted % SECONDS_PER_DAY;
        proof {
            assert(seconds == days * 86_400 + in_day);
            vstd::arithmetic::div_mod::lemma_fundamental_div_mod_converse(
                seconds as int,
                86_400,
                days as int,
                in_day as int,
            );
        }
        let date = Date::from_day_number(days);
        let r = Civil {
            date,
            hour: (in_day / 3_600) as u8,
            minute: (in_day % 3_600 / 60) as u8,
            second: (in_day % 60) as u8,
        };
        r
    }
}

} // verus!
