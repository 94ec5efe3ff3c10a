use vstd::prelude::*;

verus! {

/// Gregorian leap-year rule.
pub open spec fn is_leap_year(year: int) -> bool {
    (year % 4 == 0 && year % 100 != 0) || year % 400 == 0
}

/// Number of days of a Gregorian month (`month` in 1..=12).
pub open spec fn days_in_month(year: int, month: int) -> int {
    if month == 2 {
        if is_leap_year(year) {
            29
        } else {
            28
        }
    } else if month == 4 || month == 6 || month == 9 || month == 11 {
        30
    } else {
        31
    }
}

/// A triple that names a day of the proleptic Gregorian calendar.
pub open spec fn is_valid_solar(year: int, month: int, day: int) -> bool {
    1 <= month <= 12 && 1 <= day <= days_in_month(year, month)
}

/// Chronological order on (year, month, day) triples.
pub open spec fn solar_le(a: (int, int, int), b: (int, int, int)) -> bool {
    a.0 < b.0 || (a.0 == b.0 && (a.1 < b.1 || (a.1 == b.1 && a.2 <= b.2)))
}

/// Strict chronological order on (year, month, day) triples.
pub open spec fn solar_lt(a: (int, int, int), b: (int, int, int)) -> bool {
    solar_le(a, b) && a != b
}

/// A machine-width solar triple read as integers.
pub open spec fn triple(s: (u16, u8, u8)) -> (int, int, int) {
    (s.0 as int, s.1 as int, s.2 as int)
}

/// First solar day that the lunisolar tables cover: the lunar new year of 1901.
pub open spec fn epoch_first() -> (int, int, int) {
    (1901, 2, 19)
}

/// Last solar day that the lunisolar tables cover.
pub open spec fn epoch_last() -> (int, int, int) {
    (2101, 1, 28)
}

/// The solar day lies in the span covered by the lunisolar tables.
pub open spec fn in_epoch(year: int, month: int, day: int) -> bool {
    solar_le(epoch_first(), (year, month, day)) && solar_le((year, month, day), epoch_last())
}

/// A solar triple that can be carried over to the lunisolar calendar.
pub open spec fn is_convertible_solar(year: int, month: int, day: int) -> bool {
    is_valid_solar(year, month, day) && in_epoch(year, month, day)
}

/// Lunisolar years that the tables describe.
pub open spec fn in_lunar_years(year: int) -> bool {
    1901 <= year <= 2100
}

/// Lunar (month, day) of a convertible solar date, as the calendar tables give it.
pub uninterp spec fn lunar_month_day_of(year: u16, month: u8, day: u8) -> (u8, u8);

/// Solar (year, month, day) of a lunisolar date with an explicit leap flag, as the
/// calendar tables give it; `None` where no such lunisolar date exists.
pub uninterp spec fn solar_of_lunar(year: u16, month: u8, leap: bool, day: u8) -> Option<
    (u16, u8, u8),
>;

/// Relies on `SolarDate::from_ymd` (Gregorian validity: month 1..=12, day 1..=31 and at
/// most the month's length), `SolarDate::to_lunisolar_date` (fails exactly outside
/// 1901-02-19..=2101-01-28), and `LunarMonth::to_u8` / `LunarDay::to_u8` (month number
/// 1..=12 without the leap mark, day 1..=30).
#[verifier::external_body]
pub(crate) fn lunar_month_day(year: u16, month: u8, day: u8) -> (r: Option<(u8, u8)>)
    ensures
        r is Some <==> is_convertible_solar(year as int, month as int, day as int),
        r matches Some(p) ==> p == lunar_month_day_of(year, month, day),
        r matches Some(p) ==> 1 <= p.0 <= 12 && 1 <= p.1 <= 30,
{
    let solar = chinese_lunisolar_calendar::SolarDate::from_ymd(year, month, day).ok()?;
    let lunar = solar.to_lunisolar_date().ok()?;
    Some((lunar.to_lunar_month().to_u8(), lunar.to_lunar_day().to_u8()))
}

/// Relies on `LunisolarDate::from_ymd` (fails outside the years 1901..=2100, for a month
/// outside 1..=12, a day outside 1..=30, or a day past the month's 29 or 30 days) and
/// `LunisolarDate::to_solar_date` (always a valid Gregorian date; it counts the days of
/// the lunar year, a leap month after the ordinary month of the same number, and walks
/// forward from the lunar new year, so the leap reading falls after the ordinary one), read
/// back through the `SolarDate` getters of year, month and day.
#[verifier::external_body]
pub(crate) fn solar_date_of(year: u16, month: u8, leap: bool, day: u8) -> (r: Option<
    (u16, u8, u8),
>)
    ensures
        r == solar_of_lunar(year, month, leap, day),
        r is Some ==> in_lunar_years(year as int) && 1 <= month <= 12 && 1 <= day <= 30,
        !leap && in_lunar_years(year as int) && 1 <= month <= 12 && 1 <= day <= 29 ==> r is Some,
        r matches Some(s) ==> is_valid_solar(s.0 as int, s.1 as int, s.2 as int),
        leap && r is Some && solar_of_lunar(year, month, false, day) is Some ==> solar_lt(
            triple(solar_of_lunar(year, month, false, day)->Some_0),
            triple(r->Some_0),
        ),
{
    let lunar = chinese_lunisolar_calendar::LunisolarDate::from_ymd(year, month, leap, day).ok()?;
    let solar = lunar.to_solar_date();
    Some((solar.to_solar_year().to_u16(), solar.to_solar_month().to_u8(), solar.to_solar_day().to_u8()))
}

} // verus!
