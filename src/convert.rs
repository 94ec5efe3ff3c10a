use vstd::prelude::*;

use crate::calendar::{
    in_epoch, in_lunar_years, solar_lt, is_convertible_solar, is_valid_solar, lunar_month_day,
    lunar_month_day_of, solar_date_of, solar_of_lunar,
};

verus! {

/// One converted date. A solar-to-lunar answer carries no year; a lunar-to-solar
/// answer carries the solar year.
#[derive(Clone, Debug, PartialEq, Eq, Structural)]
pub struct DateResponse {
    pub year: Option<u32>,
    pub month: u32,
    pub day: u32,
}

/// The answer for a lunar (month, day), without a year.
pub open spec fn lunar_response(md: (u8, u8)) -> DateResponse {
    DateResponse { year: None, month: md.0 as u32, day: md.1 as u32 }
}

/// The answer for a solar (year, month, day).
pub open spec fn solar_response(s: (u16, u8, u8)) -> DateResponse {
    DateResponse { year: Some(s.0 as u32), month: s.1 as u32, day: s.2 as u32 }
}

/// The solar day of an answer that carries a year.
pub open spec fn answer_day(x: DateResponse) -> (int, int, int) {
    (x.year->Some_0 as int, x.month as int, x.day as int)
}

/// The answers contributed by one candidate: one if it exists, none otherwise.
pub open spec fn candidate_answers(c: Option<(u16, u8, u8)>) -> Seq<DateResponse> {
    match c {
        Some(s) => seq![solar_response(s)],
        None => Seq::empty(),
    }
}

/// All answers for a lunar (year, month, day): the ordinary-month reading first, then
/// the leap-month reading, each kept only where that lunisolar date exists.
pub open spec fn lunar_to_solar_answers(year: u16, month: u8, day: u8) -> Seq<DateResponse> {
    candidate_answers(solar_of_lunar(year, month, false, day)) + candidate_answers(
        solar_of_lunar(year, month, true, day),
    )
}

/// Builds the answer of `solar_to_lunar` from what the calendar tables gave.
pub fn lunar_answer(found: Option<(u8, u8)>) -> (r: Option<DateResponse>)
    ensures
        r is Some <==> found is Some,
        r matches Some(x) ==> x == lunar_response(found->Some_0),
{
    match found {
        Some((month, day)) => Some(DateResponse { year: None, month: month as u32, day: day as u32 }),
        None => None,
    }
}

/// Builds the answer of `lunar_to_solar` from the ordinary-month and the leap-month
/// candidates, in that order, dropping those that do not exist.
pub fn solar_answers(ordinary: Option<(u16, u8, u8)>, leap: Option<(u16, u8, u8)>) -> (r: Vec<
    DateResponse,
>)
    ensures
        r@ == candidate_answers(ordinary) + candidate_answers(leap),
{
    let mut out: Vec<DateResponse> = Vec::new();
    let candidates = [ordinary, leap];
    let mut i: usize = 0;
    while i < 2
        invariant
            0 <= i <= 2,
            candidates@ == seq![ordinary, leap],
            out@ == if i == 0 {
                Seq::empty()
            } else if i == 1 {
                candidate_answers(ordinary)
            } else {
                candidate_answers(ordinary) + candidate_answers(leap)
            },
        decreases 2 - i,
    {
        if let Some((y, m, d)) = candidates[i] {
            out.push(DateResponse { year: Some(y as u32), month: m as u32, day: d as u32 });
        }
        proof {
            assert(candidate_answers(ordinary) + Seq::empty() =~= candidate_answers(ordinary));
            assert(Seq::<DateResponse>::empty() + candidate_answers(ordinary) =~= candidate_answers(ordinary));
        }
        i = i + 1;
    }
    out
}

/// Converts a solar date to its lunar month and day.
///
/// There is an answer exactly when the triple is a Gregorian date inside the span of the
/// lunisolar tables; it names the lunar month (1..=12, leap months by their number) and
/// day (1..=30) and leaves the year out.
pub fn solar_to_lunar(year: u16, month: u8, day: u8) -> (r: Option<DateResponse>)
    ensures
        r is Some <==> is_convertible_solar(year as int, month as int, day as int),
        !is_valid_solar(year as int, month as int, day as int) ==> r is None,
        !in_epoch(year as int, month as int, day as int) ==> r is None,
        r matches Some(x) ==> x == lunar_response(lunar_month_day_of(year, month, day)),
        r matches Some(x) ==> x.year is None && 1 <= x.month <= 12 && 1 <= x.day <= 30,
{
    lunar_answer(lunar_month_day(year, month, day))
}

/// Converts a lunar date, given without a leap flag, to the solar dates it can stand for.
///
/// The ordinary-month reading comes first and the leap-month reading second, each only
/// where that lunisolar date exists; an empty list means neither does.
pub fn lunar_to_solar(year: u16, month: u8, day: u8) -> (r: Vec<DateResponse>)
    ensures
        r@ == lunar_to_solar_answers(year, month, day),
        r@.len() <= 2,
        r@.len() == 2 ==> r@[0] == solar_response(solar_of_lunar(year, month, false, day)->Some_0)
            && r@[1] == solar_response(solar_of_lunar(year, month, true, day)->Some_0),
        r@.len() == 2 ==> solar_lt(answer_day(r@[0]), answer_day(r@[1])),
        in_lunar_years(year as int) && 1 <= month <= 12 && 1 <= day <= 29 ==> r@.len() >= 1
            && r@[0] == solar_response(solar_of_lunar(year, month, false, day)->Some_0),
        !(in_lunar_years(year as int) && 1 <= month <= 12 && 1 <= day <= 30) ==> r@.len() == 0,
        forall|i: int|
            0 <= i < r@.len() ==> (#[trigger] r@[i]).year is Some && is_valid_solar(
                r@[i].year->Some_0 as int,
                r@[i].month as int,
                r@[i].day as int,
            ),
{
    let ordinary = solar_date_of(year, month, false, day);
    let leap = solar_date_of(year, month, true, day);
    solar_answers(ordinary, leap)
}

} // verus!
