//! School grade and graduation year.
//!
//! A grade (1..=11) converts to the calendar year of graduation relative
//! to "now": before September the conversion assumes the school year in
//! progress, from September on the next one. Only the graduation year is
//! persisted; the displayed grade is re-derived and therefore advances by
//! itself as calendar time passes.

use vstd::prelude::*;
use chrono::Datelike;

verus! {

/// Years handed to the conversions stay far inside `i32`, so the sums
/// below cannot overflow. The clock itself stays within these bounds.
pub const YEAR_MIN: i32 = -262143;

/// Upper bound of the supported calendar years.
pub const YEAR_MAX: i32 = 262142;

/// School grade, 1..=11.
#[derive(Clone, Copy, Debug, PartialEq, Eq, Structural)]
pub struct Grade {
    pub value: i8,
}

/// Calendar year of graduation, as persisted.
#[derive(Clone, Copy, Debug, PartialEq, Eq, Structural)]
pub struct GraduationYear {
    pub year: i16,
}

/// Error of a conversion that falls outside the valid range.
#[derive(Clone, Copy, Debug, PartialEq, Eq, Structural)]
pub enum GradeError {
    OutOfRange,
}

/// Graduation year of a student in grade `g` when the date is
/// (`year`, `month`): the school-year boundary is September.
pub open spec fn grad_year_of(g: int, year: int, month: int) -> int {
    if month < 9 {
        year + (11 - g)
    } else {
        year + (11 - g) + 1
    }
}

/// Grade re-derived from a graduation year at date (`year`, `month`).
pub open spec fn grade_of(gy: int, year: int, month: int) -> int {
    if month < 9 {
        11 - (gy - year)
    } else {
        11 - (gy - year) + 1
    }
}

impl Grade {
    /// The grade lies in 1..=11.
    pub open spec fn wf(self) -> bool {
        1 <= self.value <= 11
    }

    /// Validates an integer as a grade; rejects anything outside 1..=11.
    pub fn from_int(v: i8) -> (r: Result<Grade, GradeError>)
        ensures
            r is Ok <==> 1 <= v <= 11,
            r is Ok ==> r->Ok_0 == (Grade { value: v }),
    {
        if 1 <= v && v <= 11 {
            Ok(Grade { value: v })
        } else {
            Err(GradeError::OutOfRange)
        }
    }

    /// Grade display line, e.g. "9 класс".
    pub fn to_text(&self) -> (r: String)
        requires
            self.wf(),
        ensures
            r@ == grade_text_spec(self.value as int),
    {
        let mut out = digit_text(self.value).to_owned();
        out.append(" класс");
        out
    }
}

/// Decimal text of a grade in 1..=11.
pub open spec fn grade_digits_spec(v: int) -> Seq<char> {
    if v == 1 {
        "1"@
    } else if v == 2 {
        "2"@
    } else if v == 3 {
        "3"@
    } else if v == 4 {
        "4"@
    } else if v == 5 {
        "5"@
    } else if v == 6 {
        "6"@
    } else if v == 7 {
        "7"@
    } else if v == 8 {
        "8"@
    } else if v == 9 {
        "9"@
    } else if v == 10 {
        "10"@
    } else {
        "11"@
    }
}

/// The grade display line: its decimal text followed by " класс".
pub open spec fn grade_text_spec(v: int) -> Seq<char> {
    grade_digits_spec(v) + " класс"@
}

/// Decimal text of a grade in 1..=11.
fn digit_text(v: i8) -> (r: &'static str)
    requires
        1 <= v <= 11,
    ensures
        r@ == grade_digits_spec(v as int),
{
    match v {
        1 => "1",
        2 => "2",
        3 => "3",
        4 => "4",
        5 => "5",
        6 => "6",
        7 => "7",
        8 => "8",
        9 => "9",
        10 => "10",
        _ => "11",
    }
}

/// Converts a grade to the graduation year at date (`year`, `month`).
/// Fails only when the result would not fit the persisted `i16`.
pub fn graduation_year_from_grade(g: &Grade, year: i32, month: u32) -> (r: Result<
    GraduationYear,
    GradeError,
>)
    requires
        g.wf(),
        YEAR_MIN <= year <= YEAR_MAX,
        1 <= month <= 12,
    ensures
        r is Ok <==> i16::MIN <= grad_year_of(g.value as int, year as int, month as int)
            <= i16::MAX,
        r is Ok ==> r->Ok_0.year == grad_year_of(g.value as int, year as int, month as int),
{
    let base: i32 = year + (11 - g.value as i32);
    let gy: i32 = if month < 9 {
        base
    } else {
        base + 1
    };
    if i16::MIN as i32 <= gy && gy <= i16::MAX as i32 {
        Ok(GraduationYear { year: gy as i16 })
    } else {
        Err(GradeError::OutOfRange)
    }
}

/// Re-derives the grade from a graduation year at date (`year`, `month`).
/// Fails exactly when the derived grade falls outside 1..=11.
pub fn grade_from_graduation_year(gy: &GraduationYear, year: i32, month: u32) -> (r: Result<
    Grade,
    GradeError,
>)
    requires
        YEAR_MIN <= year <= YEAR_MAX,
        1 <= month <= 12,
    ensures
        r is Ok <==> 1 <= grade_of(gy.year as int, year as int, month as int) <= 11,
        r is Ok ==> r->Ok_0.value == grade_of(gy.year as int, year as int, month as int)
            && r->Ok_0.wf(),
{
    let base: i32 = 11 - (gy.year as i32 - year);
    let g: i32 = if month < 9 {
        base
    } else {
        base + 1
    };
    if 1 <= g && g <= 11 {
        Ok(Grade { value: g as i8 })
    } else {
        Err(GradeError::OutOfRange)
    }
}

/// For every grade and every date, converting to a graduation year and
/// back at the same date yields the grade again.
pub proof fn lemma_grade_round_trip(g: int, year: int, month: int)
    requires
        1 <= g <= 11,
    ensures
        grade_of(grad_year_of(g, year, month), year, month) == g,
{
}

/// Relies on chrono::Local::now and chrono::Datelike::{year, month}:
/// the month is 1..=12 and the year stays within chrono's documented
/// calendar range (about ±262000 years).
#[verifier::external_body]
pub fn local_now_parts() -> (r: (i32, u32))
    ensures
        YEAR_MIN <= r.0 <= YEAR_MAX,
        1 <= r.1 <= 12,
{
    let now = chrono::Local::now();
    (now.year(), now.month())
}

/// Converts a grade to a graduation year at the current local date:
/// whatever the clock read, the outcome is the pure conversion at some
/// valid date.
pub fn graduation_year_from_grade_now(g: &Grade) -> (r: Result<GraduationYear, GradeError>)
    requires
        g.wf(),
    ensures
        exists|y: int, m: int|
            #![trigger grad_year_of(g.value as int, y, m)]
            {
                &&& YEAR_MIN <= y <= YEAR_MAX
                &&& 1 <= m <= 12
                &&& match r {
                    Ok(gy) => i16::MIN <= grad_year_of(g.value as int, y, m) <= i16::MAX
                        && gy.year == grad_year_of(g.value as int, y, m),
                    Err(_) => !(i16::MIN <= grad_year_of(g.value as int, y, m) <= i16::MAX),
                }
            },
{
    let (year, month) = local_now_parts();
    let r = graduation_year_from_grade(g, year, month);
    proof {
        let y = year as int;
        let m = month as int;
        assert({
            &&& YEAR_MIN <= y <= YEAR_MAX
            &&& 1 <= m <= 12
            &&& match r {
                Ok(gy) => i16::MIN <= grad_year_of(g.value as int, y, m) <= i16::MAX
                    && gy.year == grad_year_of(g.value as int, y, m),
                Err(_) => !(i16::MIN <= grad_year_of(g.value as int, y, m) <= i16::MAX),
            }
        });
    }
    r
}

/// Re-derives the displayed grade from a graduation year at the current
/// local date: whatever the clock read, the outcome is the pure
/// derivation at some valid date, failing exactly when the derived
/// grade leaves 1..=11.
pub fn grade_from_graduation_year_now(gy: &GraduationYear) -> (r: Result<Grade, GradeError>)
    ensures
        r matches Ok(g) ==> g.wf(),
        exists|y: int, m: int|
            #![trigger grade_of(gy.year as int, y, m)]
            {
                &&& YEAR_MIN <= y <= YEAR_MAX
                &&& 1 <= m <= 12
                &&& match r {
                    Ok(g) => 1 <= grade_of(gy.year as int, y, m) <= 11 && g.value == grade_of(
                        gy.year as int,
                        y,
                        m,
                    ),
                    Err(_) => !(1 <= grade_of(gy.year as int, y, m) <= 11),
                }
            },
{
    let (year, month) = local_now_parts();
    let r = grade_from_graduation_year(gy, year, month);
    proof {
        let y = year as int;
        let m = month as int;
        assert({
            &&& YEAR_MIN <= y <= YEAR_MAX
            &&& 1 <= m <= 12
            &&& match r {
                Ok(g) => 1 <= grade_of(gy.year as int, y, m) <= 11 && g.value == grade_of(
                    gy.year as int,
                    y,
                    m,
                ),
                Err(_) => !(1 <= grade_of(gy.year as int, y, m) <= 11),
            }
        });
    }
    r
}

} // verus!
