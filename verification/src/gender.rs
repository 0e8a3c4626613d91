//! Gender of a user and the partner-gender filter, with the parsers for
//! the fixed reply-button labels.

use vstd::prelude::*;
use crate::util::str_eq;

verus! {

/// Gender of a user.
#[derive(Clone, Copy, Debug, PartialEq, Eq, Structural)]
pub enum UserGender {
    Female,
    Male,
}

/// Filter on a partner's gender.
#[derive(Clone, Copy, Debug, PartialEq, Eq, Structural)]
pub enum GenderFilter {
    Female,
    Male,
    All,
}

/// What parsing a gender reply-button label yields.
pub open spec fn parse_gender_spec(t: Seq<char>) -> Option<UserGender> {
    if t == "Я парень"@ {
        Some(UserGender::Male)
    } else if t == "Я девушка"@ {
        Some(UserGender::Female)
    } else {
        None
    }
}

/// Parses one of the two fixed gender button labels.
pub fn parse_gender(t: &str) -> (r: Option<UserGender>)
    ensures
        r == parse_gender_spec(t@),
{
    if str_eq(t, "Я парень") {
        Some(UserGender::Male)
    } else if str_eq(t, "Я девушка") {
        Some(UserGender::Female)
    } else {
        None
    }
}

/// What parsing a gender-filter reply-button label yields.
pub open spec fn parse_gender_filter_spec(t: Seq<char>) -> Option<GenderFilter> {
    if t == "Девушку"@ {
        Some(GenderFilter::Female)
    } else if t == "Парня"@ {
        Some(GenderFilter::Male)
    } else if t == "Не важно"@ {
        Some(GenderFilter::All)
    } else {
        None
    }
}

/// Parses one of the three fixed gender-filter button labels.
pub fn parse_gender_filter(t: &str) -> (r: Option<GenderFilter>)
    ensures
        r == parse_gender_filter_spec(t@),
{
    if str_eq(t, "Девушку") {
        Some(GenderFilter::Female)
    } else if str_eq(t, "Парня") {
        Some(GenderFilter::Male)
    } else if str_eq(t, "Не важно") {
        Some(GenderFilter::All)
    } else {
        None
    }
}

impl UserGender {
    /// Emoji shown before the name in a profile.
    pub fn emoji(&self) -> (r: &'static str)
        ensures
            *self is Female ==> r@ == "♀️"@,
            *self is Male ==> r@ == "♂️"@,
    {
        match self {
            UserGender::Female => "♀️",
            UserGender::Male => "♂️",
        }
    }
}

impl GenderFilter {
    /// The filter's fixed button label.
    pub fn label(&self) -> (r: &'static str)
        ensures
            *self is Female ==> r@ == "Девушку"@,
            *self is Male ==> r@ == "Парня"@,
            *self is All ==> r@ == "Не важно"@,
    {
        match self {
            GenderFilter::Female => "Девушку",
            GenderFilter::Male => "Парня",
            GenderFilter::All => "Не важно",
        }
    }

    /// True when a candidate of gender `g` passes the filter.
    pub open spec fn spec_admits(self, g: UserGender) -> bool {
        match self {
            GenderFilter::Female => g is Female,
            GenderFilter::Male => g is Male,
            GenderFilter::All => true,
        }
    }

    /// True when a candidate of gender `g` passes the filter.
    pub fn admits(&self, g: &UserGender) -> (r: bool)
        ensures
            r == self.spec_admits(*g),
    {
        match self {
            GenderFilter::Female => matches!(g, UserGender::Female),
            GenderFilter::Male => matches!(g, UserGender::Male),
            GenderFilter::All => true,
        }
    }
}

} // verus!
