//! User profiles: the persisted record, the in-progress draft with
//! optional fields, the public profile card, and the field validators.

use vstd::prelude::*;
use crate::cities::{city_text_spec, Gazetteer, LocationFilter, UserCity};
use crate::gender::{GenderFilter, UserGender};
use crate::grade::{grad_year_of, grade_of, Grade, GraduationYear, YEAR_MAX, YEAR_MIN};
use crate::subjects::{
    purpose_list_spec, purpose_list, user_subjects_text_spec, DatingPurpose, Subjects,
    SubjectsFilter, UserSubjects,
};

verus! {

/// A persisted user profile.
#[derive(Debug, PartialEq, Eq)]
pub struct UserProfile {
    pub id: i64,
    pub name: String,
    pub gender: UserGender,
    pub gender_filter: GenderFilter,
    pub about: String,
    pub active: bool,
    pub graduation_year: GraduationYear,
    pub grade_up_filter: i16,
    pub grade_down_filter: i16,
    pub subjects: UserSubjects,
    pub subjects_filter: SubjectsFilter,
    pub dating_purpose: DatingPurpose,
    pub city: UserCity,
    pub location_filter: LocationFilter,
}

impl Clone for UserProfile {
    /// Field-for-field copy.
    fn clone(&self) -> (res: Self)
        ensures
            res == *self,
    {
        UserProfile {
            id: self.id,
            name: self.name.clone(),
            gender: self.gender,
            gender_filter: self.gender_filter,
            about: self.about.clone(),
            active: self.active,
            graduation_year: self.graduation_year,
            grade_up_filter: self.grade_up_filter,
            grade_down_filter: self.grade_down_filter,
            subjects: self.subjects,
            subjects_filter: self.subjects_filter,
            dating_purpose: self.dating_purpose,
            city: self.city,
            location_filter: self.location_filter,
        }
    }
}

impl UserProfile {
    /// Structural invariant of a persisted profile: valid field lengths,
    /// only defined bits, at least one dating purpose, and a resolvable
    /// city; a missing city forces the country-wide location filter.
    pub open spec fn wf(self, g: &Gazetteer) -> bool {
        &&& 3 <= self.name@.len() <= 16
        &&& 1 <= self.about@.len() <= 1024
        &&& self.subjects.subjects.wf()
        &&& self.subjects_filter.subjects.wf()
        &&& self.dating_purpose.wf()
        &&& self.dating_purpose.bits != 0
        &&& self.city.valid(g)
        &&& self.city.city is None ==> self.location_filter is Country
    }
}

/// In-progress profile draft: every field optional, keyed by chat id.
#[derive(Debug, PartialEq, Eq)]
pub struct UserSettings {
    pub id: i64,
    pub name: Option<String>,
    pub gender: Option<UserGender>,
    pub gender_filter: Option<GenderFilter>,
    pub about: Option<String>,
    pub active: Option<bool>,
    pub grade: Option<Grade>,
    pub grade_up_filter: Option<i16>,
    pub grade_down_filter: Option<i16>,
    pub subjects: Option<UserSubjects>,
    pub subjects_filter: Option<SubjectsFilter>,
    pub dating_purpose: Option<DatingPurpose>,
    pub city: Option<UserCity>,
    pub location_filter: Option<LocationFilter>,
}

/// Clones an optional owned string.
pub fn clone_opt_string(o: &Option<String>) -> (r: Option<String>)
    ensures
        r == *o,
{
    match o {
        Some(s) => Some(s.clone()),
        None => None,
    }
}

impl Clone for UserSettings {
    /// Field-for-field copy.
    fn clone(&self) -> (res: Self)
        ensures
            res == *self,
    {
        UserSettings {
            id: self.id,
            name: clone_opt_string(&self.name),
            gender: self.gender,
            gender_filter: self.gender_filter,
            about: clone_opt_string(&self.about),
            active: self.active,
            grade: self.grade,
            grade_up_filter: self.grade_up_filter,
            grade_down_filter: self.grade_down_filter,
            subjects: self.subjects,
            subjects_filter: self.subjects_filter,
            dating_purpose: self.dating_purpose,
            city: self.city,
            location_filter: self.location_filter,
        }
    }
}

/// The draft with id 0 and every field unset.
pub open spec fn empty_settings_spec() -> UserSettings {
    UserSettings {
        id: 0,
        name: None,
        gender: None,
        gender_filter: None,
        about: None,
        active: None,
        grade: None,
        grade_up_filter: None,
        grade_down_filter: None,
        subjects: None,
        subjects_filter: None,
        dating_purpose: None,
        city: None,
        location_filter: None,
    }
}

impl Default for UserSettings {
    /// The draft with id 0 and every field unset.
    fn default() -> (r: Self)
        ensures
            r == empty_settings_spec(),
    {
        UserSettings {
            id: 0,
            name: None,
            gender: None,
            gender_filter: None,
            about: None,
            active: None,
            grade: None,
            grade_up_filter: None,
            grade_down_filter: None,
            subjects: None,
            subjects_filter: None,
            dating_purpose: None,
            city: None,
            location_filter: None,
        }
    }
}

/// Field whose absence stopped a draft from finalizing.
#[derive(Clone, Copy, Debug, PartialEq, Eq, Structural)]
pub enum FinalizeError {
    MissingName,
    MissingGender,
    MissingGenderFilter,
    MissingAbout,
    MissingGrade,
    MissingSubjects,
    MissingSubjectsFilter,
    MissingDatingPurpose,
    EmptyDatingPurpose,
    YearOutOfRange,
}

impl UserSettings {
    /// A fresh draft for the given chat id.
    pub fn with_id(id: i64) -> (r: Self)
        ensures
            r == (UserSettings { id, ..empty_settings_spec() }),
    {
        UserSettings { id, ..Default::default() }
    }
}

/// What finalizing a draft at date (`year`, `month`) yields: the
/// persisted profile when every required field is present and the
/// dating purpose is non-empty, the first missing field otherwise.
/// A missing city stays unspecified and forces the country-wide filter;
/// activity defaults to on and the grade deltas to zero.
pub open spec fn finalize_spec(s: UserSettings, year: int, month: int) -> Result<
    UserProfile,
    FinalizeError,
> {
    if s.name is None {
        Err(FinalizeError::MissingName)
    } else if s.gender is None {
        Err(FinalizeError::MissingGender)
    } else if s.gender_filter is None {
        Err(FinalizeError::MissingGenderFilter)
    } else if s.about is None {
        Err(FinalizeError::MissingAbout)
    } else if s.grade is None {
        Err(FinalizeError::MissingGrade)
    } else if s.subjects is None {
        Err(FinalizeError::MissingSubjects)
    } else if s.subjects_filter is None {
        Err(FinalizeError::MissingSubjectsFilter)
    } else if s.dating_purpose is None {
        Err(FinalizeError::MissingDatingPurpose)
    } else if s.dating_purpose->0.bits == 0 {
        Err(FinalizeError::EmptyDatingPurpose)
    } else if !(i16::MIN <= grad_year_of(s.grade->0.value as int, year, month) <= i16::MAX) {
        Err(FinalizeError::YearOutOfRange)
    } else {
        let city = match s.city {
            Some(c) => c,
            None => UserCity { city: None },
        };
        Ok(UserProfile {
            id: s.id,
            name: s.name->0,
            gender: s.gender->0,
            gender_filter: s.gender_filter->0,
            about: s.about->0,
            active: match s.active {
                Some(a) => a,
                None => true,
            },
            graduation_year: GraduationYear {
                year: grad_year_of(s.grade->0.value as int, year, month) as i16,
            },
            grade_up_filter: match s.grade_up_filter {
                Some(v) => v,
                None => 0,
            },
            grade_down_filter: match s.grade_down_filter {
                Some(v) => v,
                None => 0,
            },
            subjects: s.subjects->0,
            subjects_filter: s.subjects_filter->0,
            dating_purpose: s.dating_purpose->0,
            city,
            location_filter: match s.city {
                Some(c) => if c.city is None {
                    LocationFilter::Country
                } else {
                    match s.location_filter {
                        Some(lf) => lf,
                        None => LocationFilter::Country,
                    }
                },
                None => LocationFilter::Country,
            },
        })
    }
}

impl UserSettings {
    /// Finalizes the draft into a persisted profile at date
    /// (`year`, `month`); see `finalize_spec` for the exact outcome.
    pub fn finalize(&self, year: i32, month: u32) -> (r: Result<UserProfile, FinalizeError>)
        requires
            YEAR_MIN <= year <= YEAR_MAX,
            1 <= month <= 12,
            self.grade matches Some(g) ==> g.wf(),
        ensures
            r == finalize_spec(*self, year as int, month as int),
    {
        let name = match &self.name {
            Some(n) => n.clone(),
            None => {
                return Err(FinalizeError::MissingName);
            },
        };
        let gender = match self.gender {
            Some(v) => v,
            None => {
                return Err(FinalizeError::MissingGender);
            },
        };
        let gender_filter = match self.gender_filter {
            Some(v) => v,
            None => {
                return Err(FinalizeError::MissingGenderFilter);
            },
        };
        let about = match &self.about {
            Some(v) => v.clone(),
            None => {
                return Err(FinalizeError::MissingAbout);
            },
        };
        let grade = match self.grade {
            Some(v) => v,
            None => {
                return Err(FinalizeError::MissingGrade);
            },
        };
        let subjects = match self.subjects {
            Some(v) => v,
            None => {
                return Err(FinalizeError::MissingSubjects);
            },
        };
        let subjects_filter = match self.subjects_filter {
            Some(v) => v,
            None => {
                return Err(FinalizeError::MissingSubjectsFilter);
            },
        };
        let dating_purpose = match self.dating_purpose {
            Some(v) => v,
            None => {
                return Err(FinalizeError::MissingDatingPurpose);
            },
        };
        if dating_purpose.is_empty() {
            return Err(FinalizeError::EmptyDatingPurpose);
        }
        let graduation_year = match crate::grade::graduation_year_from_grade(
            &grade,
            year,
            month,
        ) {
            Ok(v) => v,
            Err(_) => {
                return Err(FinalizeError::YearOutOfRange);
            },
        };
        let city = match self.city {
            Some(c) => c,
            None => UserCity { city: None },
        };
        let location_filter = match self.city {
            Some(c) => match c.city {
                None => LocationFilter::Country,
                Some(_) => match self.location_filter {
                    Some(lf) => lf,
                    None => LocationFilter::Country,
                },
            },
            None => LocationFilter::Country,
        };
        Ok(UserProfile {
            id: self.id,
            name,
            gender,
            gender_filter,
            about,
            active: match self.active {
                Some(a) => a,
                None => true,
            },
            graduation_year,
            grade_up_filter: match self.grade_up_filter {
                Some(v) => v,
                None => 0,
            },
            grade_down_filter: match self.grade_down_filter {
                Some(v) => v,
                None => 0,
            },
            subjects,
            subjects_filter,
            dating_purpose,
            city,
            location_filter,
        })
    }
}

/// True when a display name has a valid length: the bounds are counted
/// in Unicode code points, both inclusive.
pub fn validate_name(t: &str) -> (r: bool)
    ensures
        r == (3 <= t@.len() <= 16),
{
    let n = t.unicode_len();
    3 <= n && n <= 16
}

/// True when an "about" text has a valid length in code points.
pub fn validate_about(t: &str) -> (r: bool)
    ensures
        r == (1 <= t@.len() <= 1024),
{
    let n = t.unicode_len();
    1 <= n && n <= 1024
}

/// Public profile card of a user, as other users see it.
#[derive(Debug, PartialEq, Eq)]
pub struct PublicProfile {
    pub name: String,
    pub gender: UserGender,
    pub grade: Grade,
    pub subjects: UserSubjects,
    pub dating_purpose: DatingPurpose,
    pub city: UserCity,
    pub about: String,
}

impl Clone for PublicProfile {
    /// Field-for-field copy.
    fn clone(&self) -> (res: Self)
        ensures
            res == *self,
    {
        PublicProfile {
            name: self.name.clone(),
            gender: self.gender,
            grade: self.grade,
            subjects: self.subjects,
            dating_purpose: self.dating_purpose,
            city: self.city,
            about: self.about.clone(),
        }
    }
}

/// What building a public profile card at date (`year`, `month`) yields:
/// it fails exactly when the re-derived display grade leaves 1..=11.
pub open spec fn public_profile_spec(p: UserProfile, year: int, month: int) -> Result<
    PublicProfile,
    crate::grade::GradeError,
> {
    if 1 <= grade_of(p.graduation_year.year as int, year, month) <= 11 {
        Ok(PublicProfile {
            name: p.name,
            gender: p.gender,
            grade: Grade { value: grade_of(p.graduation_year.year as int, year, month) as i8 },
            subjects: p.subjects,
            dating_purpose: p.dating_purpose,
            city: p.city,
            about: p.about,
        })
    } else {
        Err(crate::grade::GradeError::OutOfRange)
    }
}

impl PublicProfile {
    /// Builds the public card of a persisted profile at date
    /// (`year`, `month`).
    pub fn from_profile(p: &UserProfile, year: i32, month: u32) -> (r: Result<
        PublicProfile,
        crate::grade::GradeError,
    >)
        requires
            YEAR_MIN <= year <= YEAR_MAX,
            1 <= month <= 12,
        ensures
            r == public_profile_spec(*p, year as int, month as int),
    {
        let grade = match crate::grade::grade_from_graduation_year(
            &p.graduation_year,
            year,
            month,
        ) {
            Ok(g) => g,
            Err(e) => {
                return Err(e);
            },
        };
        Ok(PublicProfile {
            name: p.name.clone(),
            gender: p.gender,
            grade,
            subjects: p.subjects,
            dating_purpose: p.dating_purpose,
            city: p.city,
            about: p.about.clone(),
        })
    }
}

/// The gender emoji opening a profile card.
pub open spec fn gender_emoji_spec(g: UserGender) -> Seq<char> {
    match g {
        UserGender::Female => "♀️"@,
        UserGender::Male => "♂️"@,
    }
}

/// Full text of a public profile card.
pub open spec fn profile_text_spec(p: PublicProfile, g: &Gazetteer) -> Seq<char> {
    gender_emoji_spec(p.gender) + " "@ + p.name@ + ", "@ + crate::grade::grade_text_spec(
        p.grade.value as int,
    ) + ".\n🔎 Интересует: "@ + purpose_list_spec(p.dating_purpose.bits) + ".\n📚 "@
        + user_subjects_text_spec(p.subjects.subjects.bits) + ".\n🧭 "@ + (match p.city.city {
        Some(c) => city_text_spec(g, c.id),
        None => "Город не указан"@,
    }) + ".\n\n"@ + p.about@
}

impl PublicProfile {
    /// Renders the profile card a user sees.
    pub fn to_text(&self, g: &Gazetteer) -> (r: String)
        requires
            self.grade.wf(),
            self.city.valid(g),
        ensures
            r@ == profile_text_spec(*self, g),
    {
        let mut out = self.gender.emoji().to_owned();
        out.append(" ");
        out.append(self.name.as_str());
        out.append(", ");
        out.append(self.grade.to_text().as_str());
        out.append(".\n🔎 Интересует: ");
        out.append(purpose_list(&self.dating_purpose).as_str());
        out.append(".\n📚 ");
        out.append(self.subjects.to_text().as_str());
        out.append(".\n🧭 ");
        out.append(self.city.to_text(g).as_str());
        out.append(".\n\n");
        out.append(self.about.as_str());
        out
    }
}

} // verus!

verus! {

/// Why a persisted row failed to decode.
#[derive(Clone, Copy, Debug, PartialEq, Eq, Structural)]
pub enum RowError {
    BadSubjects,
    BadSubjectsFilter,
    BadPurpose,
    BadCity(crate::cities::CityError),
}

/// What decoding a raw persisted row yields: each bitset must hold only
/// defined bits and the city id must resolve in the lookup table; the
/// first failing field names the error.
pub open spec fn from_row_spec(
    g: &Gazetteer,
    id: i64,
    name: String,
    gender: UserGender,
    gender_filter: GenderFilter,
    about: String,
    active: bool,
    graduation_year: i16,
    grade_up_filter: i16,
    grade_down_filter: i16,
    subjects_bits: i32,
    filter_bits: i32,
    purpose_bits: i16,
    city_id: Option<i32>,
    location_filter: LocationFilter,
) -> Result<UserProfile, RowError> {
    if !(0 <= subjects_bits && (subjects_bits as u32) & crate::subjects::SUBJECTS_MASK
        == subjects_bits as u32) {
        Err(RowError::BadSubjects)
    } else if !(0 <= filter_bits && (filter_bits as u32) & crate::subjects::SUBJECTS_MASK
        == filter_bits as u32) {
        Err(RowError::BadSubjectsFilter)
    } else if !(0 <= purpose_bits && (purpose_bits as u16) & crate::subjects::PURPOSE_MASK
        == purpose_bits as u16) {
        Err(RowError::BadPurpose)
    } else {
        match city_id {
            Some(v) => if (crate::cities::City { id: v }).valid(g) {
                Ok(UserProfile {
                    id,
                    name,
                    gender,
                    gender_filter,
                    about,
                    active,
                    graduation_year: GraduationYear { year: graduation_year },
                    grade_up_filter,
                    grade_down_filter,
                    subjects: UserSubjects {
                        subjects: Subjects { bits: subjects_bits as u32 },
                    },
                    subjects_filter: SubjectsFilter {
                        subjects: Subjects { bits: filter_bits as u32 },
                    },
                    dating_purpose: DatingPurpose { bits: purpose_bits as u16 },
                    city: UserCity { city: Some(crate::cities::City { id: v }) },
                    location_filter,
                })
            } else {
                Err(RowError::BadCity(crate::cities::CityError::CityNotFound))
            },
            None => Ok(UserProfile {
                id,
                name,
                gender,
                gender_filter,
                about,
                active,
                graduation_year: GraduationYear { year: graduation_year },
                grade_up_filter,
                grade_down_filter,
                subjects: UserSubjects { subjects: Subjects { bits: subjects_bits as u32 } },
                subjects_filter: SubjectsFilter {
                    subjects: Subjects { bits: filter_bits as u32 },
                },
                dating_purpose: DatingPurpose { bits: purpose_bits as u16 },
                city: UserCity { city: None },
                location_filter,
            }),
        }
    }
}

impl UserProfile {
    /// Decodes a raw persisted row, validating the bitsets and the city
    /// against the lookup table.
    pub fn from_row(
        g: &Gazetteer,
        id: i64,
        name: String,
        gender: UserGender,
        gender_filter: GenderFilter,
        about: String,
        active: bool,
        graduation_year: i16,
        grade_up_filter: i16,
        grade_down_filter: i16,
        subjects_bits: i32,
        filter_bits: i32,
        purpose_bits: i16,
        city_id: Option<i32>,
        location_filter: LocationFilter,
    ) -> (r: Result<UserProfile, RowError>)
        ensures
            match r {
                Ok(p) => from_row_spec(
                    g,
                    id,
                    name,
                    gender,
                    gender_filter,
                    about,
                    active,
                    graduation_year,
                    grade_up_filter,
                    grade_down_filter,
                    subjects_bits,
                    filter_bits,
                    purpose_bits,
                    city_id,
                    location_filter,
                ) == Ok::<UserProfile, RowError>(p),
                Err(e) => from_row_spec(
                    g,
                    id,
                    name,
                    gender,
                    gender_filter,
                    about,
                    active,
                    graduation_year,
                    grade_up_filter,
                    grade_down_filter,
                    subjects_bits,
                    filter_bits,
                    purpose_bits,
                    city_id,
                    location_filter,
                ) == Err::<UserProfile, RowError>(e),
            },
    {
        let subjects = match UserSubjects::from_bits(subjects_bits) {
            Ok(v) => v,
            Err(_) => {
                return Err(RowError::BadSubjects);
            },
        };
        let subjects_filter = match SubjectsFilter::from_bits(filter_bits) {
            Ok(v) => v,
            Err(_) => {
                return Err(RowError::BadSubjectsFilter);
            },
        };
        let dating_purpose = match DatingPurpose::from_bits(purpose_bits) {
            Some(v) => v,
            None => {
                return Err(RowError::BadPurpose);
            },
        };
        let city = match city_id {
            Some(v) => match crate::cities::City::from_id(g, v) {
                Ok(c) => UserCity { city: Some(c) },
                Err(_) => {
                    return Err(RowError::BadCity(crate::cities::CityError::CityNotFound));
                },
            },
            None => UserCity { city: None },
        };
        Ok(UserProfile {
            id,
            name,
            gender,
            gender_filter,
            about,
            active,
            graduation_year: GraduationYear { year: graduation_year },
            grade_up_filter,
            grade_down_filter,
            subjects,
            subjects_filter,
            dating_purpose,
            city,
            location_filter,
        })
    }
}

impl UserSettings {
    /// The fully-populated draft of a stored profile, as the edit
    /// dialogue pre-loads it. The stored graduation year is carried as
    /// a re-derived grade by the caller when needed; here every other
    /// field is filled.
    pub fn from_profile(p: &UserProfile) -> (r: UserSettings)
        ensures
            r.id == p.id,
            r.name == Some(p.name),
            r.gender == Some(p.gender),
            r.gender_filter == Some(p.gender_filter),
            r.about == Some(p.about),
            r.active == Some(p.active),
            r.grade is None,
            r.grade_up_filter == Some(p.grade_up_filter),
            r.grade_down_filter == Some(p.grade_down_filter),
            r.subjects == Some(p.subjects),
            r.subjects_filter == Some(p.subjects_filter),
            r.dating_purpose == Some(p.dating_purpose),
            r.city == Some(p.city),
            r.location_filter == Some(p.location_filter),
    {
        UserSettings {
            id: p.id,
            name: Some(p.name.clone()),
            gender: Some(p.gender),
            gender_filter: Some(p.gender_filter),
            about: Some(p.about.clone()),
            active: Some(p.active),
            grade: None,
            grade_up_filter: Some(p.grade_up_filter),
            grade_down_filter: Some(p.grade_down_filter),
            subjects: Some(p.subjects),
            subjects_filter: Some(p.subjects_filter),
            dating_purpose: Some(p.dating_purpose),
            city: Some(p.city),
            location_filter: Some(p.location_filter),
        }
    }
}

} // verus!
