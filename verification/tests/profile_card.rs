//! Tests of draft finalization, the public profile card and the
//! clock-based conversions.

use bvilove::cities::{City, Gazetteer, LocationFilter, UserCity};
use bvilove::gender::{GenderFilter, UserGender};
use bvilove::grade::{graduation_year_from_grade_now, Grade};
use bvilove::profile::{FinalizeError, PublicProfile, RowError, UserProfile, UserSettings};
use bvilove::subjects::{DatingPurpose, Subjects, SubjectsFilter, UserSubjects};

fn gazetteer() -> Gazetteer {
    Gazetteer {
        counties: vec![(1, "Центральный".to_string())],
        subjects: vec![(2, "Москва".to_string())],
        cities: vec![((1 << 16) | (2 << 8) | 1, "Москва".to_string())],
    }
}

fn full_draft() -> UserSettings {
    let mut s = UserSettings::with_id(7);
    s.name = Some("Алёна".to_string());
    s.gender = Some(UserGender::Female);
    s.gender_filter = Some(GenderFilter::Male);
    s.about = Some("Люблю математику".to_string());
    s.grade = Some(Grade { value: 9 });
    s.subjects = Some(UserSubjects { subjects: Subjects { bits: 0x10000 } });
    s.subjects_filter = Some(SubjectsFilter { subjects: Subjects { bits: 0 } });
    s.dating_purpose = Some(DatingPurpose { bits: 0b011 });
    s.city = Some(UserCity { city: Some(City { id: (1 << 16) | (2 << 8) | 1 }) });
    s.location_filter = Some(LocationFilter::City);
    s
}

#[test]
fn finalize_full_draft() {
    let p = full_draft().finalize(2024, 5).unwrap();
    assert_eq!(p.id, 7);
    assert_eq!(p.name, "Алёна");
    assert_eq!(p.graduation_year.year, 2026);
    assert!(p.active);
    assert_eq!(p.grade_up_filter, 0);
    assert_eq!(p.grade_down_filter, 0);
    assert_eq!(p.location_filter, LocationFilter::City);
    assert_eq!(p.dating_purpose, DatingPurpose { bits: 0b011 });
}

#[test]
fn finalize_reports_first_missing_field() {
    let mut s = full_draft();
    s.name = None;
    assert_eq!(s.finalize(2024, 5).unwrap_err(), FinalizeError::MissingName);
    let mut s2 = full_draft();
    s2.grade = None;
    assert_eq!(s2.finalize(2024, 5).unwrap_err(), FinalizeError::MissingGrade);
    let mut s3 = full_draft();
    s3.dating_purpose = Some(DatingPurpose { bits: 0 });
    assert_eq!(s3.finalize(2024, 5).unwrap_err(), FinalizeError::EmptyDatingPurpose);
    let mut s4 = full_draft();
    s4.dating_purpose = None;
    assert_eq!(s4.finalize(2024, 5).unwrap_err(), FinalizeError::MissingDatingPurpose);
}

#[test]
fn finalize_missing_city_forces_country() {
    let mut s = full_draft();
    s.city = None;
    s.location_filter = Some(LocationFilter::City);
    let p = s.finalize(2024, 5).unwrap();
    assert_eq!(p.city, UserCity { city: None });
    assert_eq!(p.location_filter, LocationFilter::Country);
    let mut s2 = full_draft();
    s2.city = Some(UserCity { city: None });
    let p2 = s2.finalize(2024, 5).unwrap();
    assert_eq!(p2.location_filter, LocationFilter::Country);
}

#[test]
fn profile_card_text() {
    let g = gazetteer();
    let p = full_draft().finalize(2024, 5).unwrap();
    let card = PublicProfile::from_profile(&p, 2024, 5).unwrap();
    assert_eq!(card.grade.value, 9);
    let text = card.to_text(&g);
    assert_eq!(
        text,
        "♀️ Алёна, 9 класс.\n🔎 Интересует: Дружба 🧑‍🤝‍🧑, Учёба 📚.\n📚 Ботает: Математика 📐.\n🧭 Центральный ФО, Москва.\n\nЛюблю математику"
    );
}

#[test]
fn clock_conversion_uses_current_date() {
    // the wrapper reads the real clock; any grade converts to a year at
    // or after the current school year's start
    let gy = graduation_year_from_grade_now(&Grade { value: 11 }).unwrap();
    assert!(gy.year >= 2024);
    let gy1 = graduation_year_from_grade_now(&Grade { value: 1 }).unwrap();
    assert_eq!(gy1.year - gy.year, 10);
}

#[test]
fn row_decoding_validates_bits_and_city() {
    let g = gazetteer();
    let moscow = (1 << 16) | (2 << 8) | 1;
    let ok = UserProfile::from_row(
        &g,
        7,
        "Алёна".to_string(),
        UserGender::Female,
        GenderFilter::Male,
        "Привет".to_string(),
        true,
        2026,
        0,
        0,
        0x10000,
        0,
        3,
        Some(moscow),
        LocationFilter::City,
    )
    .unwrap();
    assert_eq!(ok.subjects.subjects.bits, 0x10000);
    assert_eq!(ok.city, UserCity { city: Some(City { id: moscow }) });
    // unknown subject bits are refused
    let bad_bits = UserProfile::from_row(
        &g,
        7,
        "Алёна".to_string(),
        UserGender::Female,
        GenderFilter::Male,
        "Привет".to_string(),
        true,
        2026,
        0,
        0,
        0x0100_0000,
        0,
        3,
        None,
        LocationFilter::Country,
    );
    assert_eq!(bad_bits.unwrap_err(), RowError::BadSubjects);
    // a city id whose county is unknown is refused
    let bad_city = UserProfile::from_row(
        &g,
        7,
        "Алёна".to_string(),
        UserGender::Female,
        GenderFilter::Male,
        "Привет".to_string(),
        true,
        2026,
        0,
        0,
        0,
        0,
        3,
        Some((9 << 16) | (2 << 8) | 1),
        LocationFilter::City,
    );
    assert!(bad_city.is_err());
    // the edit dialogue pre-loads every stored field
    let settings = bvilove::profile::UserSettings::from_profile(&ok);
    assert_eq!(settings.name, Some("Алёна".to_string()));
    assert_eq!(settings.city, Some(UserCity { city: Some(City { id: moscow }) }));
    assert_eq!(settings.grade, None);
}
