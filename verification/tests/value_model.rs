//! Tests of the profile value model: bitsets, grade conversion, gender
//! parsing, name/about validation and the city table.

use bvilove::cities::{
    city_by_id, city_exists, county_by_id, county_exists, parse_location_filter, subject_by_id,
    subject_exists, City, Gazetteer, LocationFilter, UserCity,
};
use bvilove::gender::{parse_gender, parse_gender_filter, GenderFilter, UserGender};
use bvilove::grade::{
    grade_from_graduation_year, graduation_year_from_grade, Grade, GraduationYear,
};
use bvilove::profile::{validate_about, validate_name};
use bvilove::subjects::{DatingPurpose, Subjects, SubjectsFilter, UserSubjects};

fn sample_gazetteer() -> Gazetteer {
    // id packs (county << 16) | (subject << 8) | low byte
    Gazetteer {
        counties: vec![(1, "Центральный".to_string()), (2, "Северо-Западный".to_string())],
        subjects: vec![(2, "Москва".to_string()), (3, "Тверская область".to_string())],
        cities: vec![
            ((1 << 16) | (2 << 8) | 1, "Москва".to_string()),
            ((1 << 16) | (3 << 8) | 2, "Тверь".to_string()),
            ((2 << 16) | (3 << 8) | 3, "Питер".to_string()),
        ],
    }
}

#[test]
fn grade_round_trip_all_grades() {
    // both sides of the September boundary, for every grade
    for month in [5u32, 10u32] {
        for g in 1..=11i8 {
            let grade = Grade { value: g };
            let gy = graduation_year_from_grade(&grade, 2024, month).unwrap();
            let back = grade_from_graduation_year(&gy, 2024, month).unwrap();
            assert_eq!(back.value, g);
        }
    }
}

#[test]
fn graduation_year_exact_values() {
    // grade 9 in May 2024 graduates in 2026; from September one year later
    let g = Grade { value: 9 };
    assert_eq!(graduation_year_from_grade(&g, 2024, 5).unwrap().year, 2026);
    assert_eq!(graduation_year_from_grade(&g, 2024, 10).unwrap().year, 2027);
    let g11 = Grade { value: 11 };
    assert_eq!(graduation_year_from_grade(&g11, 2024, 8).unwrap().year, 2024);
}

#[test]
fn grade_from_year_rejects_out_of_range() {
    // a graduation year far in the past derives a grade above 11
    let gy = GraduationYear { year: 2000 };
    assert!(grade_from_graduation_year(&gy, 2024, 5).is_err());
    let g = Grade::from_int(0);
    assert!(g.is_err());
    assert!(Grade::from_int(12).is_err());
    assert_eq!(Grade::from_int(11).unwrap().value, 11);
}

#[test]
fn toggle_twice_is_identity() {
    let s = Subjects { bits: 0b1010_1100 };
    let b = Subjects { bits: 0b0110_0001 };
    assert_eq!(s.toggle(b).toggle(b), s);
    let p = DatingPurpose { bits: 0b101 };
    let q = DatingPurpose { bits: 0b011 };
    assert_eq!(p.toggle(q).toggle(q), p);
}

#[test]
fn subjects_from_bits_rejects_unknown() {
    assert!(Subjects::from_bits(-1).is_none());
    assert!(Subjects::from_bits(0x0100_0000).is_none());
    assert_eq!(Subjects::from_bits(0x00FF_FFFF).unwrap().bits, 0x00FF_FFFF);
    assert!(UserSubjects::from_bits(0x4000_0000).is_err());
    assert!(SubjectsFilter::from_bits(-5).is_err());
    assert_eq!(UserSubjects::from_bits(0).unwrap().subjects.bits, 0);
    assert!(DatingPurpose::from_bits(8).is_none());
    assert_eq!(DatingPurpose::from_bits(7).unwrap().bits, 7);
}

#[test]
fn subject_names() {
    assert_eq!(Subjects { bits: 0x10000 }.name().unwrap(), "Математика 📐");
    assert_eq!(Subjects { bits: 0x1 }.name().unwrap(), "Искусство 🎨");
    // two bits set: not a single subject
    assert!(Subjects { bits: 0x3 }.name().is_err());
    assert!(Subjects { bits: 0 }.name().is_err());
    assert_eq!(DatingPurpose { bits: 0x2 }.name().unwrap(), "Учёба 📚");
    assert!(DatingPurpose { bits: 0x6 }.name().is_err());
}

#[test]
fn subjects_list_sorted_case_insensitively() {
    // Math (0x10000) + Physics (0x20000) + English (0x80):
    // sorted by lowercased label
    let s = Subjects { bits: 0x10000 | 0x20000 | 0x80 };
    let listed = bvilove::subjects::subjects_list(&s);
    assert_eq!(listed, "Английский 🇬🇧, Математика 📐, Физика ☢️");
    let empty = Subjects { bits: 0 };
    assert_eq!(bvilove::subjects::subjects_list(&empty), "");
}

#[test]
fn purpose_list_keeps_catalog_order() {
    let p = DatingPurpose { bits: 0b101 };
    assert_eq!(bvilove::subjects::purpose_list(&p), "Дружба 🧑‍🤝‍🧑, Отношения 💕");
}

#[test]
fn user_subjects_text() {
    let none = UserSubjects { subjects: Subjects { bits: 0 } };
    assert_eq!(none.to_text(), "Ничего не ботает");
    let some = UserSubjects { subjects: Subjects { bits: 0x10000 } };
    assert_eq!(some.to_text(), "Ботает: Математика 📐");
}

#[test]
fn gender_parsing_accepts_exact_labels_only() {
    assert_eq!(parse_gender("Я парень"), Some(UserGender::Male));
    assert_eq!(parse_gender("Я девушка"), Some(UserGender::Female));
    assert_eq!(parse_gender("парень"), None);
    assert_eq!(parse_gender_filter("Девушку"), Some(GenderFilter::Female));
    assert_eq!(parse_gender_filter("Парня"), Some(GenderFilter::Male));
    assert_eq!(parse_gender_filter("Не важно"), Some(GenderFilter::All));
    assert_eq!(parse_gender_filter("не важно"), None);
}

#[test]
fn name_validator_counts_code_points() {
    // multi-byte characters: the bounds are in code points, not bytes
    assert!(!validate_name("аб"));
    assert!(validate_name("абв"));
    assert!(validate_name("абвгдежзиклмнопр"));
    assert!(!validate_name("абвгдежзиклмнопрс"));
    assert!(validate_name("Ann"));
    assert!(!validate_name(""));
}

#[test]
fn about_validator_counts_code_points() {
    assert!(!validate_about(""));
    assert!(validate_about("я"));
    let long: String = "ы".repeat(1024);
    assert!(validate_about(&long));
    let too_long: String = "ы".repeat(1025);
    assert!(!validate_about(&too_long));
}

#[test]
fn city_lookups() {
    let g = sample_gazetteer();
    let moscow_id = (1 << 16) | (2 << 8) | 1;
    assert_eq!(county_by_id(&g, moscow_id).unwrap(), "Центральный");
    assert_eq!(subject_by_id(&g, moscow_id).unwrap(), "Москва");
    assert_eq!(city_by_id(&g, moscow_id).unwrap(), "Москва");
    assert!(city_by_id(&g, 12345).is_none());
    assert!(county_exists(&g, "Центральный"));
    assert!(!county_exists(&g, "Южный"));
    assert!(subject_exists(&g, "Москва"));
    assert!(city_exists(&g, "Тверь"));
    assert!(!city_exists(&g, "Казань"));
}

#[test]
fn city_text_merges_subject_and_city_when_equal() {
    let g = sample_gazetteer();
    let moscow = City { id: (1 << 16) | (2 << 8) | 1 };
    assert_eq!(moscow.to_text(&g), "Центральный ФО, Москва");
    let tver = City { id: (1 << 16) | (3 << 8) | 2 };
    assert_eq!(tver.to_text(&g), "Центральный ФО, Тверская область, Тверь");
    let unspecified = UserCity { city: None };
    assert_eq!(unspecified.to_text(&g), "Город не указан");
}

#[test]
fn city_from_id_checks_every_component() {
    let g = sample_gazetteer();
    let ok = City::from_id(&g, (1 << 16) | (2 << 8) | 1);
    assert!(ok.is_ok());
    // county 9 does not exist
    let bad = City::from_id(&g, (9 << 16) | (2 << 8) | 1);
    assert!(bad.is_err());
    assert_eq!(UserCity::from_id(&g, None).unwrap(), UserCity { city: None });
}

#[test]
fn location_filter_parse_priority() {
    let g = sample_gazetteer();
    assert_eq!(parse_location_filter("Вся Россия", &g), Some(LocationFilter::Country));
    // county button carries a " ФО" suffix that is stripped before lookup
    assert_eq!(parse_location_filter("Центральный ФО", &g), Some(LocationFilter::County));
    assert_eq!(parse_location_filter("Тверская область", &g), Some(LocationFilter::Subject));
    assert_eq!(parse_location_filter("Тверь", &g), Some(LocationFilter::City));
    assert_eq!(parse_location_filter("Марс", &g), None);
    // "Москва" is both a subject and a city: the subject wins
    assert_eq!(parse_location_filter("Москва", &g), Some(LocationFilter::Subject));
}

#[test]
fn parse_u32_and_str_eq() {
    assert_eq!(bvilove::util::parse_u32("0"), Some(0));
    assert_eq!(bvilove::util::parse_u32("4294967295"), Some(u32::MAX));
    assert_eq!(bvilove::util::parse_u32("4294967296"), None);
    assert_eq!(bvilove::util::parse_u32(""), None);
    assert_eq!(bvilove::util::parse_u32("12a"), None);
    assert!(bvilove::util::str_eq("Верно", "Верно"));
    assert!(!bvilove::util::str_eq("Верно", "Верн"));
}
