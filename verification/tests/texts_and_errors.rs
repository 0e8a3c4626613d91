//! Tests of message rendering, error descriptions and the recovery
//! policy.

use bvilove::actions::{msg_text, Msg};
use bvilove::cities::{City, Gazetteer};
use bvilove::datings::{deactivation_update, DoubleReaction, RateCode};
use bvilove::dialogue::{recover, render_prompt, HandleError, State};
use bvilove::grade::Grade;
use bvilove::subjects::{BitsError, DatingPurpose, Subjects, SubjectsFilter};

fn gazetteer() -> Gazetteer {
    Gazetteer {
        counties: vec![(1, "Центральный".to_string())],
        subjects: vec![(2, "Москва".to_string())],
        cities: vec![((1 << 16) | (2 << 8) | 1, "Москва".to_string())],
    }
}

#[test]
fn fixed_texts() {
    let g = gazetteer();
    assert_eq!(msg_text(&Msg::RequestName, &g), "Как вас называть?");
    assert_eq!(
        msg_text(&Msg::NoCity, &g),
        "Так как вы не указали свой город, мы будем искать людей по всей России"
    );
    assert_eq!(
        msg_text(&Msg::TooManyPhotos, &g),
        "Невозможно добавить более 10 фото/видео"
    );
    assert_eq!(
        msg_text(&Msg::PhotoAdded { count: 3 }, &g),
        "Добавлено 3/10 фото/видео. Добавить ещё?"
    );
    assert_eq!(msg_text(&Msg::LikeSent, &g), "Лайк отправлен!");
    assert_eq!(
        msg_text(&Msg::LeaveEditingFirst, &g),
        "Сначала выйдите из режима редактирования!"
    );
}

#[test]
fn city_confirmation_text() {
    let g = gazetteer();
    let city = City { id: (1 << 16) | (2 << 8) | 1 };
    assert_eq!(
        msg_text(&Msg::CityConfirm { city }, &g),
        "Ваш город - Центральный ФО, Москва?"
    );
}

#[test]
fn chosen_summaries() {
    let g = gazetteer();
    assert_eq!(
        msg_text(&Msg::SubjectsChosen { selected: Subjects { bits: 0 } }, &g),
        "Вы ничего не ботаете."
    );
    assert_eq!(
        msg_text(&Msg::SubjectsChosen { selected: Subjects { bits: 0x10000 } }, &g),
        "Предметы, которые вы ботаете: Математика 📐."
    );
    assert_eq!(
        msg_text(&Msg::PurposeChosen { selected: DatingPurpose { bits: 0b11 } }, &g),
        "Вас интересует: Дружба 🧑‍🤝‍🧑, Учёба 📚."
    );
}

#[test]
fn subjects_filter_summary() {
    let empty = SubjectsFilter { subjects: Subjects { bits: 0 } };
    assert_eq!(empty.to_text(), "Вам не важно, что ботает другой человек.");
    let some = SubjectsFilter { subjects: Subjects { bits: 0x2 } };
    assert_eq!(
        some.to_text(),
        "Предметы, хотя-бы один из которых должен ботать тот, кого вы ищете: Астрономия 🌌"
    );
}

#[test]
fn grade_text() {
    assert_eq!(Grade { value: 9 }.to_text(), "9 класс");
    assert_eq!(Grade { value: 11 }.to_text(), "11 класс");
}

#[test]
fn error_messages() {
    assert_eq!(HandleError::NeedText.message(), "отправьте текст");
    assert_eq!(HandleError::Length.message(), "неправильная длина сообщения");
    assert_eq!(
        HandleError::EmptyPurpose.message(),
        "there must be at least 1 purpose"
    );
    assert_eq!(
        DoubleReaction { code: RateCode::Like }.message(),
        "user abuses likes"
    );
    assert_eq!(
        DoubleReaction { code: RateCode::ResponseDislike }.message(),
        "partner abuses dislikes"
    );
    assert_eq!(BitsError::UnknownBits.message(), "can't construct subjects from bits");
}

#[test]
fn recovery_rerenders_only_retryable_errors() {
    let state = State::SetName(bvilove::dialogue::StateData {
        s: bvilove::profile::UserSettings::with_id(7),
        create_new: true,
        photos_count: 0,
    });
    let again = recover(&state, &HandleError::WrongText).unwrap();
    assert_eq!(again, render_prompt(&state));
    assert!(recover(&state, &HandleError::WrongCallback).is_none());
    assert!(recover(&state, &HandleError::EmptyPurpose).is_none());
}

#[test]
fn blocked_user_deactivation_update() {
    // the self-healing rule: only the activity flag is set
    let upd = deactivation_update(8);
    assert_eq!(upd.id, 8);
    assert_eq!(upd.active, Some(false));
    assert_eq!(upd.name, None);
    assert_eq!(upd.dating_purpose, None);
}
