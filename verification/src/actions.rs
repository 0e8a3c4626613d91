//! Side effects of the dialogue engine.
//!
//! A handler returns a list of `Action` values instead of performing
//! I/O; the caller dispatches them to the messaging and storage
//! collaborators. Message texts are semantic values (`Msg`) rendered to
//! their localized wording by `msg_text`; keyboards stay semantic
//! (`KeyboardSpec`) and are laid out by the transport layer.

use vstd::prelude::*;
use crate::cities::{city_text_spec, City, Gazetteer};
use crate::datings::DatingAttempt;
use crate::profile::UserSettings;
use crate::subjects::{
    purpose_list_spec, purpose_list, subjects_list, subjects_list_spec, DatingPurpose, Subjects,
};

verus! {

/// Kind of a stored profile attachment.
#[derive(Clone, Copy, Debug, PartialEq, Eq, Structural)]
pub enum MediaKind {
    Image,
    Video,
}

/// A message the dialogue engine asks the transport to deliver.
#[derive(Clone, Copy, Debug, PartialEq, Eq)]
pub enum Msg {
    RequestName,
    RequestGender,
    RequestGenderFilter,
    RequestGrade,
    EditSubjects,
    EditPartnerSubjects,
    RequestDatingPurpose,
    RequestCity,
    CityConfirm { city: City },
    CantFindCity,
    NoCity,
    EditLocationFilter,
    EditAbout,
    RequestPhotos,
    PhotoAdded { count: u8 },
    TooManyPhotos,
    RequestLikeMessage,
    LikeSent,
    LikeCancelled,
    RequestEdit,
    SubjectsChosen { selected: Subjects },
    SubjectsFilterChosen { selected: Subjects },
    PurposeChosen { selected: DatingPurpose },
    ProfileCreationStarted,
    PleaseAllowForwarding,
    PleaseCreateProfile,
    ProfileEnabled,
    ProfileDisabled,
    PartnerNotFound,
    Greeting,
    CommandList,
    LeaveEditingFirst,
}

/// A keyboard the transport should attach to a message. The layout and
/// callback encodings are the transport's concern; the variants carry
/// what the buttons must mean.
#[derive(Clone, Copy, Debug, PartialEq, Eq)]
pub enum KeyboardSpec {
    /// Remove any reply keyboard.
    Remove,
    /// One button suggesting the chat's own first name, when known.
    SuggestName,
    /// The two gender labels.
    Gender,
    /// The three gender-filter labels.
    GenderFilter,
    /// The single "leave the city unspecified" button.
    CityUnspecified,
    /// Confirm or reject the staged city.
    CityConfirm,
    /// Country, county, subject and city of the given city.
    LocationChoice { city: City },
    /// The single "save photos" button.
    SavePhoto,
    /// The single "no photos" button.
    NoPhotos,
    /// One toggle per subject plus a continue button; `filter` switches
    /// the continue caption between own subjects and partner filter.
    SubjectsToggles { selected: Subjects, filter: bool },
    /// One toggle per dating purpose plus a continue button.
    PurposeToggles { selected: DatingPurpose },
    /// The editable-field menu.
    EditMenu,
    /// Cancel sending a like message.
    Cancel,
    /// Initiator reaction buttons for an attempt.
    Dating { dating_id: i32 },
    /// Partner response buttons for an attempt.
    Response { dating_id: i32 },
    /// The "fill in a profile" button of the greeting.
    CreateProfileButton,
    /// The "I made a username" button under the forwarding request.
    UsernameMade,
}

/// One side effect requested from the collaborators.
#[derive(Clone, Debug, PartialEq, Eq)]
pub enum Action {
    /// Send a message, with an optional keyboard.
    Send { msg: Msg, keyboard: Option<KeyboardSpec> },
    /// Clear the inline buttons of the message that triggered the update.
    RemoveButtons,
    /// Replace the text of the message that triggered the update.
    EditText { msg: Msg },
    /// Replace the inline keyboard of the triggering message.
    EditKeyboard { keyboard: KeyboardSpec },
    /// Answer the callback with an alert.
    AnswerAlert { msg: Msg },
    /// Upsert the draft into storage.
    PersistDraft { draft: UserSettings },
    /// Delete all stored attachments of a user.
    CleanImages { user_id: i64 },
    /// Store one attachment for a user.
    CreateImage { user_id: i64, file_id: String, kind: MediaKind },
    /// Record the initiator's reaction on an attempt.
    SetInitiatorReaction { dating_id: i32, value: bool },
    /// Record the partner's reaction on an attempt.
    SetPartnerReaction { dating_id: i32, value: bool },
    /// Show a user their own finished profile.
    SendProfilePreview { user_id: i64 },
    /// Pick and show the next recommendation for a chat.
    SendRecommendation { chat_id: i64 },
    /// Notify the partner of a like, optionally with a message.
    SendLike { dating: DatingAttempt, message: Option<String> },
    /// Notify both sides of a mutual match with contact buttons.
    NotifyMutual { dating: DatingAttempt },
}

/// Decimal text of an attachment count in 1..=10.
pub open spec fn count_digits_spec(n: int) -> Seq<char> {
    if n == 1 {
        "1"@
    } else if n == 2 {
        "2"@
    } else if n == 3 {
        "3"@
    } else if n == 4 {
        "4"@
    } else if n == 5 {
        "5"@
    } else if n == 6 {
        "6"@
    } else if n == 7 {
        "7"@
    } else if n == 8 {
        "8"@
    } else if n == 9 {
        "9"@
    } else {
        "10"@
    }
}

/// Decimal text of an attachment count in 1..=10.
fn count_digits(n: u8) -> (r: &'static str)
    requires
        1 <= n <= 10,
    ensures
        r@ == count_digits_spec(n as int),
{
    match n {
        1 => "1",
        2 => "2",
        3 => "3",
        4 => "4",
        5 => "5",
        6 => "6",
        7 => "7",
        8 => "8",
        9 => "9",
        _ => "10",
    }
}

/// Localized wording of each message.
pub open spec fn msg_text_spec(m: Msg, g: &Gazetteer) -> Seq<char> {
    match m {
        Msg::RequestName => "Как вас называть?"@,
        Msg::RequestGender => "Теперь выберите ваш пол"@,
        Msg::RequestGenderFilter => "Кого вы хотите заботать?"@,
        Msg::RequestGrade => "В каком вы сейчас классе?\n Примечание: если вы, например, окончили 9-ый класс, но ещё не поступили в 10-ый - вы в 9-ом."@,
        Msg::EditSubjects => "Какие предметы вы ботаете? Нажмите на предмет, чтобы добавить или убрать его."@,
        Msg::EditPartnerSubjects => "Выберите предметы, хотя бы один из которых должен ботать тот, кого вы ищете. Нажмите на предмет, чтобы добавить или убрать его."@,
        Msg::RequestDatingPurpose => "Ради чего вы хотите познакомиться? Можно выбрать несколько вариантов."@,
        Msg::RequestCity => "Напишите название города, в котором вы живёте. Система найдёт город с наиболее похожим названием и попросит подтвердить.\n\nСовет: даже если вы живёте в очень маленьком городе, всё равно лучше указать именно его: на следующем шаге вы сможете выбрать, что ищете людей в своей области или по всей России."@,
        Msg::CityConfirm { city } => "Ваш город - "@ + city_text_spec(g, city.id) + "?"@,
        Msg::CantFindCity => "Не удалось найти город! Попробуйте ввести его имя более точно.\nСовет: посмотрите список городов https://ru.wikipedia.org/wiki/Список_городов_России."@,
        Msg::NoCity => "Так как вы не указали свой город, мы будем искать людей по всей России"@,
        Msg::EditLocationFilter => "Где вы хотите искать людей?\nПо всей стране, в своём федеральном округе, в своём субъекте федерации или только в своём городе?"@,
        Msg::EditAbout => "Расскажите о себе: чем занимаетесь, кого хотите найти"@,
        Msg::RequestPhotos => "Отправьте парочку своих фото или видео"@,
        Msg::PhotoAdded { count } => "Добавлено "@ + count_digits_spec(count as int)
            + "/10 фото/видео. Добавить ещё?"@,
        Msg::TooManyPhotos => "Невозможно добавить более 10 фото/видео"@,
        Msg::RequestLikeMessage => "Введите сообщение, которое вы хотите отправить вместе с лайком"@,
        Msg::LikeSent => "Лайк отправлен!"@,
        Msg::LikeCancelled => "Отправка лайка отменена"@,
        Msg::RequestEdit => "Что вы хотите изменить?"@,
        Msg::SubjectsChosen { selected } => if selected.bits == 0 {
            "Вы ничего не ботаете."@
        } else {
            "Предметы, которые вы ботаете: "@ + subjects_list_spec(selected.bits) + "."@
        },
        Msg::SubjectsFilterChosen { selected } => if selected.bits == 0 {
            "Не важно, что ботает другой человек."@
        } else {
            "Предметы, хотя бы один из которых должен ботать тот, кого вы ищете: "@
                + subjects_list_spec(selected.bits) + "."@
        },
        Msg::PurposeChosen { selected } => "Вас интересует: "@ + purpose_list_spec(
            selected.bits,
        ) + "."@,
        Msg::ProfileCreationStarted => "Начинаем создавать анкету, это не займёт у вас много времени.\nНе волнуйтесь, если где то ошибётесь: вы можете изменить её после регистрации командой /edit."@,
        Msg::PleaseAllowForwarding => "Пожалуйста, создайте имя пользователя или разрешите пересылку своих сообщений в настройках конфиденциальности Telegram. Без этого бот не сможет отправить ссылку на вас другому человеку!"@,
        Msg::PleaseCreateProfile => "Чтобы начать смотреть анкеты, сначала необходимо заполнить свою. Воспользуйтесь командой /create"@,
        Msg::ProfileEnabled => "Ваша анкета включена ✅"@,
        Msg::ProfileDisabled => "Ваша анкета выключена ❌"@,
        Msg::PartnerNotFound => "К сожалению, не удалось никого найти.\nСовет: попробуйте ослабить фильтры или просто немного подождать, так как наш бот не отправляет анкеты одних и тех же людей чаще одного раза в 4 часа."@,
        Msg::Greeting => "Добро пожаловь в бот знакомств для олимпиадников По ЛюБВИ! Рекомендуем подписаться на наш канал: https://t.me/bvilove, там мы будем публиковать новости об обновлениях и проводить опросы о желаемом функционале. \nДавайте начнём с создания анкеты.\n\nВ случае возникновение любых проблем или вопросов обращайтесь к @averyanalex."@,
        Msg::CommandList => "Доступные команды:\n/create — заполнить анкету\n/profile — показать мою анкету\n/edit — изменить анкету\n/date — найти партнёра\n/enable — включить анкету\n/disable — выключить анкету\n/start — приветственное сообщение\n/help — помощь по командам"@,
        Msg::LeaveEditingFirst => "Сначала выйдите из режима редактирования!"@,
    }
}

/// Renders a message to its localized wording.
pub fn msg_text(m: &Msg, g: &Gazetteer) -> (r: String)
    requires
        m matches Msg::CityConfirm { city } ==> city.valid(g),
        m matches Msg::PhotoAdded { count } ==> 1 <= *count <= 10,
    ensures
        r@ == msg_text_spec(*m, g),
{
    match m {
        Msg::RequestName => "Как вас называть?".to_owned(),
        Msg::RequestGender => "Теперь выберите ваш пол".to_owned(),
        Msg::RequestGenderFilter => "Кого вы хотите заботать?".to_owned(),
        Msg::RequestGrade => "В каком вы сейчас классе?\n Примечание: если вы, например, окончили 9-ый класс, но ещё не поступили в 10-ый - вы в 9-ом.".to_owned(),
        Msg::EditSubjects => "Какие предметы вы ботаете? Нажмите на предмет, чтобы добавить или убрать его.".to_owned(),
        Msg::EditPartnerSubjects => "Выберите предметы, хотя бы один из которых должен ботать тот, кого вы ищете. Нажмите на предмет, чтобы добавить или убрать его.".to_owned(),
        Msg::RequestDatingPurpose => "Ради чего вы хотите познакомиться? Можно выбрать несколько вариантов.".to_owned(),
        Msg::RequestCity => "Напишите название города, в котором вы живёте. Система найдёт город с наиболее похожим названием и попросит подтвердить.\n\nСовет: даже если вы живёте в очень маленьком городе, всё равно лучше указать именно его: на следующем шаге вы сможете выбрать, что ищете людей в своей области или по всей России.".to_owned(),
        Msg::CityConfirm { city } => {
            let mut out = "Ваш город - ".to_owned();
            out.append(city.to_text(g).as_str());
            out.append("?");
            out
        },
        Msg::CantFindCity => "Не удалось найти город! Попробуйте ввести его имя более точно.\nСовет: посмотрите список городов https://ru.wikipedia.org/wiki/Список_городов_России.".to_owned(),
        Msg::NoCity => "Так как вы не указали свой город, мы будем искать людей по всей России".to_owned(),
        Msg::EditLocationFilter => "Где вы хотите искать людей?\nПо всей стране, в своём федеральном округе, в своём субъекте федерации или только в своём городе?".to_owned(),
        Msg::EditAbout => "Расскажите о себе: чем занимаетесь, кого хотите найти".to_owned(),
        Msg::RequestPhotos => "Отправьте парочку своих фото или видео".to_owned(),
        Msg::PhotoAdded { count } => {
            let mut out = "Добавлено ".to_owned();
            out.append(count_digits(*count));
            out.append("/10 фото/видео. Добавить ещё?");
            out
        },
        Msg::TooManyPhotos => "Невозможно добавить более 10 фото/видео".to_owned(),
        Msg::RequestLikeMessage => "Введите сообщение, которое вы хотите отправить вместе с лайком".to_owned(),
        Msg::LikeSent => "Лайк отправлен!".to_owned(),
        Msg::LikeCancelled => "Отправка лайка отменена".to_owned(),
        Msg::RequestEdit => "Что вы хотите изменить?".to_owned(),
        Msg::SubjectsChosen { selected } => {
            if selected.is_empty() {
                "Вы ничего не ботаете.".to_owned()
            } else {
                let mut out = "Предметы, которые вы ботаете: ".to_owned();
                out.append(subjects_list(selected).as_str());
                out.append(".");
                out
            }
        },
        Msg::SubjectsFilterChosen { selected } => {
            if selected.is_empty() {
                "Не важно, что ботает другой человек.".to_owned()
            } else {
                let mut out =
                    "Предметы, хотя бы один из которых должен ботать тот, кого вы ищете: ".to_owned();
                out.append(subjects_list(selected).as_str());
                out.append(".");
                out
            }
        },
        Msg::PurposeChosen { selected } => {
            let mut out = "Вас интересует: ".to_owned();
            out.append(purpose_list(selected).as_str());
            out.append(".");
            out
        },
        Msg::ProfileCreationStarted => "Начинаем создавать анкету, это не займёт у вас много времени.\nНе волнуйтесь, если где то ошибётесь: вы можете изменить её после регистрации командой /edit.".to_owned(),
        Msg::PleaseAllowForwarding => "Пожалуйста, создайте имя пользователя или разрешите пересылку своих сообщений в настройках конфиденциальности Telegram. Без этого бот не сможет отправить ссылку на вас другому человеку!".to_owned(),
        Msg::PleaseCreateProfile => "Чтобы начать смотреть анкеты, сначала необходимо заполнить свою. Воспользуйтесь командой /create".to_owned(),
        Msg::ProfileEnabled => "Ваша анкета включена ✅".to_owned(),
        Msg::ProfileDisabled => "Ваша анкета выключена ❌".to_owned(),
        Msg::PartnerNotFound => "К сожалению, не удалось никого найти.\nСовет: попробуйте ослабить фильтры или просто немного подождать, так как наш бот не отправляет анкеты одних и тех же людей чаще одного раза в 4 часа.".to_owned(),
        Msg::Greeting => "Добро пожаловь в бот знакомств для олимпиадников По ЛюБВИ! Рекомендуем подписаться на наш канал: https://t.me/bvilove, там мы будем публиковать новости об обновлениях и проводить опросы о желаемом функционале. \nДавайте начнём с создания анкеты.\n\nВ случае возникновение любых проблем или вопросов обращайтесь к @averyanalex.".to_owned(),
        Msg::CommandList => "Доступные команды:\n/create — заполнить анкету\n/profile — показать мою анкету\n/edit — изменить анкету\n/date — найти партнёра\n/enable — включить анкету\n/disable — выключить анкету\n/start — приветственное сообщение\n/help — помощь по командам".to_owned(),
        Msg::LeaveEditingFirst => "Сначала выйдите из режима редактирования!".to_owned(),
    }
}

} // verus!
