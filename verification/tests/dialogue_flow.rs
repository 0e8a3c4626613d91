//! Tests of the conversation state machine, the like/match protocol and
//! the matching selector.

use bvilove::actions::{Action, KeyboardSpec, MediaKind, Msg};
use bvilove::cities::{City, Gazetteer, LocationFilter, UserCity};
use bvilove::datings::{react_initiator, react_partner, mutual_match, DatingAttempt, RateCode};
use bvilove::dialogue::{
    city_resolution_step, dating_step, edit_step, handle_callback, handle_command,
    handle_message, render_prompt, start_creation, CallbackOutcome, Command, CommandOutcome,
    HandleError, MessageContent, MessageOutcome, State, StateData,
};
use bvilove::gender::{GenderFilter, UserGender};
use bvilove::grade::GraduationYear;
use bvilove::matching::{is_eligible, select_candidate};
use bvilove::profile::{UserProfile, UserSettings};
use bvilove::subjects::{DatingPurpose, Subjects, SubjectsFilter, UserSubjects};

fn gazetteer() -> Gazetteer {
    Gazetteer {
        counties: vec![(1, "Центральный".to_string())],
        subjects: vec![(2, "Москва".to_string())],
        cities: vec![((1 << 16) | (2 << 8) | 1, "Москва".to_string())],
    }
}

fn creation_draft(id: i64) -> StateData {
    StateData { s: UserSettings::with_id(id), create_new: true, photos_count: 0 }
}

fn profile(id: i64, gender: UserGender, filter: GenderFilter, year: i16) -> UserProfile {
    UserProfile {
        id,
        name: "Саша".to_string(),
        gender,
        gender_filter: filter,
        about: "привет".to_string(),
        active: true,
        graduation_year: GraduationYear { year },
        grade_up_filter: 0,
        grade_down_filter: 0,
        subjects: UserSubjects { subjects: Subjects { bits: 0 } },
        subjects_filter: SubjectsFilter { subjects: Subjects { bits: 0 } },
        dating_purpose: DatingPurpose { bits: 1 },
        city: UserCity { city: None },
        location_filter: LocationFilter::Country,
    }
}

fn done(r: Result<MessageOutcome, HandleError>) -> (State, Vec<Action>) {
    match r.unwrap() {
        MessageOutcome::Done(tr) => (tr.next, tr.actions),
        MessageOutcome::ResolveCity { .. } => panic!("unexpected resolve"),
    }
}

#[test]
fn name_step_advances_in_creation_mode() {
    let g = gazetteer();
    let d = creation_draft(7);
    let (next, actions) = done(handle_message(
        State::SetName(d),
        MessageContent::Text("Алёна".to_string()),
        &g,
    ));
    match &next {
        State::SetGender(d2) => {
            assert_eq!(d2.s.name, Some("Алёна".to_string()));
            assert!(d2.create_new);
        }
        other => panic!("wrong state: {:?}", other),
    }
    // the gender prompt is rendered
    assert_eq!(
        actions,
        vec![Action::Send { msg: Msg::RequestGender, keyboard: Some(KeyboardSpec::Gender) }]
    );
}

#[test]
fn name_step_rejects_wrong_length() {
    let g = gazetteer();
    let r = handle_message(
        State::SetName(creation_draft(7)),
        MessageContent::Text("ab".to_string()),
        &g,
    );
    assert_eq!(r.unwrap_err(), HandleError::Length);
    let seventeen = " streltsy17symbols".to_string();
    let r2 = handle_message(
        State::SetName(creation_draft(7)),
        MessageContent::Text(seventeen),
        &g,
    );
    assert_eq!(r2.unwrap_err(), HandleError::Length);
    // a photo where text is expected asks for text again
    let r3 = handle_message(
        State::SetName(creation_draft(7)),
        MessageContent::Photo("x".to_string()),
        &g,
    );
    assert_eq!(r3.unwrap_err(), HandleError::NeedText);
}

#[test]
fn edit_mode_persists_and_returns_to_start() {
    let g = gazetteer();
    let mut d = creation_draft(7);
    d.create_new = false;
    let (next, actions) = done(handle_message(
        State::SetName(d),
        MessageContent::Text("Алёна".to_string()),
        &g,
    ));
    assert_eq!(next, State::Start);
    assert_eq!(actions.len(), 1);
    match &actions[0] {
        Action::PersistDraft { draft } => {
            assert_eq!(draft.name, Some("Алёна".to_string()));
            assert_eq!(draft.id, 7);
        }
        other => panic!("wrong action: {:?}", other),
    }
}

#[test]
fn city_typo_is_staged_then_left_unspecified() {
    // the fuzzy resolution itself is the transport's concern; emulate it
    // with the similarity matcher over the gazetteer and the documented
    // threshold
    let g = gazetteer();
    let query = "Мосва";
    let mut best: Option<(i32, f64)> = None;
    for (id, name) in &g.cities {
        let score = strsim::jaro_winkler(&query.to_lowercase(), &name.to_lowercase());
        if best.map_or(true, |(_, s)| score > s) {
            best = Some((*id, score));
        }
    }
    let (id, score) = best.unwrap();
    assert!(score > 0.15);
    let d = creation_draft(7);
    // unknown text in the city step asks for resolution
    let r = handle_message(State::SetCity(d), MessageContent::Text(query.to_string()), &g);
    match r.unwrap() {
        MessageOutcome::ResolveCity { text } => assert_eq!(text, "Мосва"),
        other => panic!("wrong outcome: {:?}", other),
    }
    // the resolved city is staged and confirmation requested, same state
    let tr = city_resolution_step(creation_draft(7), Some(City { id }));
    let staged = match &tr.next {
        State::SetCity(d2) => {
            assert_eq!(d2.s.city, Some(UserCity { city: Some(City { id }) }));
            d2.clone()
        }
        other => panic!("wrong state: {:?}", other),
    };
    assert_eq!(
        tr.actions,
        vec![Action::Send {
            msg: Msg::CityConfirm { city: City { id } },
            keyboard: Some(KeyboardSpec::CityConfirm),
        }]
    );
    // "Не указывать" overrides the staged city and forces the
    // country-wide filter, advancing past the location-filter step
    let (next, actions) = done(handle_message(
        State::SetCity(staged),
        MessageContent::Text("Не указывать".to_string()),
        &g,
    ));
    match &next {
        State::SetAbout(d3) => {
            assert_eq!(d3.s.city, Some(UserCity { city: None }));
            assert_eq!(d3.s.location_filter, Some(LocationFilter::Country));
        }
        other => panic!("wrong state: {:?}", other),
    }
    assert_eq!(
        actions[0],
        Action::Send { msg: Msg::NoCity, keyboard: Some(KeyboardSpec::Remove) }
    );
}

#[test]
fn city_confirm_advances_to_location_filter() {
    let g = gazetteer();
    let id = (1 << 16) | (2 << 8) | 1;
    let mut d = creation_draft(7);
    d.s.city = Some(UserCity { city: Some(City { id }) });
    let (next, actions) = done(handle_message(
        State::SetCity(d),
        MessageContent::Text("Верно".to_string()),
        &g,
    ));
    assert!(matches!(next, State::SetLocationFilter(_)));
    assert_eq!(
        actions,
        vec![Action::Send {
            msg: Msg::EditLocationFilter,
            keyboard: Some(KeyboardSpec::LocationChoice { city: City { id } }),
        }]
    );
}

#[test]
fn unresolved_city_reprompts_in_place() {
    let d = creation_draft(7);
    let tr = city_resolution_step(d.clone(), None);
    assert_eq!(tr.next, State::SetCity(d));
    assert_eq!(
        tr.actions,
        vec![Action::Send {
            msg: Msg::CantFindCity,
            keyboard: Some(KeyboardSpec::CityUnspecified),
        }]
    );
}

#[test]
fn photo_loop_caps_at_ten() {
    let g = gazetteer();
    let mut state = State::SetPhotos(creation_draft(7));
    for i in 1..=10u8 {
        let (next, actions) = done(handle_message(
            state,
            MessageContent::Photo(format!("file{}", i)),
            &g,
        ));
        match &next {
            State::SetPhotos(d) => assert_eq!(d.photos_count, i),
            other => panic!("wrong state: {:?}", other),
        }
        // the first upload of the fresh session clears stale attachments
        if i == 1 {
            assert_eq!(actions[0], Action::CleanImages { user_id: 7 });
            assert_eq!(
                actions[1],
                Action::CreateImage {
                    user_id: 7,
                    file_id: "file1".to_string(),
                    kind: MediaKind::Image,
                }
            );
        }
        state = next;
    }
    // the 11th upload is rejected, the counter stays at 10
    let (next, actions) = done(handle_message(
        state,
        MessageContent::Photo("file11".to_string()),
        &g,
    ));
    match &next {
        State::SetPhotos(d) => assert_eq!(d.photos_count, 10),
        other => panic!("wrong state: {:?}", other),
    }
    assert_eq!(
        actions,
        vec![Action::Send { msg: Msg::TooManyPhotos, keyboard: Some(KeyboardSpec::SavePhoto) }]
    );
    // saving finalizes and shows the finished profile
    let (next, actions) = done(handle_message(
        next,
        MessageContent::Text("Сохранить".to_string()),
        &g,
    ));
    assert_eq!(next, State::Start);
    assert_eq!(actions, vec![Action::SendProfilePreview { user_id: 7 }]);
}

#[test]
fn no_photos_clears_and_finalizes() {
    let g = gazetteer();
    let (next, actions) = done(handle_message(
        State::SetPhotos(creation_draft(7)),
        MessageContent::Text("Без фото".to_string()),
        &g,
    ));
    assert_eq!(next, State::Start);
    assert_eq!(
        actions,
        vec![
            Action::CleanImages { user_id: 7 },
            Action::SendProfilePreview { user_id: 7 },
        ]
    );
}

#[test]
fn purpose_continue_empty_is_rejected() {
    let r = handle_callback(State::SetDatingPurpose(creation_draft(7)), "pc", 7);
    assert_eq!(r.unwrap_err(), HandleError::EmptyPurpose);
}

#[test]
fn purpose_continue_persists_exact_subset() {
    // toggle friendship and relationship, then continue, in edit mode
    let mut d = creation_draft(7);
    d.create_new = false;
    let r = handle_callback(State::SetDatingPurpose(d), "p5", 7);
    let tr = match r.unwrap() {
        CallbackOutcome::Done(tr) => tr,
        other => panic!("wrong outcome: {:?}", other),
    };
    let d2 = match tr.next {
        State::SetDatingPurpose(d2) => {
            assert_eq!(d2.s.dating_purpose, Some(DatingPurpose { bits: 5 }));
            d2
        }
        other => panic!("wrong state: {:?}", other),
    };
    let r2 = handle_callback(State::SetDatingPurpose(d2), "pc", 7);
    let tr2 = match r2.unwrap() {
        CallbackOutcome::Done(tr) => tr,
        other => panic!("wrong outcome: {:?}", other),
    };
    assert_eq!(tr2.next, State::Start);
    let persisted = tr2.actions.iter().find_map(|a| match a {
        Action::PersistDraft { draft } => Some(draft.clone()),
        _ => None,
    });
    assert_eq!(persisted.unwrap().dating_purpose, Some(DatingPurpose { bits: 5 }));
}

#[test]
fn purpose_continue_advances_in_creation_mode() {
    let mut d = creation_draft(7);
    d.s.dating_purpose = Some(DatingPurpose { bits: 2 });
    let r = handle_callback(State::SetDatingPurpose(d), "pc", 7);
    let tr = match r.unwrap() {
        CallbackOutcome::Done(tr) => tr,
        other => panic!("wrong outcome: {:?}", other),
    };
    match tr.next {
        State::SetCity(d2) => assert_eq!(d2.s.dating_purpose, Some(DatingPurpose { bits: 2 })),
        other => panic!("wrong state: {:?}", other),
    }
}

#[test]
fn subjects_toggle_rerenders_in_place() {
    let d = creation_draft(7);
    // toggle Math (bit value 65536)
    let r = handle_callback(State::SetSubjects(d), "s65536", 7);
    let tr = match r.unwrap() {
        CallbackOutcome::Done(tr) => tr,
        other => panic!("wrong outcome: {:?}", other),
    };
    match &tr.next {
        State::SetSubjects(d2) => {
            assert_eq!(
                d2.s.subjects,
                Some(UserSubjects { subjects: Subjects { bits: 0x10000 } })
            );
        }
        other => panic!("wrong state: {:?}", other),
    }
    assert_eq!(
        tr.actions,
        vec![Action::EditKeyboard {
            keyboard: KeyboardSpec::SubjectsToggles {
                selected: Subjects { bits: 0x10000 },
                filter: false,
            },
        }]
    );
    // unknown bits are rejected
    let bad = handle_callback(State::SetSubjects(creation_draft(7)), "s16777216", 7);
    assert_eq!(bad.unwrap_err(), HandleError::WrongCallback);
}

#[test]
fn double_reaction_is_rejected_without_side_effects() {
    let dating = DatingAttempt {
        id: 1,
        initiator_id: 7,
        partner_id: 8,
        initiator_reaction: Some(true),
        partner_reaction: None,
        initiator_msg_id: None,
    };
    // a second like or dislike is an abuse error, not a transition
    let like = dating_step(&dating, RateCode::Like);
    assert_eq!(like.unwrap_err(), HandleError::DoubleReaction { code: RateCode::Like });
    let dislike = dating_step(&dating, RateCode::Dislike);
    assert_eq!(
        dislike.unwrap_err(),
        HandleError::DoubleReaction { code: RateCode::Dislike }
    );
    // the record-level guard never rewrites a set reaction
    let again = react_initiator(&dating, RateCode::Like, false);
    assert!(again.is_err());
    assert_eq!(dating.initiator_reaction, Some(true));
}

#[test]
fn mutual_match_scenario() {
    // A (male, seeks female) and B (female, seeks male), same year
    let a = profile(7, UserGender::Male, GenderFilter::Female, 2025);
    let b = profile(8, UserGender::Female, GenderFilter::Male, 2025);
    assert!(is_eligible(&a, &b));
    let candidates = vec![b];
    let picked = select_candidate(&a, &candidates, &vec![]).unwrap();
    assert_eq!(candidates[picked].id, 8);
    // A taps Like on the created attempt
    let attempt = DatingAttempt {
        id: 1,
        initiator_id: 7,
        partner_id: 8,
        initiator_reaction: None,
        partner_reaction: None,
        initiator_msg_id: None,
    };
    let tr = dating_step(&attempt, RateCode::Like).unwrap();
    assert_eq!(tr.next, State::Start);
    assert_eq!(
        tr.actions,
        vec![
            Action::RemoveButtons,
            Action::SetInitiatorReaction { dating_id: 1, value: true },
            Action::SendRecommendation { chat_id: 7 },
            Action::SendLike { dating: attempt, message: None },
        ]
    );
    // storage records the reaction
    let after_like = react_initiator(&attempt, RateCode::Like, true).unwrap();
    assert_eq!(after_like.initiator_reaction, Some(true));
    // B answers with a like: both get the match notification
    let tr2 = dating_step(&after_like, RateCode::ResponseLike).unwrap();
    assert_eq!(
        tr2.actions,
        vec![
            Action::SetPartnerReaction { dating_id: 1, value: true },
            Action::NotifyMutual { dating: after_like },
        ]
    );
    let final_attempt = react_partner(&after_like, RateCode::ResponseLike, true).unwrap();
    assert!(mutual_match(&final_attempt));
}

#[test]
fn matching_filters() {
    let a = profile(7, UserGender::Male, GenderFilter::Female, 2025);
    // wrong gender for A's filter
    let b1 = profile(8, UserGender::Male, GenderFilter::All, 2025);
    assert!(!is_eligible(&a, &b1));
    // B's own filter must admit A symmetrically
    let b2 = profile(8, UserGender::Female, GenderFilter::Female, 2025);
    assert!(!is_eligible(&a, &b2));
    // graduation year outside the zero tolerance
    let b3 = profile(8, UserGender::Female, GenderFilter::Male, 2026);
    assert!(!is_eligible(&a, &b3));
    // inactive profiles are never offered
    let mut b4 = profile(8, UserGender::Female, GenderFilter::Male, 2025);
    b4.active = false;
    assert!(!is_eligible(&a, &b4));
    // the requester itself is excluded
    let b5 = profile(7, UserGender::Female, GenderFilter::Male, 2025);
    assert!(!is_eligible(&a, &b5));
    // a subjects filter requires an intersection
    let mut a2 = profile(7, UserGender::Male, GenderFilter::Female, 2025);
    a2.subjects_filter = SubjectsFilter { subjects: Subjects { bits: 0x10000 } };
    let mut b6 = profile(8, UserGender::Female, GenderFilter::Male, 2025);
    assert!(!is_eligible(&a2, &b6));
    b6.subjects = UserSubjects { subjects: Subjects { bits: 0x10000 | 0x2 } };
    assert!(is_eligible(&a2, &b6));
    // the cool-down exclusion list wins over eligibility
    let b7 = profile(8, UserGender::Female, GenderFilter::Male, 2025);
    assert_eq!(select_candidate(&a, &vec![b7], &vec![8]), None);
}

#[test]
fn render_is_idempotent() {
    let states = vec![
        State::Start,
        State::SetName(creation_draft(7)),
        State::SetSubjects(creation_draft(7)),
        State::SetPhotos(creation_draft(7)),
        State::Edit,
    ];
    for s in &states {
        let first = render_prompt(s);
        let second = render_prompt(s);
        assert_eq!(first, second);
    }
}

#[test]
fn like_with_message_sends_and_cancels() {
    let g = gazetteer();
    let dating = DatingAttempt {
        id: 3,
        initiator_id: 7,
        partner_id: 8,
        initiator_reaction: None,
        partner_reaction: None,
        initiator_msg_id: None,
    };
    let (next, actions) = done(handle_message(
        State::LikeWithMessage { dating },
        MessageContent::Text("привет!".to_string()),
        &g,
    ));
    assert_eq!(next, State::Start);
    assert_eq!(
        actions,
        vec![
            Action::SetInitiatorReaction { dating_id: 3, value: true },
            Action::SendLike { dating, message: Some("привет!".to_string()) },
            Action::Send { msg: Msg::LikeSent, keyboard: Some(KeyboardSpec::Remove) },
            Action::SendRecommendation { chat_id: 7 },
        ]
    );
    // cancelling, or any command, records a dislike instead
    let (_, actions2) = done(handle_message(
        State::LikeWithMessage { dating },
        MessageContent::Text("Отмена".to_string()),
        &g,
    ));
    assert_eq!(
        actions2[0],
        Action::SetInitiatorReaction { dating_id: 3, value: false }
    );
    let (_, actions3) = done(handle_message(
        State::LikeWithMessage { dating },
        MessageContent::Text("/start".to_string()),
        &g,
    ));
    assert_eq!(
        actions3[0],
        Action::SetInitiatorReaction { dating_id: 3, value: false }
    );
}

#[test]
fn reaction_outside_start_only_alerts() {
    let r = handle_callback(State::Edit, "👍3", 7);
    let tr = match r.unwrap() {
        CallbackOutcome::Done(tr) => tr,
        other => panic!("wrong outcome: {:?}", other),
    };
    assert_eq!(tr.next, State::Edit);
    assert_eq!(tr.actions, vec![Action::AnswerAlert { msg: Msg::LeaveEditingFirst }]);
}

#[test]
fn dating_callback_needs_the_attempt() {
    let r = handle_callback(State::Start, "❤41", 7);
    match r.unwrap() {
        CallbackOutcome::NeedDating { dating_id, code } => {
            assert_eq!(dating_id, 41);
            assert_eq!(code, RateCode::ResponseLike);
        }
        other => panic!("wrong outcome: {:?}", other),
    }
    let bad = handle_callback(State::Start, "👍abc", 7);
    assert_eq!(bad.unwrap_err(), HandleError::WrongCallback);
}

#[test]
fn edit_menu_flow() {
    // choosing a field asks for the stored profile
    let r = handle_callback(State::Edit, "eИмя", 7);
    match r.unwrap() {
        CallbackOutcome::NeedProfile { user_id, field } => {
            assert_eq!(user_id, 7);
            assert_eq!(field, "Имя");
        }
        other => panic!("wrong outcome: {:?}", other),
    }
    // the loaded settings enter the single-field state in edit mode
    let mut s = UserSettings::with_id(7);
    s.name = Some("Анна".to_string());
    let tr = edit_step(s, "Имя").unwrap();
    match &tr.next {
        State::SetName(d) => {
            assert!(!d.create_new);
            assert_eq!(d.s.name, Some("Анна".to_string()));
        }
        other => panic!("wrong state: {:?}", other),
    }
    assert_eq!(tr.actions[0], Action::RemoveButtons);
    // cancel leaves the menu
    let r2 = handle_callback(State::Edit, "eОтмена", 7);
    match r2.unwrap() {
        CallbackOutcome::Done(tr) => {
            assert_eq!(tr.next, State::Start);
            assert_eq!(tr.actions, vec![Action::RemoveButtons]);
        }
        other => panic!("wrong outcome: {:?}", other),
    }
    assert_eq!(
        handle_callback(State::Edit, "eВозраст", 7).unwrap_err(),
        HandleError::WrongCallback
    );
}

#[test]
fn profile_creation_start() {
    // without a username the user is asked to make one first
    let tr = start_creation(State::Start, 7, false);
    assert_eq!(tr.next, State::Start);
    assert_eq!(
        tr.actions,
        vec![
            Action::RemoveButtons,
            Action::Send {
                msg: Msg::PleaseAllowForwarding,
                keyboard: Some(KeyboardSpec::UsernameMade),
            },
        ]
    );
    // with one, a fresh creation draft opens at the name step
    let tr2 = start_creation(State::Start, 7, true);
    match &tr2.next {
        State::SetName(d) => {
            assert!(d.create_new);
            assert_eq!(d.s.id, 7);
            assert_eq!(d.photos_count, 0);
        }
        other => panic!("wrong state: {:?}", other),
    }
}

#[test]
fn commands() {
    // commands needing a profile fall back to the please-create prompt
    let r = handle_command(Command::Date, 7, false, State::Start);
    match r {
        CommandOutcome::Done(tr) => assert_eq!(
            tr.actions,
            vec![Action::Send { msg: Msg::PleaseCreateProfile, keyboard: None }]
        ),
        other => panic!("wrong outcome: {:?}", other),
    }
    let r2 = handle_command(Command::Date, 7, true, State::Start);
    match r2 {
        CommandOutcome::Done(tr) => {
            assert_eq!(tr.actions, vec![Action::SendRecommendation { chat_id: 7 }])
        }
        other => panic!("wrong outcome: {:?}", other),
    }
    match handle_command(Command::Create, 7, false, State::Start) {
        CommandOutcome::NeedForwardCheck { chat_id } => assert_eq!(chat_id, 7),
        other => panic!("wrong outcome: {:?}", other),
    }
    match handle_command(Command::Edit, 7, true, State::Start) {
        CommandOutcome::Done(tr) => assert_eq!(tr.next, State::Edit),
        other => panic!("wrong outcome: {:?}", other),
    }
    // enabling persists an activity-only update
    match handle_command(Command::Enable, 7, true, State::Start) {
        CommandOutcome::Done(tr) => {
            let mut expected = UserSettings::with_id(7);
            expected.active = Some(true);
            assert_eq!(
                tr.actions,
                vec![
                    Action::PersistDraft { draft: expected },
                    Action::Send { msg: Msg::ProfileEnabled, keyboard: None },
                ]
            );
        }
        other => panic!("wrong outcome: {:?}", other),
    }
}
