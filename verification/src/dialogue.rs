//! The conversation state machine.
//!
//! Each state collects one profile field. A handler is a pure function
//! from the current state and the incoming update to the next state and
//! a list of side effects; the caller performs the effects and stores
//! the new state. Two modes share the states: creation mode walks the
//! full fixed sequence, edit mode collects a single field, persists it
//! and returns to the start.

use vstd::prelude::*;
use crate::actions::{Action, KeyboardSpec, MediaKind, Msg};
use crate::cities::{parse_location_filter, parse_location_filter_spec, City, Gazetteer,
    LocationFilter, UserCity};
use crate::datings::{DatingAttempt, RateCode};
use crate::gender::{parse_gender, parse_gender_filter, parse_gender_spec,
    parse_gender_filter_spec};
use crate::grade::Grade;
use crate::profile::{validate_about, validate_name, UserSettings};
use crate::subjects::{DatingPurpose, Subjects, SubjectsFilter, UserSubjects};
use crate::util::{all_digits, digits_value, parse_u32, str_eq};

verus! {

/// Payload of every field-collecting state: the draft, the dialogue
/// mode, and the photo counter.
#[derive(Debug, PartialEq, Eq)]
pub struct StateData {
    pub s: UserSettings,
    pub create_new: bool,
    pub photos_count: u8,
}

impl Clone for StateData {
    /// Field-for-field copy.
    fn clone(&self) -> (res: Self)
        ensures
            res == *self,
    {
        StateData { s: self.s.clone(), create_new: self.create_new, photos_count: self.photos_count }
    }
}

impl StateData {
    /// Wraps loaded settings for an edit-mode dialogue.
    pub fn with_settings(s: UserSettings) -> (r: Self)
        ensures
            r == (StateData { s, create_new: false, photos_count: 0 }),
    {
        StateData { s, create_new: false, photos_count: 0 }
    }
}

/// The dialogue state, one per profile field being collected.
#[derive(Debug, PartialEq, Eq)]
pub enum State {
    Start,
    SetName(StateData),
    SetGender(StateData),
    SetGenderFilter(StateData),
    SetGraduationYear(StateData),
    SetSubjects(StateData),
    SetSubjectsFilter(StateData),
    SetDatingPurpose(StateData),
    SetCity(StateData),
    SetLocationFilter(StateData),
    SetAbout(StateData),
    SetPhotos(StateData),
    /// Waiting for the message to send along with a like.
    LikeWithMessage { dating: DatingAttempt },
    Edit,
}

impl Clone for State {
    /// Field-for-field copy.
    fn clone(&self) -> (res: Self)
        ensures
            res == *self,
    {
        match self {
            State::Start => State::Start,
            State::SetName(d) => State::SetName(d.clone()),
            State::SetGender(d) => State::SetGender(d.clone()),
            State::SetGenderFilter(d) => State::SetGenderFilter(d.clone()),
            State::SetGraduationYear(d) => State::SetGraduationYear(d.clone()),
            State::SetSubjects(d) => State::SetSubjects(d.clone()),
            State::SetSubjectsFilter(d) => State::SetSubjectsFilter(d.clone()),
            State::SetDatingPurpose(d) => State::SetDatingPurpose(d.clone()),
            State::SetCity(d) => State::SetCity(d.clone()),
            State::SetLocationFilter(d) => State::SetLocationFilter(d.clone()),
            State::SetAbout(d) => State::SetAbout(d.clone()),
            State::SetPhotos(d) => State::SetPhotos(d.clone()),
            State::LikeWithMessage { dating } => State::LikeWithMessage { dating: *dating },
            State::Edit => State::Edit,
        }
    }
}

impl Default for State {
    /// The idle state.
    fn default() -> (r: Self)
        ensures
            r == State::Start,
    {
        State::Start
    }
}

/// Content of an incoming message.
#[derive(Debug, PartialEq, Eq)]
pub enum MessageContent {
    Text(String),
    Photo(String),
    Video(String),
    Other,
}

/// A handler's result: the next state and the effects to perform.
#[derive(Debug, PartialEq, Eq)]
pub struct Transition {
    pub next: State,
    pub actions: Vec<Action>,
}

/// Why an update was not handled. The first three ask the user to try
/// again in place; the rest are guard violations or missing context,
/// reported to the operator with the dialogue state left unchanged.
#[derive(Clone, Copy, Debug, PartialEq, Eq, Structural)]
pub enum HandleError {
    NeedText,
    WrongText,
    Length,
    WrongCallback,
    EmptyPurpose,
    DoubleReaction { code: RateCode },
}

/// The retryable errors: the prompt is re-rendered, nothing is reported.
pub open spec fn retryable_spec(e: HandleError) -> bool {
    e is NeedText || e is WrongText || e is Length
}

impl HandleError {
    /// True when the error only asks the user to try again.
    pub fn retryable(&self) -> (r: bool)
        ensures
            r == retryable_spec(*self),
    {
        matches!(self, HandleError::NeedText | HandleError::WrongText | HandleError::Length)
    }

    /// Operator-facing description of the error.
    pub fn message(&self) -> (r: &'static str)
        ensures
            *self is NeedText ==> r@ == "отправьте текст"@,
            *self is WrongText ==> r@ == "неправильный текст"@,
            *self is Length ==> r@ == "неправильная длина сообщения"@,
            *self is WrongCallback ==> r@ == "wrong callback code"@,
            *self is EmptyPurpose ==> r@ == "there must be at least 1 purpose"@,
            *self matches HandleError::DoubleReaction { code } ==> match code {
                RateCode::Dislike => r@ == "user abuses dislikes"@,
                RateCode::Like => r@ == "user abuses likes"@,
                RateCode::LikeWithMsg => r@ == "user abuses msglikes"@,
                RateCode::ResponseDislike => r@ == "partner abuses dislikes"@,
                RateCode::ResponseLike => r@ == "partner abuses likes"@,
            },
    {
        match self {
            HandleError::NeedText => "отправьте текст",
            HandleError::WrongText => "неправильный текст",
            HandleError::Length => "неправильная длина сообщения",
            HandleError::WrongCallback => "wrong callback code",
            HandleError::EmptyPurpose => "there must be at least 1 purpose",
            HandleError::DoubleReaction { code } => (crate::datings::DoubleReaction {
                code: *code,
            }).message(),
        }
    }
}

/// Subjects selected so far in a draft.
pub open spec fn draft_subjects(d: StateData) -> Subjects {
    match d.s.subjects {
        Some(us) => us.subjects,
        None => Subjects { bits: 0 },
    }
}

/// Subjects-filter bits selected so far in a draft.
pub open spec fn draft_subjects_filter(d: StateData) -> Subjects {
    match d.s.subjects_filter {
        Some(sf) => sf.subjects,
        None => Subjects { bits: 0 },
    }
}

/// Dating purposes selected so far in a draft.
pub open spec fn draft_purpose(d: StateData) -> DatingPurpose {
    match d.s.dating_purpose {
        Some(p) => p,
        None => DatingPurpose { bits: 0 },
    }
}

/// The prompt of each state: what is sent when the state is (re-)entered.
/// Rendering has no side effects and depends on the state value alone.
pub open spec fn render_spec(state: State) -> Seq<Action> {
    match state {
        State::Start => Seq::empty(),
        State::SetName(_) => seq![
            Action::Send { msg: Msg::RequestName, keyboard: Some(KeyboardSpec::SuggestName) },
        ],
        State::SetGender(_) => seq![
            Action::Send { msg: Msg::RequestGender, keyboard: Some(KeyboardSpec::Gender) },
        ],
        State::SetGenderFilter(_) => seq![
            Action::Send {
                msg: Msg::RequestGenderFilter,
                keyboard: Some(KeyboardSpec::GenderFilter),
            },
        ],
        State::SetGraduationYear(_) => seq![
            Action::Send { msg: Msg::RequestGrade, keyboard: Some(KeyboardSpec::Remove) },
        ],
        State::SetSubjects(d) => seq![
            Action::Send {
                msg: Msg::EditSubjects,
                keyboard: Some(KeyboardSpec::SubjectsToggles {
                    selected: draft_subjects(d),
                    filter: false,
                }),
            },
        ],
        State::SetSubjectsFilter(d) => seq![
            Action::Send {
                msg: Msg::EditPartnerSubjects,
                keyboard: Some(KeyboardSpec::SubjectsToggles {
                    selected: draft_subjects_filter(d),
                    filter: true,
                }),
            },
        ],
        State::SetDatingPurpose(d) => seq![
            Action::Send {
                msg: Msg::RequestDatingPurpose,
                keyboard: Some(KeyboardSpec::PurposeToggles { selected: draft_purpose(d) }),
            },
        ],
        State::SetCity(_) => seq![
            Action::Send { msg: Msg::RequestCity, keyboard: Some(KeyboardSpec::CityUnspecified) },
        ],
        State::SetLocationFilter(d) => match d.s.city {
            Some(uc) => match uc.city {
                Some(c) => seq![
                    Action::Send {
                        msg: Msg::EditLocationFilter,
                        keyboard: Some(KeyboardSpec::LocationChoice { city: c }),
                    },
                ],
                None => seq![
                    Action::Send {
                        msg: Msg::EditLocationFilter,
                        keyboard: Some(KeyboardSpec::Remove),
                    },
                ],
            },
            None => seq![
                Action::Send {
                    msg: Msg::EditLocationFilter,
                    keyboard: Some(KeyboardSpec::Remove),
                },
            ],
        },
        State::SetAbout(_) => seq![
            Action::Send { msg: Msg::EditAbout, keyboard: Some(KeyboardSpec::Remove) },
        ],
        State::SetPhotos(_) => seq![
            Action::Send { msg: Msg::RequestPhotos, keyboard: Some(KeyboardSpec::NoPhotos) },
        ],
        State::LikeWithMessage { .. } => seq![
            Action::Send { msg: Msg::RequestLikeMessage, keyboard: Some(KeyboardSpec::Cancel) },
        ],
        State::Edit => seq![
            Action::Send { msg: Msg::RequestEdit, keyboard: Some(KeyboardSpec::EditMenu) },
        ],
    }
}

/// Renders the prompt of a state.
pub fn render_prompt(state: &State) -> (r: Vec<Action>)
    ensures
        r@ == render_spec(*state),
{
    let mut v: Vec<Action> = Vec::new();
    match state {
        State::Start => {},
        State::SetName(_) => {
            v.push(Action::Send { msg: Msg::RequestName, keyboard: Some(KeyboardSpec::SuggestName) });
        },
        State::SetGender(_) => {
            v.push(Action::Send { msg: Msg::RequestGender, keyboard: Some(KeyboardSpec::Gender) });
        },
        State::SetGenderFilter(_) => {
            v.push(Action::Send {
                msg: Msg::RequestGenderFilter,
                keyboard: Some(KeyboardSpec::GenderFilter),
            });
        },
        State::SetGraduationYear(_) => {
            v.push(Action::Send { msg: Msg::RequestGrade, keyboard: Some(KeyboardSpec::Remove) });
        },
        State::SetSubjects(d) => {
            let mut sel = Subjects { bits: 0 };
            if let Some(us) = &d.s.subjects {
                sel = us.subjects;
            }
            v.push(Action::Send {
                msg: Msg::EditSubjects,
                keyboard: Some(KeyboardSpec::SubjectsToggles { selected: sel, filter: false }),
            });
        },
        State::SetSubjectsFilter(d) => {
            let mut sel = Subjects { bits: 0 };
            if let Some(sf) = &d.s.subjects_filter {
                sel = sf.subjects;
            }
            v.push(Action::Send {
                msg: Msg::EditPartnerSubjects,
                keyboard: Some(KeyboardSpec::SubjectsToggles { selected: sel, filter: true }),
            });
        },
        State::SetDatingPurpose(d) => {
            let mut sel = DatingPurpose { bits: 0 };
            if let Some(p) = &d.s.dating_purpose {
                sel = *p;
            }
            v.push(Action::Send {
                msg: Msg::RequestDatingPurpose,
                keyboard: Some(KeyboardSpec::PurposeToggles { selected: sel }),
            });
        },
        State::SetCity(_) => {
            v.push(Action::Send {
                msg: Msg::RequestCity,
                keyboard: Some(KeyboardSpec::CityUnspecified),
            });
        },
        State::SetLocationFilter(d) => {
            let mut kb = KeyboardSpec::Remove;
            if let Some(uc) = &d.s.city {
                if let Some(c) = &uc.city {
                    kb = KeyboardSpec::LocationChoice { city: *c };
                }
            }
            v.push(Action::Send { msg: Msg::EditLocationFilter, keyboard: Some(kb) });
        },
        State::SetAbout(_) => {
            v.push(Action::Send { msg: Msg::EditAbout, keyboard: Some(KeyboardSpec::Remove) });
        },
        State::SetPhotos(_) => {
            v.push(Action::Send { msg: Msg::RequestPhotos, keyboard: Some(KeyboardSpec::NoPhotos) });
        },
        State::LikeWithMessage { .. } => {
            v.push(Action::Send {
                msg: Msg::RequestLikeMessage,
                keyboard: Some(KeyboardSpec::Cancel),
            });
        },
        State::Edit => {
            v.push(Action::Send { msg: Msg::RequestEdit, keyboard: Some(KeyboardSpec::EditMenu) });
        },
    }
    proof {
        assert(v@ =~= render_spec(*state));
    }
    v
}

/// Rendering is a pure function of the state: the same state with the
/// same draft data always renders the same prompt.
pub proof fn lemma_render_deterministic(s1: State, s2: State)
    requires
        s1 == s2,
    ensures
        render_spec(s1) == render_spec(s2),
{
}

/// Next state and actions after a field was collected: creation mode
/// advances in the fixed sequence and renders the next prompt, edit
/// mode persists the updated draft and returns to the start.
pub open spec fn complete_step(d2: StateData, next_if_creating: State) -> (State, Seq<Action>) {
    if d2.create_new {
        (next_if_creating, render_spec(next_if_creating))
    } else {
        (State::Start, seq![Action::PersistDraft { draft: d2.s }])
    }
}

/// Ghost mirror of a message handler's outcome.
pub enum MessageStepSpec {
    /// Transition taken: next state and actions.
    Done(State, Seq<Action>),
    /// The city gazetteer collaborator must resolve this text first.
    Resolve(Seq<char>),
}

/// What parsing a grade entry yields: an optional leading '+', then
/// decimal digits.
pub open spec fn parse_grade_text_spec(t: Seq<char>) -> Option<int> {
    if t.len() > 0 && all_digits(t) && digits_value(t) <= u32::MAX {
        Some(digits_value(t))
    } else if t.len() > 1 && t[0] == '+' && all_digits(t.skip(1)) && digits_value(t.skip(1))
        <= u32::MAX {
        Some(digits_value(t.skip(1)))
    } else {
        None
    }
}

/// Parses a grade entry: digits with an optional leading '+'.
pub fn parse_grade_text(t: &str) -> (r: Option<u32>)
    ensures
        r matches Some(v) ==> parse_grade_text_spec(t@) == Some(v as int),
        r is None ==> parse_grade_text_spec(t@) is None,
{
    match parse_u32(t) {
        Some(v) => Some(v),
        None => {
            let n = t.unicode_len();
            if n > 1 && t.get_char(0) == '+' {
                let rest = t.substring_char(1, n);
                proof {
                    assert(rest@ == t@.skip(1));
                }
                parse_u32(rest)
            } else {
                None
            }
        },
    }
}

/// The transition table for incoming messages: what each state does
/// with a text, photo or video update. Invalid input for the current
/// field yields a retryable error; `Resolve` asks the caller to run the
/// text through the city-resolution collaborator and then call
/// `city_resolution_step`.
pub open spec fn message_step_spec(state: State, content: MessageContent, g: &Gazetteer) -> Result<
    MessageStepSpec,
    HandleError,
> {
    match state {
        State::Start => Ok(MessageStepSpec::Done(
            State::Start,
            seq![Action::Send { msg: Msg::CommandList, keyboard: None }],
        )),
        State::SetName(d) => match content {
            MessageContent::Text(t) => if 3 <= t@.len() <= 16 {
                let d2 = StateData { s: UserSettings { name: Some(t), ..d.s }, ..d };
                let (ns, acts) = complete_step(d2, State::SetGender(d2));
                Ok(MessageStepSpec::Done(ns, acts))
            } else {
                Err(HandleError::Length)
            },
            _ => Err(HandleError::NeedText),
        },
        State::SetGender(d) => match content {
            MessageContent::Text(t) => match parse_gender_spec(t@) {
                Some(gd) => {
                    let d2 = StateData { s: UserSettings { gender: Some(gd), ..d.s }, ..d };
                    let (ns, acts) = complete_step(d2, State::SetGenderFilter(d2));
                    Ok(MessageStepSpec::Done(ns, acts))
                },
                None => Err(HandleError::WrongText),
            },
            _ => Err(HandleError::NeedText),
        },
        State::SetGenderFilter(d) => match content {
            MessageContent::Text(t) => match parse_gender_filter_spec(t@) {
                Some(gf) => {
                    let d2 = StateData { s: UserSettings { gender_filter: Some(gf), ..d.s }, ..d };
                    let (ns, acts) = complete_step(d2, State::SetGraduationYear(d2));
                    Ok(MessageStepSpec::Done(ns, acts))
                },
                None => Err(HandleError::WrongText),
            },
            _ => Err(HandleError::NeedText),
        },
        State::SetGraduationYear(d) => match content {
            MessageContent::Text(t) => match parse_grade_text_spec(t@) {
                Some(v) => if 1 <= v <= 11 {
                    let d2 = StateData {
                        s: UserSettings { grade: Some(Grade { value: v as i8 }), ..d.s },
                        ..d
                    };
                    let (ns, acts) = complete_step(d2, State::SetSubjects(d2));
                    Ok(MessageStepSpec::Done(ns, acts))
                } else {
                    Err(HandleError::WrongText)
                },
                None => Err(HandleError::WrongText),
            },
            _ => Err(HandleError::NeedText),
        },
        State::SetCity(d) => match content {
            MessageContent::Text(t) => if t@ == "Верно"@ && d.s.city is Some {
                let ns = State::SetLocationFilter(d);
                Ok(MessageStepSpec::Done(ns, render_spec(ns)))
            } else if t@ == "Не указывать"@ {
                let d2 = StateData {
                    s: UserSettings {
                        city: Some(UserCity { city: None }),
                        location_filter: Some(LocationFilter::Country),
                        ..d.s
                    },
                    ..d
                };
                let (ns, acts) = complete_step(d2, State::SetAbout(d2));
                Ok(MessageStepSpec::Done(
                    ns,
                    seq![
                        Action::Send { msg: Msg::NoCity, keyboard: Some(KeyboardSpec::Remove) },
                    ] + acts,
                ))
            } else {
                Ok(MessageStepSpec::Resolve(t@))
            },
            _ => Err(HandleError::NeedText),
        },
        State::SetLocationFilter(d) => match content {
            MessageContent::Text(t) => match parse_location_filter_spec(t@, g) {
                Some(f) => {
                    let d2 = StateData {
                        s: UserSettings { location_filter: Some(f), ..d.s },
                        ..d
                    };
                    let (ns, acts) = complete_step(d2, State::SetAbout(d2));
                    Ok(MessageStepSpec::Done(ns, acts))
                },
                None => Err(HandleError::WrongText),
            },
            _ => Err(HandleError::NeedText),
        },
        State::SetAbout(d) => match content {
            MessageContent::Text(t) => if 1 <= t@.len() <= 1024 {
                let d2 = StateData { s: UserSettings { about: Some(t), ..d.s }, ..d };
                let ns = if d2.create_new {
                    State::SetPhotos(d2)
                } else {
                    State::Start
                };
                Ok(MessageStepSpec::Done(
                    ns,
                    seq![Action::PersistDraft { draft: d2.s }] + render_spec(ns),
                ))
            } else {
                Err(HandleError::Length)
            },
            _ => Err(HandleError::NeedText),
        },
        State::SetPhotos(d) => match content {
            MessageContent::Text(t) => if t@ == "Без фото"@ {
                Ok(MessageStepSpec::Done(
                    State::Start,
                    seq![
                        Action::CleanImages { user_id: d.s.id },
                        Action::SendProfilePreview { user_id: d.s.id },
                    ],
                ))
            } else if t@ == "Сохранить"@ {
                Ok(MessageStepSpec::Done(
                    State::Start,
                    seq![Action::SendProfilePreview { user_id: d.s.id }],
                ))
            } else {
                Err(HandleError::WrongText)
            },
            MessageContent::Photo(file) => photo_step_spec(d, file, MediaKind::Image),
            MessageContent::Video(file) => photo_step_spec(d, file, MediaKind::Video),
            MessageContent::Other => Err(HandleError::WrongText),
        },
        State::LikeWithMessage { dating } => match content {
            MessageContent::Text(t) => if t@.len() == 0 {
                Err(HandleError::NeedText)
            } else if t@ == "Отмена"@ || t@[0] == '/' {
                Ok(MessageStepSpec::Done(
                    State::Start,
                    seq![
                        Action::SetInitiatorReaction { dating_id: dating.id, value: false },
                        Action::Send { msg: Msg::LikeCancelled, keyboard: Some(KeyboardSpec::Remove) },
                        Action::SendRecommendation { chat_id: dating.initiator_id },
                    ],
                ))
            } else {
                Ok(MessageStepSpec::Done(
                    State::Start,
                    seq![
                        Action::SetInitiatorReaction { dating_id: dating.id, value: true },
                        Action::SendLike { dating, message: Some(t) },
                        Action::Send { msg: Msg::LikeSent, keyboard: Some(KeyboardSpec::Remove) },
                        Action::SendRecommendation { chat_id: dating.initiator_id },
                    ],
                ))
            },
            _ => Err(HandleError::NeedText),
        },
        // These states react to callback taps only; messages are ignored.
        State::SetSubjects(_) | State::SetSubjectsFilter(_) | State::SetDatingPurpose(_)
            | State::Edit => Ok(MessageStepSpec::Done(state, Seq::empty())),
    }
}

/// A photo or video arriving in the photo-collection state: the first
/// upload of a fresh session clears stale attachments, the counter caps
/// at 10 with a fixed rejection message and no other change.
pub open spec fn photo_step_spec(d: StateData, file: String, kind: MediaKind) -> Result<
    MessageStepSpec,
    HandleError,
> {
    if d.photos_count >= 10 {
        Ok(MessageStepSpec::Done(
            State::SetPhotos(d),
            seq![
                Action::Send { msg: Msg::TooManyPhotos, keyboard: Some(KeyboardSpec::SavePhoto) },
            ],
        ))
    } else {
        let d2 = StateData { photos_count: (d.photos_count + 1) as u8, ..d };
        let create = seq![
            Action::CreateImage { user_id: d.s.id, file_id: file, kind },
            Action::Send {
                msg: Msg::PhotoAdded { count: (d.photos_count + 1) as u8 },
                keyboard: Some(KeyboardSpec::SavePhoto),
            },
        ];
        let acts = if d.photos_count == 0 {
            seq![Action::CleanImages { user_id: d.s.id }] + create
        } else {
            create
        };
        Ok(MessageStepSpec::Done(State::SetPhotos(d2), acts))
    }
}

/// A message handler's outcome.
#[derive(Debug, PartialEq, Eq)]
pub enum MessageOutcome {
    /// Transition taken.
    Done(Transition),
    /// The caller must resolve this text against the city gazetteer and
    /// hand the answer to `city_resolution_step`.
    ResolveCity { text: String },
}

/// Handles an incoming message in the current state; see
/// `message_step_spec` for the exact transition table.
pub fn handle_message(state: State, content: MessageContent, g: &Gazetteer) -> (r: Result<
    MessageOutcome,
    HandleError,
>)
    ensures
        match r {
            Ok(o) => match o {
                MessageOutcome::Done(tr) => message_step_spec(state, content, g) == Ok::<
                    MessageStepSpec,
                    HandleError,
                >(MessageStepSpec::Done(tr.next, tr.actions@)),
                MessageOutcome::ResolveCity { text } => message_step_spec(state, content, g)
                    == Ok::<MessageStepSpec, HandleError>(MessageStepSpec::Resolve(text@)),
            },
            Err(e) => message_step_spec(state, content, g) == Err::<
                MessageStepSpec,
                HandleError,
            >(e),
        },
{
    match state {
        State::Start => {
            let mut acts: Vec<Action> = Vec::new();
            acts.push(Action::Send { msg: Msg::CommandList, keyboard: None });
            proof {
                assert(acts@ =~= seq![Action::Send { msg: Msg::CommandList, keyboard: None }]);
            }
            Ok(MessageOutcome::Done(Transition { next: State::Start, actions: acts }))
        },
        State::SetName(d) => match content {
            MessageContent::Text(t) => {
                if !validate_name(t.as_str()) {
                    return Err(HandleError::Length);
                }
                let d2 = StateData { s: UserSettings { name: Some(t), ..d.s }, ..d };
                let ns = State::SetGender(d2);
                Ok(MessageOutcome::Done(complete_transition(ns)))
            },
            _ => Err(HandleError::NeedText),
        },
        State::SetGender(d) => match content {
            MessageContent::Text(t) => match parse_gender(t.as_str()) {
                Some(gd) => {
                    let d2 = StateData { s: UserSettings { gender: Some(gd), ..d.s }, ..d };
                    let ns = State::SetGenderFilter(d2);
                    Ok(MessageOutcome::Done(complete_transition(ns)))
                },
                None => Err(HandleError::WrongText),
            },
            _ => Err(HandleError::NeedText),
        },
        State::SetGenderFilter(d) => match content {
            MessageContent::Text(t) => match parse_gender_filter(t.as_str()) {
                Some(gf) => {
                    let d2 = StateData { s: UserSettings { gender_filter: Some(gf), ..d.s }, ..d };
                    let ns = State::SetGraduationYear(d2);
                    Ok(MessageOutcome::Done(complete_transition(ns)))
                },
                None => Err(HandleError::WrongText),
            },
            _ => Err(HandleError::NeedText),
        },
        State::SetGraduationYear(d) => match content {
            MessageContent::Text(t) => match parse_grade_text(t.as_str()) {
                Some(v) => {
                    if !(1 <= v && v <= 11) {
                        return Err(HandleError::WrongText);
                    }
                    let d2 = StateData {
                        s: UserSettings { grade: Some(Grade { value: v as i8 }), ..d.s },
                        ..d
                    };
                    let ns = State::SetSubjects(d2);
                    Ok(MessageOutcome::Done(complete_transition(ns)))
                },
                None => Err(HandleError::WrongText),
            },
            _ => Err(HandleError::NeedText),
        },
        State::SetCity(d) => match content {
            MessageContent::Text(t) => {
                if str_eq(t.as_str(), "Верно") && d.s.city.is_some() {
                    let ns = State::SetLocationFilter(d);
                    let acts = render_prompt(&ns);
                    Ok(MessageOutcome::Done(Transition { next: ns, actions: acts }))
                } else if str_eq(t.as_str(), "Не указывать") {
                    let d2 = StateData {
                        s: UserSettings {
                            city: Some(UserCity { city: None }),
                            location_filter: Some(LocationFilter::Country),
                            ..d.s
                        },
                        ..d
                    };
                    let mut acts: Vec<Action> = Vec::new();
                    acts.push(Action::Send {
                        msg: Msg::NoCity,
                        keyboard: Some(KeyboardSpec::Remove),
                    });
                    let ns: State;
                    if d2.create_new {
                        let nxt = State::SetAbout(d2);
                        let mut rendered = render_prompt(&nxt);
                        acts.append(&mut rendered);
                        ns = nxt;
                    } else {
                        acts.push(Action::PersistDraft { draft: d2.s });
                        ns = State::Start;
                    }
                    proof {
                        let spec_d2 = StateData {
                            s: UserSettings {
                                city: Some(UserCity { city: None }),
                                location_filter: Some(LocationFilter::Country),
                                ..d.s
                            },
                            ..d
                        };
                        let (sns, sacts) = complete_step(spec_d2, State::SetAbout(spec_d2));
                        assert(acts@ =~= seq![
                            Action::Send { msg: Msg::NoCity, keyboard: Some(KeyboardSpec::Remove) },
                        ] + sacts);
                    }
                    Ok(MessageOutcome::Done(Transition { next: ns, actions: acts }))
                } else {
                    Ok(MessageOutcome::ResolveCity { text: t })
                }
            },
            _ => Err(HandleError::NeedText),
        },
        State::SetLocationFilter(d) => match content {
            MessageContent::Text(t) => match parse_location_filter(t.as_str(), g) {
                Some(f) => {
                    let d2 = StateData {
                        s: UserSettings { location_filter: Some(f), ..d.s },
                        ..d
                    };
                    let ns = State::SetAbout(d2);
                    Ok(MessageOutcome::Done(complete_transition(ns)))
                },
                None => Err(HandleError::WrongText),
            },
            _ => Err(HandleError::NeedText),
        },
        State::SetAbout(d) => match content {
            MessageContent::Text(t) => {
                if !validate_about(t.as_str()) {
                    return Err(HandleError::Length);
                }
                let d2 = StateData { s: UserSettings { about: Some(t), ..d.s }, ..d };
                let mut acts: Vec<Action> = Vec::new();
                acts.push(Action::PersistDraft { draft: d2.s.clone() });
                let ns: State;
                if d2.create_new {
                    let nxt = State::SetPhotos(d2);
                    let mut rendered = render_prompt(&nxt);
                    acts.append(&mut rendered);
                    ns = nxt;
                } else {
                    ns = State::Start;
                }
                proof {
                    assert(acts@ =~= seq![Action::PersistDraft { draft: ns_draft_about(state, content)
                        }] + render_spec(ns));
                }
                Ok(MessageOutcome::Done(Transition { next: ns, actions: acts }))
            },
            _ => Err(HandleError::NeedText),
        },
        State::SetPhotos(d) => match content {
            MessageContent::Text(t) => {
                if str_eq(t.as_str(), "Без фото") {
                    let mut acts: Vec<Action> = Vec::new();
                    acts.push(Action::CleanImages { user_id: d.s.id });
                    acts.push(Action::SendProfilePreview { user_id: d.s.id });
                    proof {
                        assert(acts@ =~= seq![
                            Action::CleanImages { user_id: d.s.id },
                            Action::SendProfilePreview { user_id: d.s.id },
                        ]);
                    }
                    Ok(MessageOutcome::Done(Transition { next: State::Start, actions: acts }))
                } else if str_eq(t.as_str(), "Сохранить") {
                    let mut acts: Vec<Action> = Vec::new();
                    acts.push(Action::SendProfilePreview { user_id: d.s.id });
                    proof {
                        assert(acts@ =~= seq![Action::SendProfilePreview { user_id: d.s.id }]);
                    }
                    Ok(MessageOutcome::Done(Transition { next: State::Start, actions: acts }))
                } else {
                    Err(HandleError::WrongText)
                }
            },
            MessageContent::Photo(file) => Ok(MessageOutcome::Done(photo_step(d, file,
                MediaKind::Image))),
            MessageContent::Video(file) => Ok(MessageOutcome::Done(photo_step(d, file,
                MediaKind::Video))),
            MessageContent::Other => Err(HandleError::WrongText),
        },
        State::LikeWithMessage { dating } => match content {
            MessageContent::Text(t) => {
                let n = t.as_str().unicode_len();
                if n == 0 {
                    return Err(HandleError::NeedText);
                }
                if str_eq(t.as_str(), "Отмена") || t.as_str().get_char(0) == '/' {
                    let mut acts: Vec<Action> = Vec::new();
                    acts.push(Action::SetInitiatorReaction { dating_id: dating.id, value: false });
                    acts.push(Action::Send {
                        msg: Msg::LikeCancelled,
                        keyboard: Some(KeyboardSpec::Remove),
                    });
                    acts.push(Action::SendRecommendation { chat_id: dating.initiator_id });
                    proof {
                        assert(acts@ =~= seq![
                            Action::SetInitiatorReaction { dating_id: dating.id, value: false },
                            Action::Send {
                                msg: Msg::LikeCancelled,
                                keyboard: Some(KeyboardSpec::Remove),
                            },
                            Action::SendRecommendation { chat_id: dating.initiator_id },
                        ]);
                    }
                    Ok(MessageOutcome::Done(Transition { next: State::Start, actions: acts }))
                } else {
                    let mut acts: Vec<Action> = Vec::new();
                    acts.push(Action::SetInitiatorReaction { dating_id: dating.id, value: true });
                    acts.push(Action::SendLike { dating, message: Some(t) });
                    acts.push(Action::Send {
                        msg: Msg::LikeSent,
                        keyboard: Some(KeyboardSpec::Remove),
                    });
                    acts.push(Action::SendRecommendation { chat_id: dating.initiator_id });
                    proof {
                        assert(acts@ =~= seq![
                            Action::SetInitiatorReaction { dating_id: dating.id, value: true },
                            acts@[1],
                            Action::Send { msg: Msg::LikeSent, keyboard: Some(KeyboardSpec::Remove) },
                            Action::SendRecommendation { chat_id: dating.initiator_id },
                        ]);
                    }
                    Ok(MessageOutcome::Done(Transition { next: State::Start, actions: acts }))
                }
            },
            _ => Err(HandleError::NeedText),
        },
        State::SetSubjects(_) | State::SetSubjectsFilter(_) | State::SetDatingPurpose(_)
            | State::Edit => Ok(MessageOutcome::Done(Transition {
            next: state,
            actions: Vec::new(),
        })),
    }
}

/// The draft persisted by the about-step of this message, for the proof
/// above; meaningful only for a valid about-text in `SetAbout`.
spec fn ns_draft_about(state: State, content: MessageContent) -> UserSettings {
    match (state, content) {
        (State::SetAbout(d), MessageContent::Text(t)) => UserSettings { about: Some(t), ..d.s },
        _ => crate::profile::empty_settings_spec(),
    }
}

/// The draft payload of the successor states that `complete_transition`
/// accepts.
pub open spec fn completion_data(ns: State) -> Option<StateData> {
    match ns {
        State::SetGender(d) => Some(d),
        State::SetGenderFilter(d) => Some(d),
        State::SetGraduationYear(d) => Some(d),
        State::SetSubjects(d) => Some(d),
        State::SetAbout(d) => Some(d),
        _ => None,
    }
}

/// Builds the completion transition for a successor state in creation
/// mode, or the persist-and-return transition in edit mode.
fn complete_transition(ns: State) -> (r: Transition)
    requires
        completion_data(ns) is Some,
    ensures
        (r.next, r.actions@) == complete_step(completion_data(ns)->0, ns),
{
    let create_new = match &ns {
        State::SetGender(d) => d.create_new,
        State::SetGenderFilter(d) => d.create_new,
        State::SetGraduationYear(d) => d.create_new,
        State::SetSubjects(d) => d.create_new,
        State::SetAbout(d) => d.create_new,
        _ => false,
    };
    if create_new {
        let acts = render_prompt(&ns);
        Transition { next: ns, actions: acts }
    } else {
        let draft = match ns {
            State::SetGender(d) => d.s,
            State::SetGenderFilter(d) => d.s,
            State::SetGraduationYear(d) => d.s,
            State::SetSubjects(d) => d.s,
            State::SetAbout(d) => d.s,
            _ => UserSettings::with_id(0),
        };
        let mut acts: Vec<Action> = Vec::new();
        acts.push(Action::PersistDraft { draft });
        proof {
            assert(acts@ =~= seq![acts@[0]]);
        }
        Transition { next: State::Start, actions: acts }
    }
}

/// Applies `photo_step_spec` to an arriving photo or video.
fn photo_step(d: StateData, file: String, kind: MediaKind) -> (r: Transition)
    ensures
        photo_step_spec(d, file, kind) == Ok::<MessageStepSpec, HandleError>(
            MessageStepSpec::Done(r.next, r.actions@),
        ),
{
    if d.photos_count >= 10 {
        let mut acts: Vec<Action> = Vec::new();
        acts.push(Action::Send { msg: Msg::TooManyPhotos, keyboard: Some(KeyboardSpec::SavePhoto) });
        proof {
            assert(acts@ =~= seq![acts@[0]]);
        }
        Transition { next: State::SetPhotos(d), actions: acts }
    } else {
        let user_id = d.s.id;
        let fresh = d.photos_count == 0;
        let new_count = d.photos_count + 1;
        let d2 = StateData { photos_count: new_count, ..d };
        let mut acts: Vec<Action> = Vec::new();
        if fresh {
            acts.push(Action::CleanImages { user_id });
        }
        acts.push(Action::CreateImage { user_id, file_id: file, kind });
        acts.push(Action::Send {
            msg: Msg::PhotoAdded { count: new_count },
            keyboard: Some(KeyboardSpec::SavePhoto),
        });
        proof {
            if fresh {
                assert(acts@ =~= seq![Action::CleanImages { user_id }] + seq![
                    acts@[1],
                    acts@[2],
                ]);
            } else {
                assert(acts@ =~= seq![acts@[0], acts@[1]]);
            }
        }
        Transition { next: State::SetPhotos(d2), actions: acts }
    }
}

/// What the city sub-protocol does with the collaborator's answer: a
/// resolved city is staged and the user is asked to confirm it without
/// leaving the state; an unresolved text re-prompts.
pub open spec fn city_resolution_spec(d: StateData, resolved: Option<City>) -> (State, Seq<
    Action,
>) {
    match resolved {
        Some(c) => (
            State::SetCity(StateData {
                s: UserSettings { city: Some(UserCity { city: Some(c) }), ..d.s },
                ..d
            }),
            seq![
                Action::Send {
                    msg: Msg::CityConfirm { city: c },
                    keyboard: Some(KeyboardSpec::CityConfirm),
                },
            ],
        ),
        None => (
            State::SetCity(d),
            seq![
                Action::Send { msg: Msg::CantFindCity, keyboard: Some(KeyboardSpec::CityUnspecified) },
            ],
        ),
    }
}

/// Continues the city step once the fuzzy-resolution collaborator has
/// answered for the text the user typed.
pub fn city_resolution_step(d: StateData, resolved: Option<City>) -> (r: Transition)
    ensures
        (r.next, r.actions@) == city_resolution_spec(d, resolved),
{
    match resolved {
        Some(c) => {
            let d2 = StateData {
                s: UserSettings { city: Some(UserCity { city: Some(c) }), ..d.s },
                ..d
            };
            let mut acts: Vec<Action> = Vec::new();
            acts.push(Action::Send {
                msg: Msg::CityConfirm { city: c },
                keyboard: Some(KeyboardSpec::CityConfirm),
            });
            proof {
                assert(acts@ =~= seq![acts@[0]]);
            }
            Transition { next: State::SetCity(d2), actions: acts }
        },
        None => {
            let mut acts: Vec<Action> = Vec::new();
            acts.push(Action::Send {
                msg: Msg::CantFindCity,
                keyboard: Some(KeyboardSpec::CityUnspecified),
            });
            proof {
                assert(acts@ =~= seq![acts@[0]]);
            }
            Transition { next: State::SetCity(d), actions: acts }
        },
    }
}

/// What the dialogue does after a non-retryable error: nothing; after a
/// retryable one: the prompt of the unchanged state is re-rendered.
pub fn recover(state: &State, e: &HandleError) -> (r: Option<Vec<Action>>)
    ensures
        retryable_spec(*e) ==> (r matches Some(acts) && acts@ == render_spec(*state)),
        !retryable_spec(*e) ==> r is None,
{
    if e.retryable() {
        Some(render_prompt(state))
    } else {
        None
    }
}

} // verus!

verus! {

/// A parsed callback tap.
#[derive(Debug, PartialEq, Eq)]
pub enum Callback {
    CreateProfile,
    FindPartner,
    EditField(String),
    SetSubjects(BitsUpdate),
    SetSubjectsFilter(BitsUpdate),
    SetDatingPurpose(BitsUpdate),
    Dating { dating_id: i32, code: RateCode },
}

/// A tap on a bitset keyboard: toggle some bits or finish the step.
#[derive(Clone, Copy, Debug, PartialEq, Eq, Structural)]
pub enum BitsUpdate {
    Continue,
    Toggle(u32),
}

/// Ghost mirror of a parsed callback, with the field name as a
/// character sequence.
pub enum CallbackSpec {
    CreateProfile,
    FindPartner,
    EditField(Seq<char>),
    SetSubjects(BitsUpdate),
    SetSubjectsFilter(BitsUpdate),
    SetDatingPurpose(BitsUpdate),
    Dating(i32, RateCode),
}

/// The ghost value of a parsed callback.
pub open spec fn callback_view(c: Callback) -> CallbackSpec {
    match c {
        Callback::CreateProfile => CallbackSpec::CreateProfile,
        Callback::FindPartner => CallbackSpec::FindPartner,
        Callback::EditField(f) => CallbackSpec::EditField(f@),
        Callback::SetSubjects(u) => CallbackSpec::SetSubjects(u),
        Callback::SetSubjectsFilter(u) => CallbackSpec::SetSubjectsFilter(u),
        Callback::SetDatingPurpose(u) => CallbackSpec::SetDatingPurpose(u),
        Callback::Dating { dating_id, code } => CallbackSpec::Dating(dating_id, code),
    }
}

/// What the payload of a bitset callback parses to: "c" finishes the
/// step, a decimal number toggles those bits.
pub open spec fn parse_bits_update_spec(rest: Seq<char>) -> Option<BitsUpdate> {
    if rest == "c"@ {
        Some(BitsUpdate::Continue)
    } else if rest.len() > 0 && all_digits(rest) && digits_value(rest) <= u32::MAX {
        Some(BitsUpdate::Toggle(digits_value(rest) as u32))
    } else {
        None
    }
}

/// What a callback's data string parses to. The first character selects
/// the kind: a reaction emoji carries the attempt id, 'e' an edit-menu
/// field, 's'/'f'/'p' a bitset update for subjects, subjects filter or
/// purpose.
pub open spec fn parse_callback_spec(data: Seq<char>) -> Result<CallbackSpec, HandleError> {
    if data == "✍"@ {
        Ok(CallbackSpec::CreateProfile)
    } else if data == "🔍"@ {
        Ok(CallbackSpec::FindPartner)
    } else if data.len() == 0 {
        Err(HandleError::WrongCallback)
    } else if data[0] == 'e' {
        Ok(CallbackSpec::EditField(data.skip(1)))
    } else if data[0] == 's' {
        match parse_bits_update_spec(data.skip(1)) {
            Some(u) => Ok(CallbackSpec::SetSubjects(u)),
            None => Err(HandleError::WrongCallback),
        }
    } else if data[0] == 'f' {
        match parse_bits_update_spec(data.skip(1)) {
            Some(u) => Ok(CallbackSpec::SetSubjectsFilter(u)),
            None => Err(HandleError::WrongCallback),
        }
    } else if data[0] == 'p' {
        match parse_bits_update_spec(data.skip(1)) {
            Some(u) => Ok(CallbackSpec::SetDatingPurpose(u)),
            None => Err(HandleError::WrongCallback),
        }
    } else if data[0] == '👎' {
        parse_dating_spec(data.skip(1), RateCode::Dislike)
    } else if data[0] == '👍' {
        parse_dating_spec(data.skip(1), RateCode::Like)
    } else if data[0] == '💌' {
        parse_dating_spec(data.skip(1), RateCode::LikeWithMsg)
    } else if data[0] == '💔' {
        parse_dating_spec(data.skip(1), RateCode::ResponseDislike)
    } else if data[0] == '❤' {
        parse_dating_spec(data.skip(1), RateCode::ResponseLike)
    } else {
        Err(HandleError::WrongCallback)
    }
}

/// The attempt id following a reaction emoji.
pub open spec fn parse_dating_spec(rest: Seq<char>, code: RateCode) -> Result<
    CallbackSpec,
    HandleError,
> {
    if rest.len() > 0 && all_digits(rest) && digits_value(rest) <= i32::MAX {
        Ok(CallbackSpec::Dating(digits_value(rest) as i32, code))
    } else {
        Err(HandleError::WrongCallback)
    }
}

/// Parses the payload of a bitset callback.
fn parse_bits_update(rest: &str) -> (r: Option<BitsUpdate>)
    ensures
        r == parse_bits_update_spec(rest@),
{
    if str_eq(rest, "c") {
        Some(BitsUpdate::Continue)
    } else {
        match parse_u32(rest) {
            Some(v) => Some(BitsUpdate::Toggle(v)),
            None => None,
        }
    }
}

/// Parses a callback data string; see `parse_callback_spec`.
pub fn parse_callback(data: &str) -> (r: Result<Callback, HandleError>)
    ensures
        match r {
            Ok(c) => parse_callback_spec(data@) == Ok::<CallbackSpec, HandleError>(
                callback_view(c),
            ),
            Err(e) => parse_callback_spec(data@) == Err::<CallbackSpec, HandleError>(e),
        },
{
    if str_eq(data, "✍") {
        return Ok(Callback::CreateProfile);
    }
    if str_eq(data, "🔍") {
        return Ok(Callback::FindPartner);
    }
    let n = data.unicode_len();
    if n == 0 {
        return Err(HandleError::WrongCallback);
    }
    let c = data.get_char(0);
    let rest = data.substring_char(1, n);
    proof {
        assert(rest@ == data@.skip(1));
    }
    if c == 'e' {
        Ok(Callback::EditField(rest.to_owned()))
    } else if c == 's' {
        match parse_bits_update(rest) {
            Some(u) => Ok(Callback::SetSubjects(u)),
            None => Err(HandleError::WrongCallback),
        }
    } else if c == 'f' {
        match parse_bits_update(rest) {
            Some(u) => Ok(Callback::SetSubjectsFilter(u)),
            None => Err(HandleError::WrongCallback),
        }
    } else if c == 'p' {
        match parse_bits_update(rest) {
            Some(u) => Ok(Callback::SetDatingPurpose(u)),
            None => Err(HandleError::WrongCallback),
        }
    } else if c == '👎' {
        parse_dating(rest, RateCode::Dislike)
    } else if c == '👍' {
        parse_dating(rest, RateCode::Like)
    } else if c == '💌' {
        parse_dating(rest, RateCode::LikeWithMsg)
    } else if c == '💔' {
        parse_dating(rest, RateCode::ResponseDislike)
    } else if c == '❤' {
        parse_dating(rest, RateCode::ResponseLike)
    } else {
        Err(HandleError::WrongCallback)
    }
}

/// Parses the attempt id after a reaction emoji.
fn parse_dating(rest: &str, code: RateCode) -> (r: Result<Callback, HandleError>)
    ensures
        match r {
            Ok(c) => parse_dating_spec(rest@, code) == Ok::<CallbackSpec, HandleError>(
                callback_view(c),
            ),
            Err(e) => parse_dating_spec(rest@, code) == Err::<CallbackSpec, HandleError>(e),
        },
{
    match parse_u32(rest) {
        Some(v) => {
            if v <= i32::MAX as u32 {
                Ok(Callback::Dating { dating_id: v as i32, code })
            } else {
                Err(HandleError::WrongCallback)
            }
        },
        None => Err(HandleError::WrongCallback),
    }
}

/// A callback handler's outcome: either a finished transition, or a
/// request for the record the decision needs.
#[derive(Debug, PartialEq, Eq)]
pub enum CallbackOutcome {
    /// Transition taken.
    Done(Transition),
    /// The caller must load the attempt and call `dating_step`.
    NeedDating { dating_id: i32, code: RateCode },
    /// The caller must load the user's settings and call `edit_step`.
    NeedProfile { user_id: i64, field: String },
    /// The caller must check whether the user can be linked to and call
    /// `start_creation`.
    NeedForwardCheck { chat_id: i64 },
}

/// Ghost mirror of a callback handler's outcome.
pub enum CallbackStepSpec {
    Done(State, Seq<Action>),
    NeedDating(i32, RateCode),
    NeedProfile(i64, Seq<char>),
    NeedForwardCheck(i64),
}

/// Fields offered by the edit menu.
pub open spec fn valid_edit_field(f: Seq<char>) -> bool {
    f == "Имя"@ || f == "Предметы"@ || f == "О себе"@ || f == "Город"@ || f == "Фото"@
}

/// What a tap on a subjects keyboard does: a toggle XORs the bits into
/// the draft and re-renders the keyboard in place; continue stores the
/// selection, replaces the keyboard with a summary, and advances per
/// the dialogue mode.
pub open spec fn subjects_update_spec(d: StateData, u: BitsUpdate, filter: bool) -> Result<
    CallbackStepSpec,
    HandleError,
> {
    let current = if filter {
        draft_subjects_filter(d)
    } else {
        draft_subjects(d)
    };
    match u {
        BitsUpdate::Continue => {
            let d2 = if filter {
                StateData {
                    s: UserSettings {
                        subjects_filter: Some(SubjectsFilter { subjects: current }),
                        ..d.s
                    },
                    ..d
                }
            } else {
                StateData {
                    s: UserSettings { subjects: Some(UserSubjects { subjects: current }), ..d.s },
                    ..d
                }
            };
            let msg = if filter {
                Msg::SubjectsFilterChosen { selected: current }
            } else {
                Msg::SubjectsChosen { selected: current }
            };
            let nic = if filter {
                State::SetDatingPurpose(d2)
            } else {
                State::SetSubjectsFilter(d2)
            };
            let (ns, acts) = complete_step(d2, nic);
            Ok(CallbackStepSpec::Done(
                ns,
                seq![Action::RemoveButtons, Action::EditText { msg }] + acts,
            ))
        },
        BitsUpdate::Toggle(bits) => if bits & crate::subjects::SUBJECTS_MASK == bits {
            let nw = Subjects { bits: current.bits ^ bits };
            let d2 = if filter {
                StateData {
                    s: UserSettings {
                        subjects_filter: Some(SubjectsFilter { subjects: nw }),
                        ..d.s
                    },
                    ..d
                }
            } else {
                StateData {
                    s: UserSettings { subjects: Some(UserSubjects { subjects: nw }), ..d.s },
                    ..d
                }
            };
            let ns = if filter {
                State::SetSubjectsFilter(d2)
            } else {
                State::SetSubjects(d2)
            };
            Ok(CallbackStepSpec::Done(
                ns,
                seq![
                    Action::EditKeyboard {
                        keyboard: KeyboardSpec::SubjectsToggles { selected: nw, filter },
                    },
                ],
            ))
        } else {
            Err(HandleError::WrongCallback)
        },
    }
}

/// What a tap on the purpose keyboard does; finishing with an empty
/// selection is rejected as a guard violation.
pub open spec fn purpose_update_spec(d: StateData, u: BitsUpdate) -> Result<
    CallbackStepSpec,
    HandleError,
> {
    let current = draft_purpose(d);
    match u {
        BitsUpdate::Continue => if current.bits == 0 {
            Err(HandleError::EmptyPurpose)
        } else {
            let d2 = StateData { s: UserSettings { dating_purpose: Some(current), ..d.s }, ..d };
            let (ns, acts) = complete_step(d2, State::SetCity(d2));
            Ok(CallbackStepSpec::Done(
                ns,
                seq![
                    Action::RemoveButtons,
                    Action::EditText { msg: Msg::PurposeChosen { selected: current } },
                ] + acts,
            ))
        },
        BitsUpdate::Toggle(bits) => if bits & (crate::subjects::PURPOSE_MASK as u32) == bits {
            let nw = DatingPurpose { bits: current.bits ^ (bits as u16) };
            let d2 = StateData { s: UserSettings { dating_purpose: Some(nw), ..d.s }, ..d };
            Ok(CallbackStepSpec::Done(
                State::SetDatingPurpose(d2),
                seq![
                    Action::EditKeyboard {
                        keyboard: KeyboardSpec::PurposeToggles { selected: nw },
                    },
                ],
            ))
        } else {
            Err(HandleError::WrongCallback)
        },
    }
}

/// The transition table for callback taps. A reaction tapped outside
/// the idle state only raises an alert; states not driven by callbacks
/// ignore them.
pub open spec fn callback_step_spec(state: State, data: Seq<char>, chat_id: i64) -> Result<
    CallbackStepSpec,
    HandleError,
> {
    match parse_callback_spec(data) {
        Err(e) => Err(e),
        Ok(cb) => if (cb matches CallbackSpec::Dating(_, _)) && !(state is Start) {
            Ok(CallbackStepSpec::Done(
                state,
                seq![Action::AnswerAlert { msg: Msg::LeaveEditingFirst }],
            ))
        } else {
            match state {
                State::SetSubjects(d) => match cb {
                    CallbackSpec::SetSubjects(u) => subjects_update_spec(d, u, false),
                    _ => Err(HandleError::WrongCallback),
                },
                State::SetSubjectsFilter(d) => match cb {
                    CallbackSpec::SetSubjectsFilter(u) => subjects_update_spec(d, u, true),
                    _ => Err(HandleError::WrongCallback),
                },
                State::SetDatingPurpose(d) => match cb {
                    CallbackSpec::SetDatingPurpose(u) => purpose_update_spec(d, u),
                    _ => Err(HandleError::WrongCallback),
                },
                State::Edit => match cb {
                    CallbackSpec::EditField(f) => if f == "Отмена"@ {
                        Ok(CallbackStepSpec::Done(State::Start, seq![Action::RemoveButtons]))
                    } else if valid_edit_field(f) {
                        Ok(CallbackStepSpec::NeedProfile(chat_id, f))
                    } else {
                        Err(HandleError::WrongCallback)
                    },
                    _ => Err(HandleError::WrongCallback),
                },
                State::Start => match cb {
                    CallbackSpec::Dating(id, code) => Ok(CallbackStepSpec::NeedDating(id, code)),
                    CallbackSpec::CreateProfile => Ok(CallbackStepSpec::NeedForwardCheck(chat_id)),
                    CallbackSpec::FindPartner => Ok(CallbackStepSpec::Done(
                        State::Start,
                        seq![
                            Action::RemoveButtons,
                            Action::SendRecommendation { chat_id },
                        ],
                    )),
                    _ => Err(HandleError::WrongCallback),
                },
                _ => Ok(CallbackStepSpec::Done(state, Seq::empty())),
            }
        },
    }
}

/// Handles a callback tap in the current state; see `callback_step_spec`
/// for the exact transition table.
pub fn handle_callback(state: State, data: &str, chat_id: i64) -> (r: Result<
    CallbackOutcome,
    HandleError,
>)
    ensures
        match r {
            Ok(o) => match o {
                CallbackOutcome::Done(tr) => callback_step_spec(state, data@, chat_id) == Ok::<
                    CallbackStepSpec,
                    HandleError,
                >(CallbackStepSpec::Done(tr.next, tr.actions@)),
                CallbackOutcome::NeedDating { dating_id, code } => callback_step_spec(
                    state,
                    data@,
                    chat_id,
                ) == Ok::<CallbackStepSpec, HandleError>(CallbackStepSpec::NeedDating(
                    dating_id,
                    code,
                )),
                CallbackOutcome::NeedProfile { user_id, field } => callback_step_spec(
                    state,
                    data@,
                    chat_id,
                ) == Ok::<CallbackStepSpec, HandleError>(CallbackStepSpec::NeedProfile(
                    user_id,
                    field@,
                )),
                CallbackOutcome::NeedForwardCheck { chat_id: c } => callback_step_spec(
                    state,
                    data@,
                    chat_id,
                ) == Ok::<CallbackStepSpec, HandleError>(CallbackStepSpec::NeedForwardCheck(c)),
            },
            Err(e) => callback_step_spec(state, data@, chat_id) == Err::<
                CallbackStepSpec,
                HandleError,
            >(e),
        },
{
    let cb = match parse_callback(data) {
        Ok(c) => c,
        Err(e) => {
            return Err(e);
        },
    };
    if matches!(cb, Callback::Dating { .. }) && !matches!(state, State::Start) {
        let mut acts: Vec<Action> = Vec::new();
        acts.push(Action::AnswerAlert { msg: Msg::LeaveEditingFirst });
        proof {
            assert(acts@ =~= seq![Action::AnswerAlert { msg: Msg::LeaveEditingFirst }]);
        }
        return Ok(CallbackOutcome::Done(Transition { next: state, actions: acts }));
    }
    match state {
        State::SetSubjects(d) => match cb {
            Callback::SetSubjects(u) => subjects_update(d, u, false),
            _ => Err(HandleError::WrongCallback),
        },
        State::SetSubjectsFilter(d) => match cb {
            Callback::SetSubjectsFilter(u) => subjects_update(d, u, true),
            _ => Err(HandleError::WrongCallback),
        },
        State::SetDatingPurpose(d) => match cb {
            Callback::SetDatingPurpose(u) => purpose_update(d, u),
            _ => Err(HandleError::WrongCallback),
        },
        State::Edit => match cb {
            Callback::EditField(f) => {
                if str_eq(f.as_str(), "Отмена") {
                    let mut acts: Vec<Action> = Vec::new();
                    acts.push(Action::RemoveButtons);
                    proof {
                        assert(acts@ =~= seq![Action::RemoveButtons]);
                    }
                    Ok(CallbackOutcome::Done(Transition { next: State::Start, actions: acts }))
                } else if str_eq(f.as_str(), "Имя") || str_eq(f.as_str(), "Предметы") || str_eq(
                    f.as_str(),
                    "О себе",
                ) || str_eq(f.as_str(), "Город") || str_eq(f.as_str(), "Фото") {
                    Ok(CallbackOutcome::NeedProfile { user_id: chat_id, field: f })
                } else {
                    Err(HandleError::WrongCallback)
                }
            },
            _ => Err(HandleError::WrongCallback),
        },
        State::Start => match cb {
            Callback::Dating { dating_id, code } => Ok(CallbackOutcome::NeedDating {
                dating_id,
                code,
            }),
            Callback::CreateProfile => Ok(CallbackOutcome::NeedForwardCheck { chat_id }),
            Callback::FindPartner => {
                let mut acts: Vec<Action> = Vec::new();
                acts.push(Action::RemoveButtons);
                acts.push(Action::SendRecommendation { chat_id });
                proof {
                    assert(acts@ =~= seq![
                        Action::RemoveButtons,
                        Action::SendRecommendation { chat_id },
                    ]);
                }
                Ok(CallbackOutcome::Done(Transition { next: State::Start, actions: acts }))
            },
            _ => Err(HandleError::WrongCallback),
        },
        _ => Ok(CallbackOutcome::Done(Transition { next: state, actions: Vec::new() })),
    }
}

/// Applies `subjects_update_spec` to a tap on a subjects keyboard.
fn subjects_update(d: StateData, u: BitsUpdate, filter: bool) -> (r: Result<
    CallbackOutcome,
    HandleError,
>)
    ensures
        match r {
            Ok(o) => o matches CallbackOutcome::Done(tr) && subjects_update_spec(d, u, filter)
                == Ok::<CallbackStepSpec, HandleError>(CallbackStepSpec::Done(
                tr.next,
                tr.actions@,
            )),
            Err(e) => subjects_update_spec(d, u, filter) == Err::<CallbackStepSpec, HandleError>(
                e,
            ),
        },
{
    let current = if filter {
        match d.s.subjects_filter {
            Some(sf) => sf.subjects,
            None => Subjects { bits: 0 },
        }
    } else {
        match d.s.subjects {
            Some(us) => us.subjects,
            None => Subjects { bits: 0 },
        }
    };
    match u {
        BitsUpdate::Continue => {
            let d2 = if filter {
                StateData {
                    s: UserSettings {
                        subjects_filter: Some(SubjectsFilter { subjects: current }),
                        ..d.s
                    },
                    ..d
                }
            } else {
                StateData {
                    s: UserSettings { subjects: Some(UserSubjects { subjects: current }), ..d.s },
                    ..d
                }
            };
            let msg = if filter {
                Msg::SubjectsFilterChosen { selected: current }
            } else {
                Msg::SubjectsChosen { selected: current }
            };
            let mut acts: Vec<Action> = Vec::new();
            acts.push(Action::RemoveButtons);
            acts.push(Action::EditText { msg });
            let ns: State;
            if d2.create_new {
                let nxt = if filter {
                    State::SetDatingPurpose(d2)
                } else {
                    State::SetSubjectsFilter(d2)
                };
                let mut rendered = render_prompt(&nxt);
                acts.append(&mut rendered);
                ns = nxt;
            } else {
                acts.push(Action::PersistDraft { draft: d2.s });
                ns = State::Start;
            }
            proof {
                let spec_r = subjects_update_spec(d, u, filter);
                assert(spec_r matches Ok(CallbackStepSpec::Done(sns, sacts)) && sns == ns
                    && acts@ =~= sacts);
            }
            Ok(CallbackOutcome::Done(Transition { next: ns, actions: acts }))
        },
        BitsUpdate::Toggle(bits) => {
            if bits & crate::subjects::SUBJECTS_MASK == bits {
                let nw = Subjects { bits: current.bits ^ bits };
                let d2 = if filter {
                    StateData {
                        s: UserSettings {
                            subjects_filter: Some(SubjectsFilter { subjects: nw }),
                            ..d.s
                        },
                        ..d
                    }
                } else {
                    StateData {
                        s: UserSettings { subjects: Some(UserSubjects { subjects: nw }), ..d.s },
                        ..d
                    }
                };
                let ns = if filter {
                    State::SetSubjectsFilter(d2)
                } else {
                    State::SetSubjects(d2)
                };
                let mut acts: Vec<Action> = Vec::new();
                acts.push(Action::EditKeyboard {
                    keyboard: KeyboardSpec::SubjectsToggles { selected: nw, filter },
                });
                proof {
                    assert(acts@ =~= seq![acts@[0]]);
                }
                Ok(CallbackOutcome::Done(Transition { next: ns, actions: acts }))
            } else {
                Err(HandleError::WrongCallback)
            }
        },
    }
}

/// Applies `purpose_update_spec` to a tap on the purpose keyboard.
fn purpose_update(d: StateData, u: BitsUpdate) -> (r: Result<CallbackOutcome, HandleError>)
    ensures
        match r {
            Ok(o) => o matches CallbackOutcome::Done(tr) && purpose_update_spec(d, u) == Ok::<
                CallbackStepSpec,
                HandleError,
            >(CallbackStepSpec::Done(tr.next, tr.actions@)),
            Err(e) => purpose_update_spec(d, u) == Err::<CallbackStepSpec, HandleError>(e),
        },
{
    let current = match d.s.dating_purpose {
        Some(p) => p,
        None => DatingPurpose { bits: 0 },
    };
    match u {
        BitsUpdate::Continue => {
            if current.bits == 0 {
                return Err(HandleError::EmptyPurpose);
            }
            let d2 = StateData { s: UserSettings { dating_purpose: Some(current), ..d.s }, ..d };
            let mut acts: Vec<Action> = Vec::new();
            acts.push(Action::RemoveButtons);
            acts.push(Action::EditText { msg: Msg::PurposeChosen { selected: current } });
            let ns: State;
            if d2.create_new {
                let nxt = State::SetCity(d2);
                let mut rendered = render_prompt(&nxt);
                acts.append(&mut rendered);
                ns = nxt;
            } else {
                acts.push(Action::PersistDraft { draft: d2.s });
                ns = State::Start;
            }
            proof {
                let spec_r = purpose_update_spec(d, u);
                assert(spec_r matches Ok(CallbackStepSpec::Done(sns, sacts)) && sns == ns
                    && acts@ =~= sacts);
            }
            Ok(CallbackOutcome::Done(Transition { next: ns, actions: acts }))
        },
        BitsUpdate::Toggle(bits) => {
            if bits & (crate::subjects::PURPOSE_MASK as u32) == bits {
                let nw = DatingPurpose { bits: current.bits ^ (bits as u16) };
                let d2 = StateData { s: UserSettings { dating_purpose: Some(nw), ..d.s }, ..d };
                let mut acts: Vec<Action> = Vec::new();
                acts.push(Action::EditKeyboard {
                    keyboard: KeyboardSpec::PurposeToggles { selected: nw },
                });
                proof {
                    assert(acts@ =~= seq![acts@[0]]);
                }
                Ok(CallbackOutcome::Done(Transition { next: State::SetDatingPurpose(d2),
                    actions: acts }))
            } else {
                Err(HandleError::WrongCallback)
            }
        },
    }
}

} // verus!

verus! {

/// What choosing a field on the edit menu does: the matching
/// single-field state is entered with the stored profile pre-loaded,
/// the menu's buttons are cleared and the field's prompt rendered.
pub open spec fn edit_step_spec(s: UserSettings, f: Seq<char>) -> Result<
    (State, Seq<Action>),
    HandleError,
> {
    let p = StateData { s, create_new: false, photos_count: 0 };
    if f == "Имя"@ {
        Ok((State::SetName(p), seq![Action::RemoveButtons] + render_spec(State::SetName(p))))
    } else if f == "Предметы"@ {
        Ok((
            State::SetSubjects(p),
            seq![Action::RemoveButtons] + render_spec(State::SetSubjects(p)),
        ))
    } else if f == "О себе"@ {
        Ok((State::SetAbout(p), seq![Action::RemoveButtons] + render_spec(State::SetAbout(p))))
    } else if f == "Город"@ {
        Ok((State::SetCity(p), seq![Action::RemoveButtons] + render_spec(State::SetCity(p))))
    } else if f == "Фото"@ {
        Ok((State::SetPhotos(p), seq![Action::RemoveButtons] + render_spec(State::SetPhotos(p))))
    } else {
        Err(HandleError::WrongCallback)
    }
}

/// Enters the single-field state chosen on the edit menu, with the
/// user's stored settings pre-loaded.
pub fn edit_step(s: UserSettings, field: &str) -> (r: Result<Transition, HandleError>)
    ensures
        match r {
            Ok(tr) => edit_step_spec(s, field@) == Ok::<(State, Seq<Action>), HandleError>(
                (tr.next, tr.actions@),
            ),
            Err(e) => edit_step_spec(s, field@) == Err::<(State, Seq<Action>), HandleError>(e),
        },
{
    let p = StateData { s, create_new: false, photos_count: 0 };
    let ns: State;
    if str_eq(field, "Имя") {
        ns = State::SetName(p);
    } else if str_eq(field, "Предметы") {
        ns = State::SetSubjects(p);
    } else if str_eq(field, "О себе") {
        ns = State::SetAbout(p);
    } else if str_eq(field, "Город") {
        ns = State::SetCity(p);
    } else if str_eq(field, "Фото") {
        ns = State::SetPhotos(p);
    } else {
        return Err(HandleError::WrongCallback);
    }
    let mut acts: Vec<Action> = Vec::new();
    acts.push(Action::RemoveButtons);
    let mut rendered = render_prompt(&ns);
    acts.append(&mut rendered);
    proof {
        assert(acts@ =~= seq![Action::RemoveButtons] + render_spec(ns));
    }
    Ok(Transition { next: ns, actions: acts })
}

/// What a reaction tap does once the attempt record is loaded. Each
/// side reacts exactly once: a second submission from the same side is
/// rejected with no state change, no storage write and no notification.
/// A like notifies the partner and continues the initiator's flow; a
/// mutual response notifies both sides of the match.
pub open spec fn dating_step_spec(dating: DatingAttempt, code: RateCode) -> Result<
    (State, Seq<Action>),
    HandleError,
> {
    match code {
        RateCode::Dislike => if dating.initiator_reaction is None {
            Ok((
                State::Start,
                seq![
                    Action::RemoveButtons,
                    Action::SetInitiatorReaction { dating_id: dating.id, value: false },
                    Action::SendRecommendation { chat_id: dating.initiator_id },
                ],
            ))
        } else {
            Err(HandleError::DoubleReaction { code })
        },
        RateCode::Like => if dating.initiator_reaction is None {
            Ok((
                State::Start,
                seq![
                    Action::RemoveButtons,
                    Action::SetInitiatorReaction { dating_id: dating.id, value: true },
                    Action::SendRecommendation { chat_id: dating.initiator_id },
                    Action::SendLike { dating, message: None },
                ],
            ))
        } else {
            Err(HandleError::DoubleReaction { code })
        },
        RateCode::LikeWithMsg => if dating.initiator_reaction is None {
            Ok((
                State::LikeWithMessage { dating },
                seq![Action::RemoveButtons] + render_spec(State::LikeWithMessage { dating }),
            ))
        } else {
            Err(HandleError::DoubleReaction { code })
        },
        RateCode::ResponseDislike => if dating.partner_reaction is None {
            Ok((
                State::Start,
                seq![
                    Action::RemoveButtons,
                    Action::SetPartnerReaction { dating_id: dating.id, value: false },
                ],
            ))
        } else {
            Err(HandleError::DoubleReaction { code })
        },
        RateCode::ResponseLike => if dating.partner_reaction is None {
            Ok((
                State::Start,
                seq![
                    Action::SetPartnerReaction { dating_id: dating.id, value: true },
                    Action::NotifyMutual { dating },
                ],
            ))
        } else {
            Err(HandleError::DoubleReaction { code })
        },
    }
}

/// Applies a reaction tap to a loaded attempt; see `dating_step_spec`.
pub fn dating_step(dating: &DatingAttempt, code: RateCode) -> (r: Result<
    Transition,
    HandleError,
>)
    ensures
        match r {
            Ok(tr) => dating_step_spec(*dating, code) == Ok::<(State, Seq<Action>), HandleError>(
                (tr.next, tr.actions@),
            ),
            Err(e) => dating_step_spec(*dating, code) == Err::<
                (State, Seq<Action>),
                HandleError,
            >(e),
        },
{
    match code {
        RateCode::Dislike => {
            if dating.initiator_reaction.is_some() {
                return Err(HandleError::DoubleReaction { code });
            }
            let mut acts: Vec<Action> = Vec::new();
            acts.push(Action::RemoveButtons);
            acts.push(Action::SetInitiatorReaction { dating_id: dating.id, value: false });
            acts.push(Action::SendRecommendation { chat_id: dating.initiator_id });
            proof {
                assert(acts@ =~= seq![acts@[0], acts@[1], acts@[2]]);
            }
            Ok(Transition { next: State::Start, actions: acts })
        },
        RateCode::Like => {
            if dating.initiator_reaction.is_some() {
                return Err(HandleError::DoubleReaction { code });
            }
            let mut acts: Vec<Action> = Vec::new();
            acts.push(Action::RemoveButtons);
            acts.push(Action::SetInitiatorReaction { dating_id: dating.id, value: true });
            acts.push(Action::SendRecommendation { chat_id: dating.initiator_id });
            acts.push(Action::SendLike { dating: *dating, message: None });
            proof {
                assert(acts@ =~= seq![acts@[0], acts@[1], acts@[2], acts@[3]]);
            }
            Ok(Transition { next: State::Start, actions: acts })
        },
        RateCode::LikeWithMsg => {
            if dating.initiator_reaction.is_some() {
                return Err(HandleError::DoubleReaction { code });
            }
            let ns = State::LikeWithMessage { dating: *dating };
            let mut acts: Vec<Action> = Vec::new();
            acts.push(Action::RemoveButtons);
            let mut rendered = render_prompt(&ns);
            acts.append(&mut rendered);
            proof {
                assert(acts@ =~= seq![Action::RemoveButtons] + render_spec(ns));
            }
            Ok(Transition { next: ns, actions: acts })
        },
        RateCode::ResponseDislike => {
            if dating.partner_reaction.is_some() {
                return Err(HandleError::DoubleReaction { code });
            }
            let mut acts: Vec<Action> = Vec::new();
            acts.push(Action::RemoveButtons);
            acts.push(Action::SetPartnerReaction { dating_id: dating.id, value: false });
            proof {
                assert(acts@ =~= seq![acts@[0], acts@[1]]);
            }
            Ok(Transition { next: State::Start, actions: acts })
        },
        RateCode::ResponseLike => {
            if dating.partner_reaction.is_some() {
                return Err(HandleError::DoubleReaction { code });
            }
            let mut acts: Vec<Action> = Vec::new();
            acts.push(Action::SetPartnerReaction { dating_id: dating.id, value: true });
            acts.push(Action::NotifyMutual { dating: *dating });
            proof {
                assert(acts@ =~= seq![acts@[0], acts@[1]]);
            }
            Ok(Transition { next: State::Start, actions: acts })
        },
    }
}

/// What starting profile creation does once the caller has checked
/// whether the user can be linked to: without a username the user is
/// asked to make one and the state stays; otherwise a fresh creation
/// draft is opened at the name step.
pub open spec fn start_creation_spec(state: State, chat_id: i64, has_url: bool) -> (State, Seq<
    Action,
>) {
    if !has_url {
        (
            state,
            seq![
                Action::RemoveButtons,
                Action::Send {
                    msg: Msg::PleaseAllowForwarding,
                    keyboard: Some(KeyboardSpec::UsernameMade),
                },
            ],
        )
    } else {
        let ns = State::SetName(StateData {
            s: UserSettings { id: chat_id, ..crate::profile::empty_settings_spec() },
            create_new: true,
            photos_count: 0,
        });
        (
            ns,
            seq![
                Action::RemoveButtons,
                Action::Send { msg: Msg::ProfileCreationStarted, keyboard: None },
            ] + render_spec(ns),
        )
    }
}

/// Starts profile creation; see `start_creation_spec`.
pub fn start_creation(state: State, chat_id: i64, has_url: bool) -> (r: Transition)
    ensures
        (r.next, r.actions@) == start_creation_spec(state, chat_id, has_url),
{
    if !has_url {
        let mut acts: Vec<Action> = Vec::new();
        acts.push(Action::RemoveButtons);
        acts.push(Action::Send {
            msg: Msg::PleaseAllowForwarding,
            keyboard: Some(KeyboardSpec::UsernameMade),
        });
        proof {
            assert(acts@ =~= seq![acts@[0], acts@[1]]);
        }
        Transition { next: state, actions: acts }
    } else {
        let ns = State::SetName(StateData {
            s: UserSettings::with_id(chat_id),
            create_new: true,
            photos_count: 0,
        });
        let mut acts: Vec<Action> = Vec::new();
        acts.push(Action::RemoveButtons);
        acts.push(Action::Send { msg: Msg::ProfileCreationStarted, keyboard: None });
        let mut rendered = render_prompt(&ns);
        acts.append(&mut rendered);
        proof {
            assert(acts@ =~= seq![
                Action::RemoveButtons,
                Action::Send { msg: Msg::ProfileCreationStarted, keyboard: None },
            ] + render_spec(ns));
        }
        Transition { next: ns, actions: acts }
    }
}

/// A bot command.
#[derive(Clone, Copy, Debug, PartialEq, Eq, Structural)]
pub enum Command {
    Create,
    Profile,
    Edit,
    Date,
    Enable,
    Disable,
    Start,
    Help,
}

/// A command handler's outcome.
#[derive(Debug, PartialEq, Eq)]
pub enum CommandOutcome {
    /// Transition taken.
    Done(Transition),
    /// The caller must check whether the user can be linked to and call
    /// `start_creation`.
    NeedForwardCheck { chat_id: i64 },
}

/// Ghost mirror of a command handler's outcome.
pub enum CommandStepSpec {
    Done(State, Seq<Action>),
    NeedForwardCheck(i64),
}

/// The update that switches a profile's activity and touches nothing
/// else.
pub open spec fn activity_update_spec(chat_id: i64, active: bool) -> UserSettings {
    UserSettings { id: chat_id, active: Some(active), ..crate::profile::empty_settings_spec() }
}

/// What each command does. Commands needing a stored profile answer
/// with a please-create prompt when there is none; enabling and
/// disabling persist an activity-only update.
pub open spec fn command_step_spec(cmd: Command, chat_id: i64, user_exists: bool, state: State)
    -> CommandStepSpec {
    match cmd {
        Command::Create => CommandStepSpec::NeedForwardCheck(chat_id),
        Command::Edit => if user_exists {
            CommandStepSpec::Done(State::Edit, render_spec(State::Edit))
        } else {
            CommandStepSpec::Done(
                state,
                seq![Action::Send { msg: Msg::PleaseCreateProfile, keyboard: None }],
            )
        },
        Command::Date => if user_exists {
            CommandStepSpec::Done(state, seq![Action::SendRecommendation { chat_id }])
        } else {
            CommandStepSpec::Done(
                state,
                seq![Action::Send { msg: Msg::PleaseCreateProfile, keyboard: None }],
            )
        },
        Command::Profile => if user_exists {
            CommandStepSpec::Done(state, seq![Action::SendProfilePreview { user_id: chat_id }])
        } else {
            CommandStepSpec::Done(
                state,
                seq![Action::Send { msg: Msg::PleaseCreateProfile, keyboard: None }],
            )
        },
        Command::Enable => if user_exists {
            CommandStepSpec::Done(
                state,
                seq![
                    Action::PersistDraft { draft: activity_update_spec(chat_id, true) },
                    Action::Send { msg: Msg::ProfileEnabled, keyboard: None },
                ],
            )
        } else {
            CommandStepSpec::Done(
                state,
                seq![Action::Send { msg: Msg::PleaseCreateProfile, keyboard: None }],
            )
        },
        Command::Disable => if user_exists {
            CommandStepSpec::Done(
                state,
                seq![
                    Action::PersistDraft { draft: activity_update_spec(chat_id, false) },
                    Action::Send { msg: Msg::ProfileDisabled, keyboard: None },
                ],
            )
        } else {
            CommandStepSpec::Done(
                state,
                seq![Action::Send { msg: Msg::PleaseCreateProfile, keyboard: None }],
            )
        },
        Command::Start => CommandStepSpec::Done(
            state,
            seq![
                Action::Send {
                    msg: Msg::Greeting,
                    keyboard: Some(KeyboardSpec::CreateProfileButton),
                },
            ],
        ),
        Command::Help => CommandStepSpec::Done(
            state,
            seq![Action::Send { msg: Msg::CommandList, keyboard: None }],
        ),
    }
}

/// Handles a bot command; `user_exists` says whether a stored profile
/// was found for the chat. See `command_step_spec`.
pub fn handle_command(cmd: Command, chat_id: i64, user_exists: bool, state: State) -> (r:
    CommandOutcome)
    ensures
        match r {
            CommandOutcome::Done(tr) => command_step_spec(cmd, chat_id, user_exists, state)
                == CommandStepSpec::Done(tr.next, tr.actions@),
            CommandOutcome::NeedForwardCheck { chat_id: c } => command_step_spec(
                cmd,
                chat_id,
                user_exists,
                state,
            ) == CommandStepSpec::NeedForwardCheck(c),
        },
{
    match cmd {
        Command::Create => CommandOutcome::NeedForwardCheck { chat_id },
        Command::Edit => {
            if user_exists {
                let ns = State::Edit;
                let acts = render_prompt(&ns);
                CommandOutcome::Done(Transition { next: ns, actions: acts })
            } else {
                CommandOutcome::Done(please_create(state))
            }
        },
        Command::Date => {
            if user_exists {
                let mut acts: Vec<Action> = Vec::new();
                acts.push(Action::SendRecommendation { chat_id });
                proof {
                    assert(acts@ =~= seq![acts@[0]]);
                }
                CommandOutcome::Done(Transition { next: state, actions: acts })
            } else {
                CommandOutcome::Done(please_create(state))
            }
        },
        Command::Profile => {
            if user_exists {
                let mut acts: Vec<Action> = Vec::new();
                acts.push(Action::SendProfilePreview { user_id: chat_id });
                proof {
                    assert(acts@ =~= seq![acts@[0]]);
                }
                CommandOutcome::Done(Transition { next: state, actions: acts })
            } else {
                CommandOutcome::Done(please_create(state))
            }
        },
        Command::Enable => {
            if user_exists {
                let mut upd = UserSettings::with_id(chat_id);
                upd.active = Some(true);
                let mut acts: Vec<Action> = Vec::new();
                acts.push(Action::PersistDraft { draft: upd });
                acts.push(Action::Send { msg: Msg::ProfileEnabled, keyboard: None });
                proof {
                    assert(acts@ =~= seq![acts@[0], acts@[1]]);
                }
                CommandOutcome::Done(Transition { next: state, actions: acts })
            } else {
                CommandOutcome::Done(please_create(state))
            }
        },
        Command::Disable => {
            if user_exists {
                let mut upd = UserSettings::with_id(chat_id);
                upd.active = Some(false);
                let mut acts: Vec<Action> = Vec::new();
                acts.push(Action::PersistDraft { draft: upd });
                acts.push(Action::Send { msg: Msg::ProfileDisabled, keyboard: None });
                proof {
                    assert(acts@ =~= seq![acts@[0], acts@[1]]);
                }
                CommandOutcome::Done(Transition { next: state, actions: acts })
            } else {
                CommandOutcome::Done(please_create(state))
            }
        },
        Command::Start => {
            let mut acts: Vec<Action> = Vec::new();
            acts.push(Action::Send {
                msg: Msg::Greeting,
                keyboard: Some(KeyboardSpec::CreateProfileButton),
            });
            proof {
                assert(acts@ =~= seq![acts@[0]]);
            }
            CommandOutcome::Done(Transition { next: state, actions: acts })
        },
        Command::Help => {
            let mut acts: Vec<Action> = Vec::new();
            acts.push(Action::Send { msg: Msg::CommandList, keyboard: None });
            proof {
                assert(acts@ =~= seq![acts@[0]]);
            }
            CommandOutcome::Done(Transition { next: state, actions: acts })
        },
    }
}

/// The please-create-a-profile answer, leaving the state unchanged.
fn please_create(state: State) -> (r: Transition)
    ensures
        r.next == state,
        r.actions@ == seq![Action::Send { msg: Msg::PleaseCreateProfile, keyboard: None }],
{
    let mut acts: Vec<Action> = Vec::new();
    acts.push(Action::Send { msg: Msg::PleaseCreateProfile, keyboard: None });
    proof {
        assert(acts@ =~= seq![acts@[0]]);
    }
    Transition { next: state, actions: acts }
}

} // verus!

verus! {

/// Finishing the purpose step with an empty selection is rejected as a
/// guard violation; with any non-empty selection it succeeds, and the
/// draft that advances (creation mode) or is persisted (edit mode)
/// holds exactly the selected purposes.
pub proof fn lemma_purpose_continue(d: StateData)
    ensures
        draft_purpose(d).bits == 0 ==> purpose_update_spec(d, BitsUpdate::Continue) == Err::<
            CallbackStepSpec,
            HandleError,
        >(HandleError::EmptyPurpose),
        draft_purpose(d).bits != 0 ==> {
            let d2 = StateData {
                s: UserSettings { dating_purpose: Some(draft_purpose(d)), ..d.s },
                ..d
            };
            &&& purpose_update_spec(d, BitsUpdate::Continue) == Ok::<
                CallbackStepSpec,
                HandleError,
            >(CallbackStepSpec::Done(
                complete_step(d2, State::SetCity(d2)).0,
                seq![
                    Action::RemoveButtons,
                    Action::EditText { msg: Msg::PurposeChosen { selected: draft_purpose(d) } },
                ] + complete_step(d2, State::SetCity(d2)).1,
            ))
            &&& d2.s.dating_purpose == Some(draft_purpose(d))
            &&& d.create_new ==> complete_step(d2, State::SetCity(d2)).0 == State::SetCity(d2)
            &&& !d.create_new ==> complete_step(d2, State::SetCity(d2)).1 == seq![
                Action::PersistDraft { draft: d2.s },
            ]
        },
{
}

/// The photo counter increments once per accepted upload and caps at
/// 10: the 11th and later attempts are rejected with a fixed message
/// and change neither the counter nor the state.
pub proof fn lemma_photo_cap(d: StateData, file: String, kind: MediaKind)
    ensures
        d.photos_count >= 10 ==> photo_step_spec(d, file, kind) == Ok::<
            MessageStepSpec,
            HandleError,
        >(MessageStepSpec::Done(
            State::SetPhotos(d),
            seq![
                Action::Send { msg: Msg::TooManyPhotos, keyboard: Some(KeyboardSpec::SavePhoto) },
            ],
        )),
        d.photos_count < 10 ==> (photo_step_spec(d, file, kind) matches Ok(
            MessageStepSpec::Done(ns, _),
        ) && ns == State::SetPhotos(
            StateData { photos_count: (d.photos_count + 1) as u8, ..d },
        )),
{
}

/// A reaction arriving on an attempt whose same side already reacted is
/// rejected: the handler returns an error, so no transition is taken,
/// no reaction is written and no notification is sent.
pub proof fn lemma_double_reaction_rejected(dating: DatingAttempt, code: RateCode)
    ensures
        (code is Like || code is Dislike || code is LikeWithMsg) && dating.initiator_reaction
            is Some ==> dating_step_spec(dating, code) == Err::<
            (State, Seq<Action>),
            HandleError,
        >(HandleError::DoubleReaction { code }),
        (code is ResponseLike || code is ResponseDislike) && dating.partner_reaction is Some
            ==> dating_step_spec(dating, code) == Err::<(State, Seq<Action>), HandleError>(
            HandleError::DoubleReaction { code },
        ),
{
}

} // verus!
