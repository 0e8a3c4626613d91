//! Dating attempts and the double-opt-in reaction protocol.
//!
//! An attempt records one candidate introduction: the initiator, the
//! partner, and two independent yes/no reactions. Each reaction is set
//! exactly once; a second submission is an abuse condition and is
//! rejected without changing the record.

use vstd::prelude::*;

verus! {

/// One candidate-introduction event with its two reactions.
#[derive(Clone, Copy, Debug, PartialEq, Eq, Structural)]
pub struct DatingAttempt {
    pub id: i32,
    pub initiator_id: i64,
    pub partner_id: i64,
    pub initiator_reaction: Option<bool>,
    pub partner_reaction: Option<bool>,
    pub initiator_msg_id: Option<i32>,
}

/// A reaction tapped on an inline keyboard.
#[derive(Clone, Copy, Debug, PartialEq, Eq, Structural)]
pub enum RateCode {
    Dislike,
    Like,
    LikeWithMsg,
    ResponseDislike,
    ResponseLike,
}

/// A reaction arriving when the same side already reacted.
#[derive(Clone, Copy, Debug, PartialEq, Eq, Structural)]
pub struct DoubleReaction {
    pub code: RateCode,
}

impl DoubleReaction {
    /// Operator-facing description, naming the side and the reaction.
    pub fn message(&self) -> (r: &'static str)
        ensures
            self.code is Dislike ==> r@ == "user abuses dislikes"@,
            self.code is Like ==> r@ == "user abuses likes"@,
            self.code is LikeWithMsg ==> r@ == "user abuses msglikes"@,
            self.code is ResponseDislike ==> r@ == "partner abuses dislikes"@,
            self.code is ResponseLike ==> r@ == "partner abuses likes"@,
    {
        match self.code {
            RateCode::Dislike => "user abuses dislikes",
            RateCode::Like => "user abuses likes",
            RateCode::LikeWithMsg => "user abuses msglikes",
            RateCode::ResponseDislike => "partner abuses dislikes",
            RateCode::ResponseLike => "partner abuses likes",
        }
    }
}

/// What setting the initiator's reaction yields: the updated record
/// when it was still unset, a rejection otherwise.
pub open spec fn react_initiator_spec(a: DatingAttempt, code: RateCode, value: bool) -> Result<
    DatingAttempt,
    DoubleReaction,
> {
    if a.initiator_reaction is None {
        Ok(DatingAttempt { initiator_reaction: Some(value), ..a })
    } else {
        Err(DoubleReaction { code })
    }
}

/// What setting the partner's reaction yields.
pub open spec fn react_partner_spec(a: DatingAttempt, code: RateCode, value: bool) -> Result<
    DatingAttempt,
    DoubleReaction,
> {
    if a.partner_reaction is None {
        Ok(DatingAttempt { partner_reaction: Some(value), ..a })
    } else {
        Err(DoubleReaction { code })
    }
}

/// Sets the initiator's reaction exactly once; a second submission is
/// rejected and leaves the record untouched.
pub fn react_initiator(a: &DatingAttempt, code: RateCode, value: bool) -> (r: Result<
    DatingAttempt,
    DoubleReaction,
>)
    ensures
        r == react_initiator_spec(*a, code, value),
{
    if a.initiator_reaction.is_none() {
        Ok(DatingAttempt { initiator_reaction: Some(value), ..*a })
    } else {
        Err(DoubleReaction { code })
    }
}

/// Sets the partner's reaction exactly once; a second submission is
/// rejected and leaves the record untouched.
pub fn react_partner(a: &DatingAttempt, code: RateCode, value: bool) -> (r: Result<
    DatingAttempt,
    DoubleReaction,
>)
    ensures
        r == react_partner_spec(*a, code, value),
{
    if a.partner_reaction.is_none() {
        Ok(DatingAttempt { partner_reaction: Some(value), ..*a })
    } else {
        Err(DoubleReaction { code })
    }
}

/// An attempt whose initiator already reacted rejects every further
/// initiator reaction, and an accepted reaction changes nothing but the
/// reaction field itself.
pub proof fn lemma_initiator_reacts_once(a: DatingAttempt, code: RateCode, value: bool)
    ensures
        a.initiator_reaction is Some ==> react_initiator_spec(a, code, value) is Err,
        a.initiator_reaction is None ==> react_initiator_spec(a, code, value) == Ok::<
            DatingAttempt,
            DoubleReaction,
        >(DatingAttempt { initiator_reaction: Some(value), ..a }),
{
}

/// The same guarantee for the partner's side.
pub proof fn lemma_partner_reacts_once(a: DatingAttempt, code: RateCode, value: bool)
    ensures
        a.partner_reaction is Some ==> react_partner_spec(a, code, value) is Err,
        a.partner_reaction is None ==> react_partner_spec(a, code, value) == Ok::<
            DatingAttempt,
            DoubleReaction,
        >(DatingAttempt { partner_reaction: Some(value), ..a }),
{
}

/// A mutual match: both sides reacted positively; the terminal success
/// state of an attempt.
pub open spec fn is_mutual_match(a: DatingAttempt) -> bool {
    a.initiator_reaction == Some(true) && a.partner_reaction == Some(true)
}

/// Decides whether an attempt reached the mutual-match state.
pub fn mutual_match(a: &DatingAttempt) -> (r: bool)
    ensures
        r == is_mutual_match(*a),
{
    match (a.initiator_reaction, a.partner_reaction) {
        (Some(true), Some(true)) => true,
        _ => false,
    }
}

/// The self-healing update persisted when a notification finds the
/// recipient has blocked the bot: the profile is deactivated, nothing
/// else is touched.
pub fn deactivation_update(user_id: i64) -> (r: crate::profile::UserSettings)
    ensures
        r == (crate::profile::UserSettings {
            id: user_id,
            active: Some(false),
            ..crate::profile::empty_settings_spec()
        }),
{
    let mut s = crate::profile::UserSettings::with_id(user_id);
    s.active = Some(false);
    s
}

} // verus!
