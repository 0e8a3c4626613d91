//! Core of a student dating bot: profile value model, draft-profile
//! accumulator, conversation state machine, matching selector and the
//! like/match protocol. All decision logic is verified; transports
//! (messaging, storage) are consumed as interfaces by the caller.

pub mod actions;
pub mod cities;
pub mod datings;
pub mod dialogue;
pub mod gender;
pub mod grade;
pub mod matching;
pub mod profile;
pub mod subjects;
pub mod util;
