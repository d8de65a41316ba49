//! The session that a request belongs to.
use super::properties::{Application, User};
use crate::string_map::StringMap;
use serde_json::Value as JsonValue;
use vstd::prelude::*;

verus! {

/// One multi-turn interaction between a user and the skill.
///
/// `attributes` is free-form state carried from turn to turn; only its
/// `session_data` entry is ever looked up here.
#[derive(Debug, Clone)]
pub struct Session {
    pub new: bool,
    pub session_id: String,
    pub application: Option<Application>,
    pub attributes: Option<StringMap<JsonValue>>,
    pub user: Option<User>,
}

} // verus!
