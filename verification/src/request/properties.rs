//! Identity objects that a request carries for its application, user, unit
//! and person.
use vstd::prelude::*;

verus! {

/// The skill that a request is addressed to.
#[derive(Debug, Clone)]
pub struct Application {
    pub application_id: String,
    pub access_token: Option<String>,
    pub permissions: Option<Permissions>,
}

/// Permissions granted to the skill.
#[derive(Debug, Clone)]
pub struct Permissions {
    pub consent_token: Option<String>,
}

/// The account holder on whose behalf a request is made.
#[derive(Debug, Clone)]
pub struct User {
    pub user_id: String,
    pub access_token: Option<String>,
    pub permissions: Option<Permissions>,
}

/// The unit (a room, a property) that the device belongs to.
#[derive(Debug, Clone)]
pub struct Unit {
    pub unit_id: String,
    pub persistent_unit_id: Option<String>,
}

/// The recognized speaker.
#[derive(Debug, Clone)]
pub struct Person {
    pub person_id: String,
    pub access_token: Option<String>,
}

} // verus!
