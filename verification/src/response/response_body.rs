//! The body of a response.
use super::card::Card;
use super::directive::Directive;
use super::speech::{Reprompt, Speech};
use vstd::prelude::*;

verus! {

/// What a response holds besides its version and session attributes. Every
/// part is optional; the directives keep the order in which they were added.
#[derive(Debug, Clone, PartialEq, Eq)]
pub struct ResponseBody {
    pub output_speech: Option<Speech>,
    pub card: Option<Card>,
    pub reprompt: Option<Reprompt>,
    pub directive: Option<Vec<Directive>>,
    pub should_end_session: Option<bool>,
}

impl ResponseBody {
    /// A body with every part as given.
    pub fn new(
        output_speech: Option<Speech>,
        card: Option<Card>,
        reprompt: Option<Reprompt>,
        should_end_session: Option<bool>,
        directive: Option<Vec<Directive>>,
    ) -> (body: ResponseBody)
        ensures
            body == (ResponseBody { output_speech, card, reprompt, directive, should_end_session }),
    {
        ResponseBody { output_speech, card, reprompt, directive, should_end_session }
    }

    /// The directives in the order in which they were added: none where no
    /// list is held.
    pub open spec fn directives(&self) -> Seq<Directive> {
        match self.directive {
            Some(list) => list@,
            None => Seq::empty(),
        }
    }
}

} // verus!
