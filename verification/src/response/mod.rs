//! The outbound response and the builder that composes it.
pub mod card;
pub mod commands;
pub mod directive;
pub mod play_behaviour;
pub mod response_body;
pub mod speech;

use self::card::Card;
use self::directive::Directive;
use self::response_body::ResponseBody;
use self::speech::{Reprompt, Speech};
use crate::string_map::StringMap;
use serde_json::Value as JsonValue;
use vstd::prelude::*;
use vstd::string::*;

verus! {

/// A response under construction. One owner builds it step by step; each
/// setter overwrites what an earlier call of it has set, and directives are
/// only ever added at the end.
#[derive(Debug, Clone)]
pub struct Response {
    pub version: String,
    pub session_attributes: Option<StringMap<JsonValue>>,
    pub response_body: ResponseBody,
}

impl Response {
    /// The directives of the response, in the order in which they were added.
    pub open spec fn directives(&self) -> Seq<Directive> {
        self.response_body.directives()
    }

    /// Whether `after` is `before` with `directive` added behind its
    /// directives and nothing else changed.
    pub open spec fn directive_added(before: Response, directive: Directive, after: Response) -> bool {
        &&& after.directives() == before.directives().push(directive)
        &&& after.response_body.directive is Some
        &&& after.response_body.output_speech == before.response_body.output_speech
        &&& after.response_body.card == before.response_body.card
        &&& after.response_body.reprompt == before.response_body.reprompt
        &&& after.response_body.should_end_session == before.response_body.should_end_session
        &&& after.version == before.version
        &&& after.session_attributes == before.session_attributes
    }

    /// A response of version 1.0 that ends the session and holds nothing
    /// else.
    pub fn default_session_close() -> (response: Response)
        ensures
            response.version@ == "1.0"@,
            response.session_attributes is None,
            response.response_body == (ResponseBody {
                output_speech: None,
                card: None,
                reprompt: None,
                directive: None,
                should_end_session: Some(true),
            }),
    {
        let mut response = Response::new("1.0".to_owned());
        response.with_should_end_session(true);
        response
    }

    /// An empty response of the given version.
    pub fn new(version: String) -> (response: Response)
        ensures
            response.version == version,
            response.session_attributes is None,
            response.response_body == (ResponseBody {
                output_speech: None,
                card: None,
                reprompt: None,
                directive: None,
                should_end_session: None,
            }),
            response.directives() == Seq::<Directive>::empty(),
    {
        Response {
            version,
            session_attributes: None,
            response_body: ResponseBody::new(None, None, None, None, None),
        }
    }

    /// Puts `data` in the place of the session attributes. Nothing of the
    /// earlier attributes is kept.
    pub fn set_session_attributes(&mut self, data: StringMap<JsonValue>)
        ensures
            final(self).session_attributes == Some(data),
            final(self).version == old(self).version,
            final(self).response_body == old(self).response_body,
    {
        self.session_attributes = Some(data);
    }

    /// Sets what the response says, in place of any earlier speech.
    pub fn speak(&mut self, data: Speech)
        ensures
            final(self).response_body == (ResponseBody {
                output_speech: Some(data),
                ..old(self).response_body
            }),
            final(self).version == old(self).version,
            final(self).session_attributes == old(self).session_attributes,
    {
        self.response_body.output_speech = Some(data);
    }

    /// Sets the reprompt to one that says `data`, in place of any earlier
    /// reprompt.
    pub fn reprompt(&mut self, data: Speech)
        ensures
            final(self).response_body == (ResponseBody {
                reprompt: Some(Reprompt { output_speech: data }),
                ..old(self).response_body
            }),
            final(self).version == old(self).version,
            final(self).session_attributes == old(self).session_attributes,
    {
        self.response_body.reprompt = Some(Reprompt::new(data));
    }

    /// Sets the card, in place of any earlier card.
    pub fn card(&mut self, data: Card)
        ensures
            final(self).response_body == (ResponseBody {
                card: Some(data),
                ..old(self).response_body
            }),
            final(self).version == old(self).version,
            final(self).session_attributes == old(self).session_attributes,
    {
        self.response_body.card = Some(data);
    }

    /// Sets whether the session ends with this response.
    pub fn with_should_end_session(&mut self, should_end_session: bool)
        ensures
            final(self).response_body == (ResponseBody {
                should_end_session: Some(should_end_session),
                ..old(self).response_body
            }),
            final(self).version == old(self).version,
            final(self).session_attributes == old(self).session_attributes,
    {
        self.response_body.should_end_session = Some(should_end_session);
    }

    /// Adds `directive` behind the directives that the response holds.
    pub fn add_directive(&mut self, directive: Directive)
        ensures
            Response::directive_added(*old(self), directive, *final(self)),
    {
        let mut list = match self.response_body.directive.take() {
            Some(list) => list,
            None => Vec::new(),
        };
        list.push(directive);
        self.response_body.directive = Some(list);
    }

    /// Directives come out in the order in which they went in: after a run
    /// of additions, the directives are those held at the start followed by
    /// the added ones in the order of the calls. `states` holds the response
    /// before the first addition and after each one.
    pub proof fn lemma_directives_keep_call_order(states: Seq<Response>, added: Seq<Directive>)
        requires
            states.len() == added.len() + 1,
            forall|i: int|
                0 <= i < added.len() ==> Response::directive_added(
                    #[trigger] states[i],
                    added[i],
                    states[i + 1],
                ),
        ensures
            states.last().directives() == states[0].directives() + added,
            states.last().directives().len() == states[0].directives().len() + added.len(),
        decreases added.len(),
    {
        if added.len() == 0 {
            assert(states[0].directives() + added =~= states[0].directives());
        } else {
            let n = added.len() as int;
            Response::lemma_directives_keep_call_order(states.drop_last(), added.drop_last());
            assert(states.drop_last().last() == states[n - 1]);
            assert(Response::directive_added(states[n - 1], added[n - 1], states[n]));
            assert(added =~= added.drop_last().push(added[n - 1]));
            assert(states[0].directives() + added =~= (states[0].directives()
                + added.drop_last()).push(added[n - 1]));
        }
    }
}

} // verus!
