//! The inbound request: its data model, the accessors that navigate it, and
//! the slot resolution extractor.
pub mod context;
pub mod properties;
pub mod request_body;
pub mod session;
pub mod slots;

use self::context::Context;
use self::properties::User;
use self::request_body::RequestBody;
use self::request_body::SlotName;
use self::session::Session;
use self::slots::{describe_all, extract_slots, views, SlotDescriptor};
use crate::json::clone_json;
use crate::text::str_eq;
use serde_json::Value as JsonValue;
use vstd::prelude::*;
use vstd::string::*;

verus! {

/// A request as it arrives: the triggering event, the session it belongs to
/// and the state of the device. A request is read, never changed.
#[derive(Debug, Clone)]
pub struct Request {
    pub version: String,
    pub session: Option<Session>,
    pub request_body: RequestBody,
    pub context: Context,
}

/// The kinds of request, told apart by the type tag of the triggering event.
#[derive(Debug, Clone, Copy, PartialEq, Eq, Structural)]
pub enum RequestType {
    AplUserEvent,
    IntentRequest,
    LaunchRequest,
    AudioPlayerPlaybackStarted,
    AudioPlayerPlaybackFinished,
    AudioPlayerPlaybackNearlyFinished,
    AudioPlayerPlaybackStopped,
    PlaybackControllerNextCommandIssued,
    PlaybackControllerPreviousCommandIssued,
    PlaybackControllerPlayCommandIssued,
    PlaybackControllerPauseCommandIssued,
    AudioPlayerPlaybackFailed,
    SessionEndedRequest,
    ConnectionsResponse,
    CanFulfillIntentRequest,
    DisplayElementSelected,
    SessionResumedRequest,
}

impl RequestType {
    /// The type tag that stands for this kind of request.
    pub open spec fn tag(self) -> Seq<char> {
        match self {
            RequestType::AplUserEvent => "Alexa.Presentation.APL.UserEvent"@,
            RequestType::IntentRequest => "IntentRequest"@,
            RequestType::LaunchRequest => "LaunchRequest"@,
            RequestType::AudioPlayerPlaybackStarted => "AudioPlayer.PlaybackStarted"@,
            RequestType::AudioPlayerPlaybackFinished => "AudioPlayer.PlaybackFinished"@,
            RequestType::AudioPlayerPlaybackNearlyFinished => "AudioPlayer.PlaybackNearlyFinished"@,
            RequestType::AudioPlayerPlaybackStopped => "AudioPlayer.PlaybackStopped"@,
            RequestType::AudioPlayerPlaybackFailed => "AudioPlayer.PlaybackFailed"@,
            RequestType::PlaybackControllerNextCommandIssued => "PlaybackController.NextCommandIssued"@,
            RequestType::PlaybackControllerPreviousCommandIssued => "PlaybackController.PreviousCommandIssued"@,
            RequestType::PlaybackControllerPlayCommandIssued => "PlaybackController.PlayCommandIssued"@,
            RequestType::PlaybackControllerPauseCommandIssued => "PlaybackController.PauseCommandIssued"@,
            RequestType::SessionEndedRequest => "SessionEndedRequest"@,
            RequestType::ConnectionsResponse => "Connections.Response"@,
            RequestType::CanFulfillIntentRequest => "CanFulfillIntentRequest"@,
            RequestType::DisplayElementSelected => "Display.ElementSelected"@,
            RequestType::SessionResumedRequest => "SessionResumedRequest"@,
        }
    }

    /// Whether `tag` is the type tag of some kind of request.
    pub open spec fn is_tag(tag: Seq<char>) -> bool {
        exists|kind: RequestType| #[trigger] kind.tag() == tag
    }

    /// The kind of request that a type tag stands for. A tag that stands for
    /// none is read as the end of the session.
    pub open spec fn of_tag(tag: Seq<char>) -> RequestType {
        if RequestType::is_tag(tag) {
            choose|kind: RequestType| #[trigger] kind.tag() == tag
        } else {
            RequestType::SessionEndedRequest
        }
    }

    /// The kind of request whose type tag is `input`, if there is one.
    pub fn recognize(input: &str) -> (found: Option<RequestType>)
        ensures
            match found {
                Some(kind) => kind.tag() == input@,
                None => !RequestType::is_tag(input@),
            },
    {
        if str_eq(input, "Alexa.Presentation.APL.UserEvent") {
            Some(RequestType::AplUserEvent)
        } else if str_eq(input, "IntentRequest") {
            Some(RequestType::IntentRequest)
        } else if str_eq(input, "LaunchRequest") {
            Some(RequestType::LaunchRequest)
        } else if str_eq(input, "AudioPlayer.PlaybackStarted") {
            Some(RequestType::AudioPlayerPlaybackStarted)
        } else if str_eq(input, "AudioPlayer.PlaybackFinished") {
            Some(RequestType::AudioPlayerPlaybackFinished)
        } else if str_eq(input, "AudioPlayer.PlaybackNearlyFinished") {
            Some(RequestType::AudioPlayerPlaybackNearlyFinished)
        } else if str_eq(input, "AudioPlayer.PlaybackStopped") {
            Some(RequestType::AudioPlayerPlaybackStopped)
        } else if str_eq(input, "AudioPlayer.PlaybackFailed") {
            Some(RequestType::AudioPlayerPlaybackFailed)
        } else if str_eq(input, "PlaybackController.NextCommandIssued") {
            Some(RequestType::PlaybackControllerNextCommandIssued)
        } else if str_eq(input, "PlaybackController.PreviousCommandIssued") {
            Some(RequestType::PlaybackControllerPreviousCommandIssued)
        } else if str_eq(input, "PlaybackController.PlayCommandIssued") {
            Some(RequestType::PlaybackControllerPlayCommandIssued)
        } else if str_eq(input, "PlaybackController.PauseCommandIssued") {
            Some(RequestType::PlaybackControllerPauseCommandIssued)
        } else if str_eq(input, "SessionEndedRequest") {
            Some(RequestType::SessionEndedRequest)
        } else if str_eq(input, "Connections.Response") {
            Some(RequestType::ConnectionsResponse)
        } else if str_eq(input, "CanFulfillIntentRequest") {
            Some(RequestType::CanFulfillIntentRequest)
        } else if str_eq(input, "Display.ElementSelected") {
            Some(RequestType::DisplayElementSelected)
        } else if str_eq(input, "SessionResumedRequest") {
            Some(RequestType::SessionResumedRequest)
        } else {
            None
        }
    }

    /// Reads a type tag. No tag is refused: one that is not recognized gives
    /// `SessionEndedRequest`.
    pub fn from_str(input: &str) -> (kind: RequestType)
        ensures
            kind == RequestType::of_tag(input@),
            RequestType::is_tag(input@) ==> kind.tag() == input@,
            !RequestType::is_tag(input@) ==> kind == RequestType::SessionEndedRequest,
    {
        match RequestType::recognize(input) {
            Some(kind) => {
                proof {
                    RequestType::lemma_tag_reads_back(kind);
                }
                kind
            },
            None => RequestType::SessionEndedRequest,
        }
    }

    /// The type tag of this kind of request.
    pub fn as_str(&self) -> (tag: &'static str)
        ensures
            tag@ == self.tag(),
    {
        match self {
            RequestType::AplUserEvent => "Alexa.Presentation.APL.UserEvent",
            RequestType::IntentRequest => "IntentRequest",
            RequestType::LaunchRequest => "LaunchRequest",
            RequestType::AudioPlayerPlaybackStarted => "AudioPlayer.PlaybackStarted",
            RequestType::AudioPlayerPlaybackFinished => "AudioPlayer.PlaybackFinished",
            RequestType::AudioPlayerPlaybackNearlyFinished => "AudioPlayer.PlaybackNearlyFinished",
            RequestType::AudioPlayerPlaybackStopped => "AudioPlayer.PlaybackStopped",
            RequestType::AudioPlayerPlaybackFailed => "AudioPlayer.PlaybackFailed",
            RequestType::PlaybackControllerNextCommandIssued => "PlaybackController.NextCommandIssued",
            RequestType::PlaybackControllerPreviousCommandIssued => "PlaybackController.PreviousCommandIssued",
            RequestType::PlaybackControllerPlayCommandIssued => "PlaybackController.PlayCommandIssued",
            RequestType::PlaybackControllerPauseCommandIssued => "PlaybackController.PauseCommandIssued",
            RequestType::SessionEndedRequest => "SessionEndedRequest",
            RequestType::ConnectionsResponse => "Connections.Response",
            RequestType::CanFulfillIntentRequest => "CanFulfillIntentRequest",
            RequestType::DisplayElementSelected => "Display.ElementSelected",
            RequestType::SessionResumedRequest => "SessionResumedRequest",
        }
    }

    /// The type tag of this kind of request, as an owned string.
    pub fn to_string(&self) -> (tag: String)
        ensures
            tag@ == self.tag(),
    {
        self.as_str().to_owned()
    }

    /// Every kind of request is read back from its own type tag.
    pub proof fn lemma_tag_reads_back(kind: RequestType)
        ensures
            RequestType::is_tag(kind.tag()),
            RequestType::of_tag(kind.tag()) == kind,
    {
        let read = RequestType::of_tag(kind.tag());
        assert(read.tag() == kind.tag());
        if read != kind {
            RequestType::lemma_tags_differ(read, kind);
        }
    }

    /// Different kinds of request have different type tags.
    pub proof fn lemma_tags_differ(a: RequestType, b: RequestType)
        requires
            a != b,
        ensures
            a.tag() != b.tag(),
    {
        reveal_strlit("Alexa.Presentation.APL.UserEvent");
        reveal_strlit("IntentRequest");
        reveal_strlit("LaunchRequest");
        reveal_strlit("AudioPlayer.PlaybackStarted");
        reveal_strlit("AudioPlayer.PlaybackFinished");
        reveal_strlit("AudioPlayer.PlaybackNearlyFinished");
        reveal_strlit("AudioPlayer.PlaybackStopped");
        reveal_strlit("AudioPlayer.PlaybackFailed");
        reveal_strlit("PlaybackController.NextCommandIssued");
        reveal_strlit("PlaybackController.PreviousCommandIssued");
        reveal_strlit("PlaybackController.PlayCommandIssued");
        reveal_strlit("PlaybackController.PauseCommandIssued");
        reveal_strlit("SessionEndedRequest");
        reveal_strlit("Connections.Response");
        reveal_strlit("CanFulfillIntentRequest");
        reveal_strlit("Display.ElementSelected");
        reveal_strlit("SessionResumedRequest");
        // Tags of different lengths differ; the four pairs of equal length
        // differ in the letter named here.
        assert("Alexa.Presentation.APL.UserEvent"@.len() == 32);
        assert("IntentRequest"@.len() == 13);
        assert("LaunchRequest"@.len() == 13);
        assert("AudioPlayer.PlaybackStarted"@.len() == 27);
        assert("AudioPlayer.PlaybackFinished"@.len() == 28);
        assert("AudioPlayer.PlaybackNearlyFinished"@.len() == 34);
        assert("AudioPlayer.PlaybackStopped"@.len() == 27);
        assert("AudioPlayer.PlaybackFailed"@.len() == 26);
        assert("PlaybackController.NextCommandIssued"@.len() == 36);
        assert("PlaybackController.PreviousCommandIssued"@.len() == 40);
        assert("PlaybackController.PlayCommandIssued"@.len() == 36);
        assert("PlaybackController.PauseCommandIssued"@.len() == 37);
        assert("SessionEndedRequest"@.len() == 19);
        assert("Connections.Response"@.len() == 20);
        assert("CanFulfillIntentRequest"@.len() == 23);
        assert("Display.ElementSelected"@.len() == 23);
        assert("SessionResumedRequest"@.len() == 21);
        assert("IntentRequest"@[0] != "LaunchRequest"@[0]);
        assert("AudioPlayer.PlaybackStarted"@[22] != "AudioPlayer.PlaybackStopped"@[22]);
        assert("PlaybackController.NextCommandIssued"@[19] != "PlaybackController.PlayCommandIssued"@[19]);
        assert("CanFulfillIntentRequest"@[0] != "Display.ElementSelected"@[0]);
    }
}

/// Why an accessor could not answer.
#[derive(Debug, Clone, Copy, PartialEq, Eq, Structural)]
pub enum RequestError {
    /// The request has no session.
    SessionNotFound,
    /// Neither the session nor the system block names a user.
    UserIdNotFound,
    /// Neither the session's user nor the system's user has an access token.
    AccessTokenNotFound,
    /// The request has no session, or its session has no attributes.
    SessionAttributesNotFound,
    /// The session's attributes have no `session_data` entry.
    SessionDataKeyMissing,
    /// The type tag of the request is not that of an intent request.
    NotAnIntentRequest,
    /// An intent request that carries no intent.
    IntentNameNotFound,
}

impl RequestError {
    /// The text of the error.
    pub open spec fn text(self) -> Seq<char> {
        match self {
            RequestError::SessionNotFound => "Session id not found"@,
            RequestError::UserIdNotFound => "userId not found"@,
            RequestError::AccessTokenNotFound => "access token not found"@,
            RequestError::SessionAttributesNotFound => "Session attributes not found"@,
            RequestError::SessionDataKeyMissing => "session_data not found in Session attributes"@,
            RequestError::NotAnIntentRequest => "It is not an intent request."@,
            RequestError::IntentNameNotFound => "intent name not found"@,
        }
    }

    /// The error in words.
    pub fn to_string(&self) -> (message: String)
        ensures
            message@ == self.text(),
    {
        match self {
            RequestError::SessionNotFound => "Session id not found".to_owned(),
            RequestError::UserIdNotFound => "userId not found".to_owned(),
            RequestError::AccessTokenNotFound => "access token not found".to_owned(),
            RequestError::SessionAttributesNotFound => "Session attributes not found".to_owned(),
            RequestError::SessionDataKeyMissing => "session_data not found in Session attributes".to_owned(),
            RequestError::NotAnIntentRequest => "It is not an intent request.".to_owned(),
            RequestError::IntentNameNotFound => "intent name not found".to_owned(),
        }
    }
}

/// Whether `answer` is a success that holds the characters `expected`.
pub open spec fn answers(answer: Result<String, RequestError>, expected: Seq<char>) -> bool {
    answer matches Ok(text) && text@ == expected
}

/// Whether `answer` is the failure `error`.
pub open spec fn fails_with(answer: Result<String, RequestError>, error: RequestError) -> bool {
    answer == Err::<String, RequestError>(error)
}

impl Request {
    /// The user named by the session, if the request has a session and the
    /// session names one.
    pub open spec fn session_user(&self) -> Option<User> {
        match self.session {
            Some(session) => session.user,
            None => None,
        }
    }

    /// The user named by the system block of the context, if there is such a
    /// block and it names one.
    pub open spec fn system_user(&self) -> Option<User> {
        match self.context.system {
            Some(system) => system.user,
            None => None,
        }
    }

    /// The access token of a user, if there is a user and it has one.
    pub open spec fn token_of(user: Option<User>) -> Option<String> {
        match user {
            Some(user) => user.access_token,
            None => None,
        }
    }

    /// The user id that the request resolves to: the system's, where the
    /// system names a user, else the session's.
    pub open spec fn resolved_user_id(&self) -> Option<Seq<char>> {
        match self.system_user() {
            Some(user) => Some(user.user_id@),
            None => match self.session_user() {
                Some(user) => Some(user.user_id@),
                None => None,
            },
        }
    }

    /// The access token that the request resolves to: that of the system's
    /// user, where it has one, else that of the session's user.
    pub open spec fn resolved_access_token(&self) -> Option<Seq<char>> {
        match Self::token_of(self.system_user()) {
            Some(token) => Some(token@),
            None => match Self::token_of(self.session_user()) {
                Some(token) => Some(token@),
                None => None,
            },
        }
    }

    /// The device's record of the interfaces it supports, if the context has
    /// a system block and that block a device.
    pub open spec fn interfaces(&self) -> Option<context::SupportedInterfaces> {
        match self.context.system {
            Some(system) => match system.device {
                Some(device) => Some(device.supported_interfaces),
                None => None,
            },
            None => None,
        }
    }

    /// Whether the type tag of the request is that of an intent request.
    pub open spec fn is_intent_request(&self) -> bool {
        self.request_body.req_type@ == RequestType::IntentRequest.tag()
    }

    /// A request of version 1.0 with fixed sample values for its type tag
    /// (`TEST`), request id, timestamp and locale (`en-US`), and nothing
    /// else: no session, no payload, an empty context.
    pub fn new() -> (request: Request)
        ensures
            request.version@ == "1.0"@,
            request.session is None,
            request.request_body.req_type@ == "TEST"@,
            request.request_body.request_id@ == "123456"@,
            request.request_body.timestamp@ == "TIME"@,
            request.request_body.locale@ == "en-US"@,
            request.request_body.dailog_state is None,
            request.request_body.token is None,
            request.request_body.arguments is None,
            request.request_body.source is None,
            request.request_body.components is None,
            request.request_body.intent is None,
            request.request_body.reason is None,
            request.request_body.error is None,
            request.request_body.should_link_result_be_returned is None,
            request.request_body.cause is None,
            request.context.audio_player_details is None,
            request.context.apl_context is None,
            request.context.system is None,
            request.context.viewport is None,
            request.context.viewports is None,
            request.context.extensions is None,
    {
        Request {
            version: "1.0".to_owned(),
            session: None,
            request_body: RequestBody {
                req_type: "TEST".to_owned(),
                request_id: "123456".to_owned(),
                timestamp: "TIME".to_owned(),
                locale: "en-US".to_owned(),
                dailog_state: None,
                token: None,
                arguments: None,
                source: None,
                components: None,
                intent: None,
                reason: None,
                error: None,
                should_link_result_be_returned: None,
                cause: None,
            },
            context: Context {
                audio_player_details: None,
                apl_context: None,
                system: None,
                viewport: None,
                viewports: None,
                extensions: None,
            },
        }
    }

    /// Whether the request opens a session. A request without a session
    /// opens none.
    pub fn is_new_session(&self) -> (is_new: bool)
        ensures
            is_new == (self.session matches Some(session) && session.new),
    {
        match &self.session {
            Some(session) => session.new,
            None => false,
        }
    }

    /// The id of the session.
    pub fn get_session_id(&self) -> (id: Result<String, RequestError>)
        ensures
            match self.session {
                Some(session) => answers(id, session.session_id@),
                None => fails_with(id, RequestError::SessionNotFound),
            },
    {
        match &self.session {
            Some(session) => Ok(session.session_id.clone()),
            None => Err(RequestError::SessionNotFound),
        }
    }

    /// The id of the user. Where both the session and the system block name
    /// a user, the system's id is the answer.
    pub fn get_user_id(&self) -> (id: Result<String, RequestError>)
        ensures
            match self.resolved_user_id() {
                Some(expected) => answers(id, expected),
                None => fails_with(id, RequestError::UserIdNotFound),
            },
            self.session_user() is Some && self.system_user() is Some ==> answers(
                id,
                self.system_user()->0.user_id@,
            ),
            self.session_user() is None && self.system_user() is Some ==> answers(
                id,
                self.system_user()->0.user_id@,
            ),
            self.session_user() is Some && self.system_user() is None ==> answers(
                id,
                self.session_user()->0.user_id@,
            ),
            self.session_user() is None && self.system_user() is None ==> fails_with(
                id,
                RequestError::UserIdNotFound,
            ),
    {
        let mut user_id: Option<String> = None;
        if let Some(session) = &self.session {
            if let Some(user) = &session.user {
                user_id = Some(user.user_id.clone());
            }
        }
        if let Some(system) = &self.context.system {
            if let Some(user) = &system.user {
                user_id = Some(user.user_id.clone());
            }
        }
        match user_id {
            Some(id) => Ok(id),
            None => Err(RequestError::UserIdNotFound),
        }
    }

    /// The access token of the user. Where both the session's user and the
    /// system's user have one, the system's token is the answer.
    pub fn get_user_access_token(&self) -> (token: Result<String, RequestError>)
        ensures
            match self.resolved_access_token() {
                Some(expected) => answers(token, expected),
                None => fails_with(token, RequestError::AccessTokenNotFound),
            },
            Self::token_of(self.system_user()) is Some ==> answers(
                token,
                Self::token_of(self.system_user())->0@,
            ),
            Self::token_of(self.system_user()) is None && Self::token_of(self.session_user())
                is Some ==> answers(token, Self::token_of(self.session_user())->0@),
            Self::token_of(self.system_user()) is None && Self::token_of(self.session_user())
                is None ==> fails_with(token, RequestError::AccessTokenNotFound),
    {
        let mut token: Option<String> = None;
        if let Some(session) = &self.session {
            if let Some(user) = &session.user {
                if let Some(access_token) = &user.access_token {
                    token = Some(access_token.clone());
                }
            }
        }
        if let Some(system) = &self.context.system {
            if let Some(user) = &system.user {
                if let Some(access_token) = &user.access_token {
                    token = Some(access_token.clone());
                }
            }
        }
        match token {
            Some(text) => Ok(text),
            None => Err(RequestError::AccessTokenNotFound),
        }
    }

    /// The value stored under `session_data` in the attributes of the
    /// session.
    pub fn get_session_attributes(&self) -> (data: Result<JsonValue, RequestError>)
        ensures
            match self.session {
                Some(session) => match session.attributes {
                    Some(attributes) => if attributes@.contains_key("session_data"@) {
                        data == Ok::<JsonValue, RequestError>(attributes@["session_data"@])
                    } else {
                        data == Err::<JsonValue, RequestError>(RequestError::SessionDataKeyMissing)
                    },
                    None => data == Err::<JsonValue, RequestError>(
                        RequestError::SessionAttributesNotFound,
                    ),
                },
                None => data == Err::<JsonValue, RequestError>(
                    RequestError::SessionAttributesNotFound,
                ),
            },
            data is Ok <==> (self.session matches Some(session) && session.attributes matches Some(
                attributes,
            ) && attributes@.contains_key("session_data"@)),
    {
        match &self.session {
            Some(session) => match &session.attributes {
                Some(attributes) => match attributes.get("session_data") {
                    Some(value) => Ok(clone_json(value)),
                    None => Err(RequestError::SessionDataKeyMissing),
                },
                None => Err(RequestError::SessionAttributesNotFound),
            },
            None => Err(RequestError::SessionAttributesNotFound),
        }
    }

    /// The name of the intent. Only an intent request has one: any other
    /// request is refused, whether or not it carries an intent.
    pub fn get_intent_name(&self) -> (name: Result<String, RequestError>)
        ensures
            !self.is_intent_request() ==> fails_with(name, RequestError::NotAnIntentRequest),
            self.is_intent_request() ==> match self.request_body.intent {
                Some(intent) => answers(name, intent.name@),
                None => fails_with(name, RequestError::IntentNameNotFound),
            },
    {
        if str_eq(self.request_body.req_type.as_str(), "IntentRequest") {
            match &self.request_body.intent {
                Some(intent) => Ok(intent.name.clone()),
                None => Err(RequestError::IntentNameNotFound),
            }
        } else {
            Err(RequestError::NotAnIntentRequest)
        }
    }

    /// The locale of the request.
    pub fn get_locale(&self) -> (locale: String)
        ensures
            locale@ == self.request_body.locale@,
    {
        self.request_body.locale.clone()
    }

    /// Whether the device supports the visual interface: whether its record
    /// of interfaces can be reached and holds the block of that interface.
    pub fn is_apl_supported(&self) -> (supported: bool)
        ensures
            supported == (self.interfaces() matches Some(interfaces)
                && interfaces.apl_support is Some),
            self.context.system is None ==> !supported,
    {
        match &self.context.system {
            Some(system) => match &system.device {
                Some(device) => device.supported_interfaces.apl_support.is_some(),
                None => false,
            },
            None => false,
        }
    }

    /// Whether the device supports audio playback: whether its record of
    /// interfaces can be reached and holds the block of that interface.
    pub fn is_audio_player_supported(&self) -> (supported: bool)
        ensures
            supported == (self.interfaces() matches Some(interfaces)
                && interfaces.audio_player_support is Some),
            self.context.system is None ==> !supported,
    {
        match &self.context.system {
            Some(system) => match &system.device {
                Some(device) => device.supported_interfaces.audio_player_support.is_some(),
                None => false,
            },
            None => false,
        }
    }

    /// The slots of the intent in the order in which they are held: none
    /// where the request has no intent or the intent has no slots.
    pub open spec fn slots(&self) -> Seq<(Seq<char>, SlotName)> {
        match self.request_body.intent {
            Some(intent) => match intent.slots {
                Some(slots) => slots.pairs(),
                None => Seq::empty(),
            },
            None => Seq::empty(),
        }
    }

    /// The descriptors of the intent's slots, in the order of the slots. A
    /// slot that cannot be resolved is left out; a request without an intent,
    /// or an intent without slots, gives an empty list.
    pub fn get_slot_values(&self) -> (descriptors: Vec<SlotDescriptor>)
        ensures
            views(descriptors@) == describe_all(self.slots()),
    {
        match &self.request_body.intent {
            Some(intent) => match &intent.slots {
                Some(slots) => extract_slots(slots),
                None => {
                    let none: Vec<SlotDescriptor> = Vec::new();
                    assert(views(none@) =~= Seq::empty());
                    none
                },
            },
            None => {
                let none: Vec<SlotDescriptor> = Vec::new();
                assert(views(none@) =~= Seq::empty());
                none
            },
        }
    }
}

} // verus!
