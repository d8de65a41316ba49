//! What the device says: plain text or SSML markup.
use super::play_behaviour::PlayBehaviour;
use vstd::prelude::*;
use vstd::string::*;

verus! {

/// The forms of speech.
#[derive(Debug, Clone, Copy, PartialEq, Eq, Structural)]
pub enum SpeechType {
    PlainText,
    SSML,
}

impl SpeechType {
    /// The word that stands for this form on the wire.
    pub open spec fn tag(self) -> Seq<char> {
        match self {
            SpeechType::PlainText => "PlainText"@,
            SpeechType::SSML => "SSML"@,
        }
    }

    /// The word that stands for this form on the wire.
    pub fn to_string(&self) -> (tag: String)
        ensures
            tag@ == self.tag(),
    {
        match self {
            SpeechType::PlainText => "PlainText".to_owned(),
            SpeechType::SSML => "SSML".to_owned(),
        }
    }

    /// The two forms have different words.
    pub proof fn lemma_tags_differ(a: SpeechType, b: SpeechType)
        requires
            a != b,
        ensures
            a.tag() != b.tag(),
    {
        reveal_strlit("PlainText");
        reveal_strlit("SSML");
        assert("PlainText"@.len() == 9);
        assert("SSML"@.len() == 4);
    }
}

/// A piece of speech. Plain speech holds `text` and no `ssml`; marked-up
/// speech holds `ssml` and no `text`.
#[derive(Debug, Clone, PartialEq, Eq)]
pub struct Speech {
    pub speech_type: String,
    pub text: Option<String>,
    pub ssml: Option<String>,
    pub play_behaviour: Option<String>,
}

impl Speech {
    /// Speech with every field as given.
    pub fn new(
        speech_type: String,
        text: Option<String>,
        ssml: Option<String>,
        play_behaviour: Option<String>,
    ) -> (speech: Speech)
        ensures
            speech == (Speech { speech_type, text, ssml, play_behaviour }),
    {
        Speech { speech_type, text, ssml, play_behaviour }
    }

    /// Plain speech that says `content`.
    pub fn plain(content: String) -> (speech: Speech)
        ensures
            speech.speech_type@ == SpeechType::PlainText.tag(),
            speech.text == Some(content),
            speech.ssml is None,
            speech.play_behaviour is None,
    {
        Speech {
            speech_type: SpeechType::PlainText.to_string(),
            text: Some(content),
            ssml: None,
            play_behaviour: None,
        }
    }

    /// Marked-up speech that says `content`.
    pub fn ssml(content: String) -> (speech: Speech)
        ensures
            speech.speech_type@ == SpeechType::SSML.tag(),
            speech.text is None,
            speech.ssml == Some(content),
            speech.play_behaviour is None,
    {
        Speech {
            speech_type: SpeechType::SSML.to_string(),
            text: None,
            ssml: Some(content),
            play_behaviour: None,
        }
    }

    /// The same speech with its queueing behaviour set to `pb`, whatever it
    /// was before.
    pub fn set_play_behaviour(self, pb: PlayBehaviour) -> (speech: Speech)
        ensures
            speech.speech_type == self.speech_type,
            speech.text == self.text,
            speech.ssml == self.ssml,
            speech.play_behaviour matches Some(word) && word@ == pb.tag(),
    {
        Speech {
            speech_type: self.speech_type,
            text: self.text,
            ssml: self.ssml,
            play_behaviour: Some(pb.to_string()),
        }
    }
}

/// What the device says when the user does not answer: a wrapper around one
/// piece of speech.
#[derive(Debug, Clone, PartialEq, Eq)]
pub struct Reprompt {
    pub output_speech: Speech,
}

impl Reprompt {
    /// A reprompt that says `rp_speech`.
    pub fn new(rp_speech: Speech) -> (reprompt: Reprompt)
        ensures
            reprompt.output_speech == rp_speech,
    {
        Reprompt { output_speech: rp_speech }
    }
}

} // verus!
