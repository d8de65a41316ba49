//! How new speech or audio joins what is already queued on the device.
use vstd::prelude::*;
use vstd::string::*;

verus! {

/// The queueing behaviours.
#[derive(Debug, Clone, Copy, PartialEq, Eq, Structural)]
pub enum PlayBehaviour {
    Enqueue,
    ReplaceAll,
    ReplaceEnqueued,
}

impl PlayBehaviour {
    /// The word that stands for this behaviour on the wire.
    pub open spec fn tag(self) -> Seq<char> {
        match self {
            PlayBehaviour::Enqueue => "ENQUEUE"@,
            PlayBehaviour::ReplaceAll => "REPLACE_ALL"@,
            PlayBehaviour::ReplaceEnqueued => "REPLACE_ENQUEUED"@,
        }
    }

    /// The word that stands for this behaviour on the wire.
    pub fn to_string(&self) -> (tag: String)
        ensures
            tag@ == self.tag(),
    {
        match self {
            PlayBehaviour::Enqueue => "ENQUEUE".to_owned(),
            PlayBehaviour::ReplaceAll => "REPLACE_ALL".to_owned(),
            PlayBehaviour::ReplaceEnqueued => "REPLACE_ENQUEUED".to_owned(),
        }
    }

    /// Different behaviours have different words.
    pub proof fn lemma_tags_differ(a: PlayBehaviour, b: PlayBehaviour)
        requires
            a != b,
        ensures
            a.tag() != b.tag(),
    {
        reveal_strlit("ENQUEUE");
        reveal_strlit("REPLACE_ALL");
        reveal_strlit("REPLACE_ENQUEUED");
        assert("ENQUEUE"@.len() == 7);
        assert("REPLACE_ALL"@.len() == 11);
        assert("REPLACE_ENQUEUED"@.len() == 16);
    }
}

} // verus!
