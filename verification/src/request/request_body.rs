//! The event that triggered a request, with the intent and slots it carries.
use crate::string_map::{distinct_keys, has_key, StringMap};
use serde_json::Value as JsonValue;
use vstd::prelude::*;
use vstd::string::*;

verus! {

/// The triggering event. `req_type` is its discriminator; which of the
/// optional payloads are present depends on it.
#[derive(Debug, Clone)]
pub struct RequestBody {
    pub req_type: String,
    pub request_id: String,
    pub timestamp: String,
    pub locale: String,
    pub dailog_state: Option<String>,
    pub token: Option<String>,
    pub arguments: Option<Vec<StringMap<String>>>,
    pub source: Option<JsonValue>,
    pub components: Option<JsonValue>,
    pub intent: Option<Intent>,
    pub reason: Option<String>,
    pub error: Option<ReqError>,
    pub should_link_result_be_returned: Option<bool>,
    pub cause: Option<Cause>,
}

/// Why a connection that the skill started has come back.
#[derive(Debug, Clone)]
pub struct Cause {
    pub cause_type: String,
    pub token: String,
    pub status: StringMap<String>,
    pub result: Option<StringMap<String>>,
}

/// Each pair of `pairs` with `prefix` put before its key.
pub open spec fn with_prefix(prefix: Seq<char>, pairs: Seq<(Seq<char>, Seq<char>)>) -> Seq<
    (Seq<char>, Seq<char>),
> {
    pairs.map_values(|p: (Seq<char>, Seq<char>)| (prefix + p.0, p.1))
}

/// A text is what follows a prefix of it, so two texts behind one prefix are
/// equal only if they are equal themselves.
pub proof fn lemma_prefix_cancels(prefix: Seq<char>, a: Seq<char>, b: Seq<char>)
    requires
        prefix + a == prefix + b,
    ensures
        a == b,
{
    assert((prefix + a).subrange(prefix.len() as int, (prefix + a).len() as int) =~= a);
    assert((prefix + b).subrange(prefix.len() as int, (prefix + b).len() as int) =~= b);
}

impl Cause {
    /// The flattened entries of a cause, in order: its type, its token, each
    /// status entry under `status_` and its key, each result entry under
    /// `result_` and its key.
    pub open spec fn flattened(&self) -> Seq<(Seq<char>, Seq<char>)> {
        seq![("cause_type"@, self.cause_type@), ("token"@, self.token@)] + with_prefix(
            "status_"@,
            self.status.text_pairs(),
        ) + match self.result {
            Some(result) => with_prefix("result_"@, result.text_pairs()),
            None => Seq::empty(),
        }
    }

    /// Flattens the cause into one map of strings.
    pub fn to_hash_map(&self) -> (map: StringMap<String>)
        ensures
            map.text_pairs() == self.flattened(),
    {
        proof {
            reveal_strlit("cause_type");
            reveal_strlit("token");
            reveal_strlit("status_");
            reveal_strlit("result_");
        }
        let mut map: StringMap<String> = StringMap::new();
        map.insert("cause_type".to_owned(), self.cause_type.clone());
        assert(map.text_pairs() =~= seq![("cause_type"@, self.cause_type@)]);
        proof {
            assert(!has_key(map.pairs(), "token"@)) by {
                if has_key(map.pairs(), "token"@) {
                    assert("cause_type"@[0] != "token"@[0]);
                }
            }
        }
        map.insert("token".to_owned(), self.token.clone());
        let ghost head = seq![("cause_type"@, self.cause_type@), ("token"@, self.token@)];
        assert(map.text_pairs() =~= head);
        append_prefixed(&mut map, "status_", &self.status, Ghost(head), Ghost(Seq::empty()));
        let ghost middle = with_prefix("status_"@, self.status.text_pairs());
        match &self.result {
            Some(result) => {
                append_prefixed(&mut map, "result_", result, Ghost(head), Ghost(middle));
            },
            None => {
                assert(map.text_pairs() =~= self.flattened());
            },
        }
        map
    }
}

/// Whether `key` may follow `head` and `middle` without repeating a key:
/// it starts with neither of the fixed keys' first letters, and the entries
/// of `middle` start with another letter than `prefix`.
spec fn keeps_apart(
    prefix: Seq<char>,
    head: Seq<(Seq<char>, Seq<char>)>,
    middle: Seq<(Seq<char>, Seq<char>)>,
) -> bool {
    &&& prefix.len() > 0
    &&& forall|i: int| 0 <= i < head.len() ==> (#[trigger] head[i]).0.len() > 0 && head[i].0[0] != prefix[0]
    &&& forall|i: int| 0 <= i < middle.len() ==> (#[trigger] middle[i]).0.len() > 0 && middle[i].0[0] != prefix[0]
}

/// Appends every entry of `source` to `map`, with `prefix` before its key.
fn append_prefixed(
    map: &mut StringMap<String>,
    prefix: &str,
    source: &StringMap<String>,
    Ghost(head): Ghost<Seq<(Seq<char>, Seq<char>)>>,
    Ghost(middle): Ghost<Seq<(Seq<char>, Seq<char>)>>,
)
    requires
        old(map).text_pairs() == head + middle,
        keeps_apart(prefix@, head, middle),
    ensures
        final(map).text_pairs() == head + middle + with_prefix(prefix@, source.text_pairs()),
{
    proof {
        use_type_invariant(source);
    }
    let n = source.len();
    let mut i: usize = 0;
    while i < n
        invariant
            i <= n,
            n == source.pairs().len(),
            distinct_keys(source.pairs()),
            keeps_apart(prefix@, head, middle),
            map.text_pairs() == head + middle + with_prefix(
                prefix@,
                source.text_pairs().subrange(0, i as int),
            ),
        decreases n - i,
    {
        let key = prefix.to_owned().concat(source.key_at(i).as_str());
        let value = source.value_at(i).clone();
        let ghost before = map.text_pairs();
        let ghost done = with_prefix(prefix@, source.text_pairs().subrange(0, i as int));
        proof {
            assert(!has_key(map.pairs(), key@)) by {
                if has_key(map.pairs(), key@) {
                    let p = choose|p: int|
                        0 <= p < map.pairs().len() && (#[trigger] map.pairs()[p]).0 == key@;
                    assert(before[p].0 == key@);
                    assert(key@[0] == prefix@[0]);
                    assert(source.text_pairs().subrange(0, i as int).len() == i);
                    assert(done.len() == i);
                    assert(before.len() == head.len() + middle.len() + done.len());
                    if p < head.len() {
                        assert(before[p] == head[p]);
                    } else if p < head.len() + middle.len() {
                        assert(before[p] == middle[p - head.len()]);
                    } else {
                        let q = p - head.len() - middle.len();
                        assert(before[p] == done[q]);
                        assert(source.text_pairs().subrange(0, i as int)[q].0
                            == source.pairs()[q].0);
                        assert(done[q].0 == prefix@ + source.pairs()[q].0);
                        lemma_prefix_cancels(prefix@, source.pairs()[q].0, source.pairs()[i as int].0);
                        assert(source.pairs()[q].0 != source.pairs()[i as int].0);
                    }
                }
            }
        }
        map.insert(key, value);
        proof {
            assert(map.text_pairs() =~= before.push((key@, value@)));
            assert(source.text_pairs().subrange(0, i + 1) =~= source.text_pairs().subrange(
                0,
                i as int,
            ).push(source.text_pairs()[i as int]));
            assert(with_prefix(prefix@, source.text_pairs().subrange(0, i + 1)) =~= done.push(
                (key@, value@),
            ));
            assert(before.push((key@, value@)) =~= head + middle + done.push((key@, value@)));
        }
        i += 1;
    }
    proof {
        assert(source.text_pairs().subrange(0, n as int) =~= source.text_pairs());
    }
}

/// The error that a failed request reports.
#[derive(Debug, Clone)]
pub struct ReqError {
    pub error_type: String,
    pub message: Option<String>,
}

/// What the user asked for, with the slots recognized in the utterance.
#[derive(Debug, Clone)]
pub struct Intent {
    pub name: String,
    pub confirmation_status: Option<String>,
    pub slots: Option<StringMap<SlotName>>,
}

/// A slot, or a slot-value wrapper nested in one.
///
/// A top-level slot may carry a wrapper in `slot_value`, and that wrapper a
/// second one; the candidates of entity resolution hang on the second.
#[derive(Debug)]
pub struct SlotName {
    pub name: String,
    pub value: Option<String>,
    pub confirmation_status: Option<String>,
    pub slot_value: Option<Box<SlotName>>,
    pub resolutions: Option<Resolutions>,
}

impl SlotName {
    /// Whether `other` holds what this slot holds, on every level: the same
    /// texts, the same nested wrappers, the same candidates in the same
    /// order.
    pub open spec fn same_as(&self, other: &SlotName) -> bool
        decreases self,
    {
        &&& self.name == other.name
        &&& self.value == other.value
        &&& self.confirmation_status == other.confirmation_status
        &&& match (self.slot_value, other.slot_value) {
            (Some(mine), Some(theirs)) => (*mine).same_as(&*theirs),
            (None, None) => true,
            _ => false,
        }
        &&& match (self.resolutions, other.resolutions) {
            (Some(mine), Some(theirs)) => mine.same_as(&theirs),
            (None, None) => true,
            _ => false,
        }
    }

    /// A slot holds what it holds.
    pub proof fn lemma_same_as_itself(slot: SlotName)
        ensures
            slot.same_as(&slot),
        decreases slot,
    {
        match slot.slot_value {
            Some(inner) => SlotName::lemma_same_as_itself(*inner),
            None => {},
        }
    }
}

impl Clone for SlotName {
    /// A copy that holds what this slot holds, on every level.
    fn clone(&self) -> (copy: Self)
        ensures
            self.same_as(&copy),
        decreases self,
    {
        let slot_value = match &self.slot_value {
            Some(inner) => Some(Box::new((**inner).clone())),
            None => None,
        };
        let resolutions = match &self.resolutions {
            Some(held) => Some(held.clone()),
            None => None,
        };
        SlotName {
            name: self.name.clone(),
            value: self.value.clone(),
            confirmation_status: self.confirmation_status.clone(),
            slot_value,
            resolutions,
        }
    }
}

/// The candidate lists that entity resolution produced, one per authority,
/// in the order in which the authorities answered.
#[derive(Debug)]
pub struct Resolutions {
    pub resolutions_per_authority: Vec<ResolutionsPerAuthority>,
}

impl Resolutions {
    /// Whether `other` holds the same authorities with the same candidates,
    /// in the same order.
    pub open spec fn same_as(&self, other: &Resolutions) -> bool {
        &&& self.resolutions_per_authority@.len() == other.resolutions_per_authority@.len()
        &&& forall|i: int|
            0 <= i < self.resolutions_per_authority@.len() ==> (
            #[trigger] self.resolutions_per_authority@[i]).same_as(
                &other.resolutions_per_authority@[i],
            )
    }
}

impl Clone for Resolutions {
    /// A copy with the same authorities and candidates, in the same order.
    fn clone(&self) -> (copy: Self)
        ensures
            self.same_as(&copy),
    {
        let mut list: Vec<ResolutionsPerAuthority> = Vec::new();
        let mut i: usize = 0;
        while i < self.resolutions_per_authority.len()
            invariant
                i <= self.resolutions_per_authority.len(),
                list@.len() == i,
                forall|j: int|
                    0 <= j < i ==> (#[trigger] self.resolutions_per_authority@[j]).same_as(
                        &list@[j],
                    ),
            decreases self.resolutions_per_authority.len() - i,
        {
            list.push(self.resolutions_per_authority[i].clone());
            i += 1;
        }
        Resolutions { resolutions_per_authority: list }
    }
}

/// The candidates of one authority; the first is its best match.
#[derive(Debug)]
pub struct ResolutionsPerAuthority {
    pub authority: String,
    pub status: Status,
    pub values: Vec<ResolutionValue>,
}

impl ResolutionsPerAuthority {
    /// Whether `other` is the same authority with the same status and the
    /// same candidates in the same order.
    pub open spec fn same_as(&self, other: &ResolutionsPerAuthority) -> bool {
        &&& self.authority == other.authority
        &&& self.status == other.status
        &&& self.values@ == other.values@
    }
}

impl Clone for ResolutionsPerAuthority {
    /// A copy with the same authority, status and candidates.
    fn clone(&self) -> (copy: Self)
        ensures
            self.same_as(&copy),
    {
        let mut values: Vec<ResolutionValue> = Vec::new();
        let mut i: usize = 0;
        while i < self.values.len()
            invariant
                i <= self.values.len(),
                values@ == self.values@.subrange(0, i as int),
            decreases self.values.len() - i,
        {
            values.push(self.values[i].clone());
            assert(values@ =~= self.values@.subrange(0, i + 1));
            i += 1;
        }
        assert(self.values@.subrange(0, self.values@.len() as int) =~= self.values@);
        ResolutionsPerAuthority {
            authority: self.authority.clone(),
            status: self.status.clone(),
            values,
        }
    }
}

/// One candidate.
#[derive(Debug)]
pub struct ResolutionValue {
    pub value: ValueProperties,
}

impl Clone for ResolutionValue {
    fn clone(&self) -> (copy: Self)
        ensures
            copy == *self,
    {
        ResolutionValue { value: self.value.clone() }
    }
}

/// The canonical name and identifier of a candidate.
#[derive(Debug)]
pub struct ValueProperties {
    pub name: String,
    pub id: String,
}

impl Clone for ValueProperties {
    fn clone(&self) -> (copy: Self)
        ensures
            copy == *self,
    {
        ValueProperties { name: self.name.clone(), id: self.id.clone() }
    }
}

/// How an authority's lookup ended.
#[derive(Debug)]
pub struct Status {
    pub code: String,
}

impl Clone for Status {
    fn clone(&self) -> (copy: Self)
        ensures
            copy == *self,
    {
        Status { code: self.code.clone() }
    }
}

} // verus!
