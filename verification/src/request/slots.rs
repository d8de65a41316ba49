//! The slot resolution extractor: from the slots of an intent to a flat list
//! of descriptors.
//!
//! A slot without a nested wrapper is described by its own fields. A slot
//! with a nested wrapper is described by the first candidate of the first
//! authority found on the wrapper's own nested wrapper, and is passed over
//! when there is no such candidate. Wrappers below the second are not read.
use super::request_body::{Resolutions, SlotName, ValueProperties};
use crate::string_map::StringMap;
use vstd::prelude::*;
use vstd::string::*;

verus! {

/// The token that marks a descriptor made from a nested wrapper.
pub const NESTED_SLOT_TOKEN: &'static str = "SLOT_VALUE";

/// What the extractor says of one slot.
///
/// `id_token` holds `NESTED_SLOT_TOKEN` where the descriptor was made from a
/// nested wrapper, and nothing where it was made from the slot's own fields.
#[derive(Debug, Clone, PartialEq, Eq)]
pub struct SlotDescriptor {
    pub id_token: Option<String>,
    pub id: String,
    pub name: String,
    pub value: String,
    pub slot_type: String,
}

/// A descriptor, each field taken by its characters.
pub struct SlotDescriptorView {
    pub id_token: Option<Seq<char>>,
    pub id: Seq<char>,
    pub name: Seq<char>,
    pub value: Seq<char>,
    pub slot_type: Seq<char>,
}

impl View for SlotDescriptor {
    type V = SlotDescriptorView;

    open spec fn view(&self) -> SlotDescriptorView {
        SlotDescriptorView {
            id_token: match self.id_token {
                Some(token) => Some(token@),
                None => None,
            },
            id: self.id@,
            name: self.name@,
            value: self.value@,
            slot_type: self.slot_type@,
        }
    }
}

/// The characters of an optional text, none for a missing one.
pub open spec fn text_or_empty(text: Option<String>) -> Seq<char> {
    match text {
        Some(text) => text@,
        None => Seq::empty(),
    }
}

/// The first candidate of the first authority, if the first authority
/// exists and offers a candidate. No other authority or candidate counts.
pub open spec fn first_candidate(resolutions: Option<Resolutions>) -> Option<ValueProperties> {
    match resolutions {
        Some(found) => if found.resolutions_per_authority@.len() > 0
            && found.resolutions_per_authority@[0].values@.len() > 0 {
            Some(found.resolutions_per_authority@[0].values@[0].value)
        } else {
            None
        },
        None => None,
    }
}

/// The descriptor of the slot stored under `key`, if the slot gets one.
pub open spec fn describe(key: Seq<char>, slot: SlotName) -> Option<SlotDescriptorView> {
    match slot.slot_value {
        None => Some(
            SlotDescriptorView {
                id_token: None,
                id: key,
                name: slot.name@,
                value: text_or_empty(slot.value),
                slot_type: slot.name@,
            },
        ),
        Some(outer) => match outer.slot_value {
            None => None,
            Some(inner) => match first_candidate(inner.resolutions) {
                None => None,
                Some(candidate) => Some(
                    SlotDescriptorView {
                        id_token: Some(NESTED_SLOT_TOKEN@),
                        id: candidate.id@,
                        name: candidate.name@,
                        value: text_or_empty(inner.value),
                        slot_type: outer.name@,
                    },
                ),
            },
        },
    }
}

/// The descriptors of a list of slots: those that `describe` gives, in the
/// order of the slots.
pub open spec fn describe_all(slots: Seq<(Seq<char>, SlotName)>) -> Seq<SlotDescriptorView>
    decreases slots.len(),
{
    if slots.len() == 0 {
        Seq::empty()
    } else {
        let before = describe_all(slots.drop_last());
        match describe(slots.last().0, slots.last().1) {
            Some(descriptor) => before.push(descriptor),
            None => before,
        }
    }
}

/// The views of a list of descriptors.
pub open spec fn views(descriptors: Seq<SlotDescriptor>) -> Seq<SlotDescriptorView> {
    descriptors.map_values(|d: SlotDescriptor| d@)
}

/// An owned copy of an optional text, empty for a missing one.
fn owned_or_empty(text: &Option<String>) -> (copy: String)
    ensures
        copy@ == text_or_empty(*text),
{
    match text {
        Some(text) => text.clone(),
        None => String::new(),
    }
}

/// The first candidate of the first authority, if there is one.
pub fn find_first_candidate(resolutions: &Option<Resolutions>) -> (found: Option<&ValueProperties>)
    ensures
        found == match first_candidate(*resolutions) {
            Some(candidate) => Some(&candidate),
            None => None,
        },
{
    match resolutions {
        Some(held) => {
            if held.resolutions_per_authority.len() > 0
                && held.resolutions_per_authority[0].values.len() > 0 {
                Some(&held.resolutions_per_authority[0].values[0].value)
            } else {
                None
            }
        },
        None => None,
    }
}

/// Describes the slot stored under `key`.
///
/// A slot without a nested wrapper is described by its own fields. A slot
/// with a nested wrapper is described only if that wrapper has a nested
/// wrapper of its own whose first authority offers a candidate. Otherwise it
/// gets no descriptor at all: the extractor does not fall back on the flat
/// value that such a slot may carry as well.
pub fn describe_slot(key: &str, slot: &SlotName) -> (descriptor: Option<SlotDescriptor>)
    ensures
        match describe(key@, *slot) {
            Some(expected) => descriptor matches Some(made) && made@ == expected,
            None => descriptor is None,
        },
{
    match &slot.slot_value {
        None => Some(
            SlotDescriptor {
                id_token: None,
                id: key.to_owned(),
                name: slot.name.clone(),
                value: owned_or_empty(&slot.value),
                slot_type: slot.name.clone(),
            },
        ),
        Some(outer) => match &outer.slot_value {
            None => None,
            Some(inner) => match find_first_candidate(&inner.resolutions) {
                None => None,
                Some(candidate) => Some(
                    SlotDescriptor {
                        id_token: Some(NESTED_SLOT_TOKEN.to_owned()),
                        id: candidate.id.clone(),
                        name: candidate.name.clone(),
                        value: owned_or_empty(&inner.value),
                        slot_type: outer.name.clone(),
                    },
                ),
            },
        },
    }
}

/// Describes every slot of `slots` that gets a descriptor, in the order of
/// the slots.
pub fn extract_slots(slots: &StringMap<SlotName>) -> (descriptors: Vec<SlotDescriptor>)
    ensures
        views(descriptors@) == describe_all(slots.pairs()),
{
    let mut descriptors: Vec<SlotDescriptor> = Vec::new();
    let n = slots.len();
    let mut i: usize = 0;
    assert(slots.pairs().subrange(0, 0) =~= Seq::empty());
    assert(views(descriptors@) =~= Seq::empty());
    while i < n
        invariant
            i <= n,
            n == slots.pairs().len(),
            views(descriptors@) == describe_all(slots.pairs().subrange(0, i as int)),
        decreases n - i,
    {
        let ghost before = descriptors@;
        let made = describe_slot(slots.key_at(i).as_str(), slots.value_at(i));
        proof {
            let upto = slots.pairs().subrange(0, i + 1);
            assert(upto.drop_last() =~= slots.pairs().subrange(0, i as int));
            assert(upto.last() == slots.pairs()[i as int]);
        }
        match made {
            Some(descriptor) => {
                descriptors.push(descriptor);
                assert(views(descriptors@) =~= views(before).push(descriptor@));
            },
            None => {},
        }
        i += 1;
    }
    assert(slots.pairs().subrange(0, n as int) =~= slots.pairs());
    descriptors
}

/// Only the first candidate of the first authority counts: two sets of
/// resolutions that agree on it give the same candidate, whatever else they
/// hold.
pub proof fn lemma_only_first_candidate_counts(a: Resolutions, b: Resolutions)
    requires
        a.resolutions_per_authority@.len() > 0,
        b.resolutions_per_authority@.len() > 0,
        a.resolutions_per_authority@[0].values@.len() > 0,
        b.resolutions_per_authority@[0].values@.len() > 0,
        a.resolutions_per_authority@[0].values@[0] == b.resolutions_per_authority@[0].values@[0],
    ensures
        first_candidate(Some(a)) == first_candidate(Some(b)),
        first_candidate(Some(a)) == Some(a.resolutions_per_authority@[0].values@[0].value),
{
}

/// A slot with a nested wrapper that has no nested wrapper of its own, or
/// whose nested wrapper offers no first candidate, gets no descriptor.
pub proof fn lemma_unresolved_slot_is_skipped(key: Seq<char>, slot: SlotName)
    requires
        slot.slot_value matches Some(outer) && (outer.slot_value matches Some(inner)
            ==> first_candidate(inner.resolutions) is None),
    ensures
        describe(key, slot) is None,
{
}

/// Adding a slot behind the others adds its descriptor behind theirs, or
/// nothing where it gets none.
pub proof fn lemma_describe_all_push(slots: Seq<(Seq<char>, SlotName)>, key: Seq<char>, slot: SlotName)
    ensures
        describe_all(slots.push((key, slot))) == match describe(key, slot) {
            Some(descriptor) => describe_all(slots).push(descriptor),
            None => describe_all(slots),
        },
{
    let all = slots.push((key, slot));
    assert(all.drop_last() =~= slots);
    assert(all.last() == (key, slot));
}

/// The extractor gives at most one descriptor per slot.
pub proof fn lemma_at_most_one_descriptor_per_slot(slots: Seq<(Seq<char>, SlotName)>)
    ensures
        describe_all(slots).len() <= slots.len(),
    decreases slots.len(),
{
    if slots.len() > 0 {
        lemma_at_most_one_descriptor_per_slot(slots.drop_last());
    }
}

/// A slot that holds what another holds is described as the other is: the
/// extractor cannot tell a copy of a slot from the slot.
pub proof fn lemma_same_slot_same_descriptor(key: Seq<char>, slot: SlotName, other: SlotName)
    requires
        slot.same_as(&other),
    ensures
        describe(key, slot) == describe(key, other),
{
    reveal_with_fuel(SlotName::same_as, 3);
    match (slot.slot_value, other.slot_value) {
        (Some(outer), Some(other_outer)) => {
            match (outer.slot_value, other_outer.slot_value) {
                (Some(inner), Some(other_inner)) => {
                    match (inner.resolutions, other_inner.resolutions) {
                        (Some(held), Some(other_held)) => {
                            if held.resolutions_per_authority@.len() > 0 {
                                assert(held.resolutions_per_authority@[0].same_as(
                                    &other_held.resolutions_per_authority@[0],
                                ));
                            }
                        },
                        _ => {},
                    }
                },
                _ => {},
            }
        },
        _ => {},
    }
}

} // verus!
