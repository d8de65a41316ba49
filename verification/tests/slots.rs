use voice_skill::request::request_body::{
    Intent, Resolutions, ResolutionsPerAuthority, ResolutionValue, SlotName, Status,
    ValueProperties,
};
use voice_skill::request::slots::{
    describe_slot, extract_slots, find_first_candidate, SlotDescriptor, NESTED_SLOT_TOKEN,
};
use voice_skill::request::Request;
use voice_skill::string_map::StringMap;

fn flat(name: &str, value: Option<&str>) -> SlotName {
    SlotName {
        name: name.to_string(),
        value: value.map(|v| v.to_string()),
        confirmation_status: None,
        slot_value: None,
        resolutions: None,
    }
}

fn candidate(id: &str, name: &str) -> ResolutionValue {
    ResolutionValue { value: ValueProperties { name: name.to_string(), id: id.to_string() } }
}

fn authority(name: &str, values: Vec<ResolutionValue>) -> ResolutionsPerAuthority {
    ResolutionsPerAuthority {
        authority: name.to_string(),
        status: Status { code: "ER_SUCCESS_MATCH".to_string() },
        values,
    }
}

fn wrapper(name: &str, value: Option<&str>, inner: Option<SlotName>) -> SlotName {
    SlotName {
        name: name.to_string(),
        value: value.map(|v| v.to_string()),
        confirmation_status: None,
        slot_value: inner.map(Box::new),
        resolutions: None,
    }
}

fn resolved(value: Option<&str>, authorities: Vec<ResolutionsPerAuthority>) -> SlotName {
    SlotName {
        name: "inner".to_string(),
        value: value.map(|v| v.to_string()),
        confirmation_status: None,
        slot_value: None,
        resolutions: Some(Resolutions { resolutions_per_authority: authorities }),
    }
}

fn request_with(slots: Vec<(&str, SlotName)>) -> Request {
    let mut map: StringMap<SlotName> = StringMap::new();
    for (key, slot) in slots {
        map.insert(key.to_string(), slot);
    }
    let mut request = Request::new();
    request.request_body.req_type = "IntentRequest".to_string();
    request.request_body.intent =
        Some(Intent { name: "TravelIntent".to_string(), confirmation_status: None, slots: Some(map) });
    request
}

fn descriptor(token: Option<&str>, id: &str, name: &str, value: &str, kind: &str) -> SlotDescriptor {
    SlotDescriptor {
        id_token: token.map(|t| t.to_string()),
        id: id.to_string(),
        name: name.to_string(),
        value: value.to_string(),
        slot_type: kind.to_string(),
    }
}

#[test]
fn flat_slot_is_described_by_its_own_fields() {
    let request = request_with(vec![("city", flat("City", Some("Seattle")))]);
    assert_eq!(
        request.get_slot_values(),
        vec![descriptor(None, "city", "City", "Seattle", "City")]
    );
}

#[test]
fn flat_slot_without_value_has_an_empty_value() {
    let request = request_with(vec![("city", flat("City", None))]);
    assert_eq!(request.get_slot_values(), vec![descriptor(None, "city", "City", "", "City")]);
}

#[test]
fn nested_slot_without_second_wrapper_is_skipped() {
    let slot = wrapper("City", None, Some(flat("City", Some("Seattle"))));
    let request = request_with(vec![("city", slot)]);
    assert_eq!(request.get_slot_values(), Vec::<SlotDescriptor>::new());
}

#[test]
fn nested_slot_without_resolutions_is_skipped() {
    let second = flat("inner", Some("Seattle, WA"));
    let first = wrapper("City", None, Some(second));
    let slot = wrapper("city_slot", None, Some(first));
    let request = request_with(vec![("city", slot)]);
    assert_eq!(request.get_slot_values(), Vec::<SlotDescriptor>::new());
}

#[test]
fn nested_slot_uses_first_candidate_of_first_authority() {
    let second = resolved(
        Some("Seattle, WA"),
        vec![
            authority("first", vec![candidate("CITY_1", "Seattle")]),
            authority("second", vec![candidate("CITY_9", "Portland")]),
        ],
    );
    let first = wrapper("City", Some("outer value"), Some(second));
    let slot = wrapper("city_slot", Some("flat value"), Some(first));
    let request = request_with(vec![("city", slot)]);
    assert_eq!(
        request.get_slot_values(),
        vec![descriptor(Some("SLOT_VALUE"), "CITY_1", "Seattle", "Seattle, WA", "City")]
    );
}

#[test]
fn nested_slot_ignores_later_candidates() {
    let second = resolved(
        None,
        vec![authority(
            "first",
            vec![candidate("A", "Alpha"), candidate("B", "Beta"), candidate("C", "Gamma")],
        )],
    );
    let slot = wrapper("slot", None, Some(wrapper("Letter", None, Some(second))));
    let request = request_with(vec![("letter", slot)]);
    assert_eq!(
        request.get_slot_values(),
        vec![descriptor(Some(NESTED_SLOT_TOKEN), "A", "Alpha", "", "Letter")]
    );
}

#[test]
fn nested_slot_with_no_authority_is_skipped() {
    let second = resolved(Some("x"), vec![]);
    let slot = wrapper("slot", None, Some(wrapper("City", None, Some(second))));
    let request = request_with(vec![("city", slot)]);
    assert_eq!(request.get_slot_values(), Vec::<SlotDescriptor>::new());
}

#[test]
fn nested_slot_whose_first_authority_is_empty_is_skipped() {
    let second = resolved(
        Some("x"),
        vec![authority("first", vec![]), authority("second", vec![candidate("CITY_9", "Portland")])],
    );
    let slot = wrapper("slot", None, Some(wrapper("City", None, Some(second))));
    let request = request_with(vec![("city", slot)]);
    assert_eq!(request.get_slot_values(), Vec::<SlotDescriptor>::new());
}

#[test]
fn descriptors_follow_the_order_of_the_slots() {
    let second = resolved(Some("Seattle, WA"), vec![authority("a", vec![candidate("CITY_1", "Seattle")])]);
    let nested = wrapper("slot", None, Some(wrapper("City", None, Some(second))));
    let skipped = wrapper("slot", None, Some(flat("Date", Some("today"))));
    let request = request_with(vec![
        ("when", flat("Date", Some("tomorrow"))),
        ("skipped", skipped),
        ("where", nested),
        ("who", flat("Person", None)),
    ]);
    assert_eq!(
        request.get_slot_values(),
        vec![
            descriptor(None, "when", "Date", "tomorrow", "Date"),
            descriptor(Some("SLOT_VALUE"), "CITY_1", "Seattle", "Seattle, WA", "City"),
            descriptor(None, "who", "Person", "", "Person"),
        ]
    );
}

#[test]
fn request_without_intent_has_no_descriptors() {
    let request = Request::new();
    assert_eq!(request.get_slot_values(), Vec::<SlotDescriptor>::new());
}

#[test]
fn intent_without_slots_has_no_descriptors() {
    let mut request = Request::new();
    request.request_body.intent =
        Some(Intent { name: "Plain".to_string(), confirmation_status: None, slots: None });
    assert_eq!(request.get_slot_values(), Vec::<SlotDescriptor>::new());
    let request = request_with(vec![]);
    assert_eq!(request.get_slot_values(), Vec::<SlotDescriptor>::new());
}

#[test]
fn slots_are_extracted_whatever_the_request_type() {
    let mut request = request_with(vec![("city", flat("City", Some("Seattle")))]);
    request.request_body.req_type = "LaunchRequest".to_string();
    assert_eq!(
        request.get_slot_values(),
        vec![descriptor(None, "city", "City", "Seattle", "City")]
    );
}

#[test]
fn describe_slot_agrees_with_the_extractor() {
    let slot = flat("City", Some("Seattle"));
    assert_eq!(
        describe_slot("city", &slot),
        Some(descriptor(None, "city", "City", "Seattle", "City"))
    );
    let unresolved = wrapper("City", None, Some(flat("City", None)));
    assert_eq!(describe_slot("city", &unresolved), None);
    let mut map: StringMap<SlotName> = StringMap::new();
    map.insert("city".to_string(), slot);
    map.insert("other".to_string(), unresolved);
    assert_eq!(extract_slots(&map), vec![descriptor(None, "city", "City", "Seattle", "City")]);
}

#[test]
fn first_candidate_is_found_only_on_the_first_authority() {
    assert!(find_first_candidate(&None).is_none());
    let empty = Some(Resolutions { resolutions_per_authority: vec![] });
    assert!(find_first_candidate(&empty).is_none());
    let held = Some(Resolutions {
        resolutions_per_authority: vec![
            authority("first", vec![candidate("ID_1", "One"), candidate("ID_2", "Two")]),
            authority("second", vec![candidate("ID_3", "Three")]),
        ],
    });
    let found = find_first_candidate(&held).unwrap();
    assert_eq!(found.id, "ID_1");
    assert_eq!(found.name, "One");
}

#[test]
fn clone_of_a_two_level_slot_keeps_every_level() {
    let second = resolved(
        Some("Seattle, WA"),
        vec![
            authority("first", vec![candidate("CITY_1", "Seattle"), candidate("CITY_2", "Tacoma")]),
            authority("second", vec![candidate("CITY_9", "Portland")]),
        ],
    );
    let first = wrapper("City", Some("outer value"), Some(second));
    let mut slot = wrapper("city_slot", Some("flat value"), Some(first));
    slot.confirmation_status = Some("CONFIRMED".to_string());
    let copy = slot.clone();

    assert_eq!(copy.name, "city_slot");
    assert_eq!(copy.value, Some("flat value".to_string()));
    assert_eq!(copy.confirmation_status, Some("CONFIRMED".to_string()));
    assert!(copy.resolutions.is_none());
    let outer = copy.slot_value.as_ref().unwrap();
    assert_eq!(outer.name, "City");
    assert_eq!(outer.value, Some("outer value".to_string()));
    assert!(outer.resolutions.is_none());
    let inner = outer.slot_value.as_ref().unwrap();
    assert_eq!(inner.name, "inner");
    assert_eq!(inner.value, Some("Seattle, WA".to_string()));
    assert!(inner.slot_value.is_none());
    let held = inner.resolutions.as_ref().unwrap();
    assert_eq!(held.resolutions_per_authority.len(), 2);
    let one = &held.resolutions_per_authority[0];
    assert_eq!(one.authority, "first");
    assert_eq!(one.status.code, "ER_SUCCESS_MATCH");
    assert_eq!(one.values.len(), 2);
    assert_eq!(one.values[0].value.id, "CITY_1");
    assert_eq!(one.values[0].value.name, "Seattle");
    assert_eq!(one.values[1].value.id, "CITY_2");
    assert_eq!(one.values[1].value.name, "Tacoma");
    let two = &held.resolutions_per_authority[1];
    assert_eq!(two.authority, "second");
    assert_eq!(two.values.len(), 1);
    assert_eq!(two.values[0].value.id, "CITY_9");
    assert_eq!(two.values[0].value.name, "Portland");

    assert_eq!(describe_slot("city", &copy), describe_slot("city", &slot));
    assert_eq!(
        describe_slot("city", &copy),
        Some(descriptor(Some("SLOT_VALUE"), "CITY_1", "Seattle", "Seattle, WA", "City"))
    );
}

#[test]
fn clone_of_a_slot_is_independent_of_the_slot() {
    let mut slot = flat("City", Some("Seattle"));
    let copy = slot.clone();
    slot.value = Some("Tacoma".to_string());
    assert_eq!(copy.value, Some("Seattle".to_string()));
    assert_eq!(copy.name, "City");
    assert!(copy.slot_value.is_none());
    assert!(copy.resolutions.is_none());
}
