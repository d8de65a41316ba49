use voice_skill::request::context::{
    Experience, Viewport, ViewportConfiguration, ViewportSize, ViewportVideo, VisibleComponent,
    VisibleComponentTags,
};
use voice_skill::string_map::StringMap;

fn bare_viewport() -> Viewport {
    Viewport {
        presentation_type: None,
        viewport_type: None,
        experiences: None,
        mode: None,
        shape: None,
        can_rotate: None,
        can_resize: None,
        arc_minute_width: None,
        arc_minute_height: None,
        pixel_width: None,
        pixel_height: None,
        dpi: None,
        current_pixel_width: None,
        current_pixel_height: None,
        keyboard: None,
        touch: None,
        video: None,
        size: None,
        configuration: None,
    }
}

fn full_viewport(inner: Option<Viewport>) -> Viewport {
    Viewport {
        presentation_type: Some("STANDARD".to_string()),
        viewport_type: Some("APL".to_string()),
        experiences: Some(vec![
            Experience {
                can_rotate: Some(false),
                can_resize: Some(true),
                arc_minute_width: Some(246),
                arc_minute_height: Some(144),
            },
            Experience {
                can_rotate: None,
                can_resize: None,
                arc_minute_width: Some(1),
                arc_minute_height: None,
            },
        ]),
        mode: Some("HUB".to_string()),
        shape: Some("RECTANGLE".to_string()),
        can_rotate: Some(true),
        can_resize: Some(false),
        arc_minute_width: Some(10),
        arc_minute_height: Some(20),
        pixel_width: Some(1024),
        pixel_height: Some(600),
        dpi: Some(160),
        current_pixel_width: Some(1000),
        current_pixel_height: Some(500),
        keyboard: Some("DIRECTION".to_string()),
        touch: Some(vec!["SINGLE".to_string(), "MULTI".to_string()]),
        video: Some(ViewportVideo { codecs: Some(vec!["H_264_42".to_string(), "H_264_41".to_string()]) }),
        size: Some(ViewportSize {
            size_type: Some("DISCRETE".to_string()),
            pixel_width: Some(1024),
            pixel_height: Some(600),
        }),
        configuration: Some(ViewportConfiguration { current: inner.map(Box::new) }),
    }
}

fn check_full(copy: &Viewport) {
    assert_eq!(copy.presentation_type, Some("STANDARD".to_string()));
    assert_eq!(copy.viewport_type, Some("APL".to_string()));
    let experiences = copy.experiences.as_ref().unwrap();
    assert_eq!(experiences.len(), 2);
    assert_eq!(experiences[0].can_rotate, Some(false));
    assert_eq!(experiences[0].can_resize, Some(true));
    assert_eq!(experiences[0].arc_minute_width, Some(246));
    assert_eq!(experiences[0].arc_minute_height, Some(144));
    assert_eq!(experiences[1].can_rotate, None);
    assert_eq!(experiences[1].can_resize, None);
    assert_eq!(experiences[1].arc_minute_width, Some(1));
    assert_eq!(experiences[1].arc_minute_height, None);
    assert_eq!(copy.mode, Some("HUB".to_string()));
    assert_eq!(copy.shape, Some("RECTANGLE".to_string()));
    assert_eq!(copy.can_rotate, Some(true));
    assert_eq!(copy.can_resize, Some(false));
    assert_eq!(copy.arc_minute_width, Some(10));
    assert_eq!(copy.arc_minute_height, Some(20));
    assert_eq!(copy.pixel_width, Some(1024));
    assert_eq!(copy.pixel_height, Some(600));
    assert_eq!(copy.dpi, Some(160));
    assert_eq!(copy.current_pixel_width, Some(1000));
    assert_eq!(copy.current_pixel_height, Some(500));
    assert_eq!(copy.keyboard, Some("DIRECTION".to_string()));
    assert_eq!(copy.touch, Some(vec!["SINGLE".to_string(), "MULTI".to_string()]));
    assert_eq!(
        copy.video.as_ref().unwrap().codecs,
        Some(vec!["H_264_42".to_string(), "H_264_41".to_string()])
    );
    let size = copy.size.as_ref().unwrap();
    assert_eq!(size.size_type, Some("DISCRETE".to_string()));
    assert_eq!(size.pixel_width, Some(1024));
    assert_eq!(size.pixel_height, Some(600));
}

#[test]
fn clone_of_a_nested_viewport_keeps_every_level() {
    let mut innermost = bare_viewport();
    innermost.mode = Some("TV".to_string());
    innermost.dpi = Some(320);
    let viewport = full_viewport(Some(full_viewport(Some(innermost))));
    let copy = viewport.clone();

    check_full(&copy);
    let second = copy.configuration.as_ref().unwrap().current.as_ref().unwrap();
    check_full(second);
    let third = second.configuration.as_ref().unwrap().current.as_ref().unwrap();
    assert_eq!(third.mode, Some("TV".to_string()));
    assert_eq!(third.dpi, Some(320));
    assert!(third.presentation_type.is_none());
    assert!(third.experiences.is_none());
    assert!(third.touch.is_none());
    assert!(third.video.is_none());
    assert!(third.size.is_none());
    assert!(third.configuration.is_none());
}

#[test]
fn clone_of_a_viewport_keeps_an_empty_configuration_apart_from_none() {
    let with_empty = full_viewport(None);
    let copy = with_empty.clone();
    assert!(copy.configuration.as_ref().unwrap().current.is_none());
    let without = bare_viewport();
    assert!(without.clone().configuration.is_none());
}

#[test]
fn clone_of_a_viewport_configuration_keeps_its_viewport() {
    let configuration = ViewportConfiguration { current: Some(Box::new(full_viewport(None))) };
    let copy = configuration.clone();
    check_full(copy.current.as_ref().unwrap());
    let empty = ViewportConfiguration { current: None };
    assert!(empty.clone().current.is_none());
}

fn component(uid: &str, children: Option<Vec<VisibleComponent>>) -> VisibleComponent {
    let mut viewport: StringMap<String> = StringMap::new();
    viewport.insert("owner".to_string(), uid.to_string());
    viewport.insert("kind".to_string(), "frame".to_string());
    VisibleComponent {
        uid: uid.to_string(),
        position: "10x20+0+0:0".to_string(),
        visible_component_type: "text".to_string(),
        tags: Some(VisibleComponentTags {
            viewport: Some(viewport),
            clickable: Some(true),
            focused: None,
        }),
        children,
        entities: vec!["first".to_string(), "second".to_string()],
    }
}

fn check_component(copy: &VisibleComponent, uid: &str) {
    assert_eq!(copy.uid, uid);
    assert_eq!(copy.position, "10x20+0+0:0");
    assert_eq!(copy.visible_component_type, "text");
    assert_eq!(copy.entities, vec!["first".to_string(), "second".to_string()]);
    let tags = copy.tags.as_ref().unwrap();
    assert_eq!(tags.clickable, Some(true));
    assert_eq!(tags.focused, None);
    let viewport = tags.viewport.as_ref().unwrap();
    assert_eq!(viewport.len(), 2);
    assert_eq!(viewport.key_at(0), "owner");
    assert_eq!(viewport.value_at(0), uid);
    assert_eq!(viewport.key_at(1), "kind");
    assert_eq!(viewport.value_at(1), "frame");
}

#[test]
fn clone_of_a_component_keeps_the_components_inside_it() {
    let leaf_a = component("leaf-a", None);
    let leaf_b = component("leaf-b", Some(vec![]));
    let middle = component("middle", Some(vec![leaf_a, leaf_b]));
    let mut plain = component("plain", None);
    plain.tags = None;
    let root = component("root", Some(vec![middle, plain]));
    let copy = root.clone();

    check_component(&copy, "root");
    let children = copy.children.as_ref().unwrap();
    assert_eq!(children.len(), 2);
    check_component(&children[0], "middle");
    assert_eq!(children[1].uid, "plain");
    assert!(children[1].tags.is_none());
    assert!(children[1].children.is_none());
    let leaves = children[0].children.as_ref().unwrap();
    assert_eq!(leaves.len(), 2);
    check_component(&leaves[0], "leaf-a");
    assert!(leaves[0].children.is_none());
    check_component(&leaves[1], "leaf-b");
    assert_eq!(leaves[1].children.as_ref().unwrap().len(), 0);
}
