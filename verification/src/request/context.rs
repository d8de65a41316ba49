//! The snapshot of the device and its environment taken at request time.
use super::properties::{Application, Person, Unit, User};
use crate::string_map::StringMap;
use vstd::prelude::*;

verus! {

/// The environment of a request.
#[derive(Debug, Clone)]
pub struct Context {
    pub audio_player_details: Option<StringMap<String>>,
    pub apl_context: Option<AplContext>,
    pub system: Option<System>,
    pub viewport: Option<Viewport>,
    pub viewports: Option<Vec<Viewport>>,
    pub extensions: Option<Extensions>,
}

/// Extensions that the device offers, each with its optional settings.
#[derive(Debug, Clone)]
pub struct Extensions {
    pub available: Option<StringMap<Option<StringMap<String>>>>,
}

/// The service endpoint and the identities known when the request was made.
#[derive(Debug, Clone)]
pub struct System {
    pub api_access_token: String,
    pub api_endpoint: String,
    pub application: Option<Application>,
    pub device: Option<Device>,
    pub unit: Option<Unit>,
    pub person: Option<Person>,
    pub user: Option<User>,
}

/// The device that sent the request.
#[derive(Debug, Clone)]
pub struct Device {
    pub device_id: String,
    pub supported_interfaces: SupportedInterfaces,
    pub persistent_endpoint_id: Option<String>,
}

/// The optional interfaces of a device. An interface is supported when its
/// block is present, whatever the block holds.
#[derive(Debug, Clone)]
pub struct SupportedInterfaces {
    pub audio_player_support: Option<StringMap<String>>,
    pub apl_support: Option<AplSupport>,
}

/// One way in which a viewport can be experienced.
#[derive(Debug, Clone, Copy)]
pub struct Experience {
    pub can_rotate: Option<bool>,
    pub can_resize: Option<bool>,
    pub arc_minute_width: Option<i32>,
    pub arc_minute_height: Option<i32>,
}

/// Whether two optional lists hold the same items in the same order.
pub open spec fn same_list<T>(a: Option<Vec<T>>, b: Option<Vec<T>>) -> bool {
    match (a, b) {
        (Some(mine), Some(theirs)) => mine@ == theirs@,
        (None, None) => true,
        _ => false,
    }
}

/// A copy of an optional list of texts.
fn clone_texts(list: &Option<Vec<String>>) -> (copy: Option<Vec<String>>)
    ensures
        same_list(*list, copy),
{
    match list {
        Some(held) => Some(clone_list(held)),
        None => None,
    }
}

/// A copy of an optional list of experiences.
fn clone_experiences(list: &Option<Vec<Experience>>) -> (copy: Option<Vec<Experience>>)
    ensures
        same_list(*list, copy),
{
    match list {
        Some(held) => {
            let mut experiences: Vec<Experience> = Vec::new();
            let mut i: usize = 0;
            while i < held.len()
                invariant
                    i <= held.len(),
                    experiences@ == held@.subrange(0, i as int),
                decreases held.len() - i,
            {
                experiences.push(held[i]);
                assert(experiences@ =~= held@.subrange(0, i + 1));
                i += 1;
            }
            assert(held@.subrange(0, held@.len() as int) =~= held@);
            Some(experiences)
        },
        None => None,
    }
}

/// A display surface of the device.
#[derive(Debug)]
pub struct Viewport {
    pub presentation_type: Option<String>,
    pub viewport_type: Option<String>,
    pub experiences: Option<Vec<Experience>>,
    pub mode: Option<String>,
    pub shape: Option<String>,
    pub can_rotate: Option<bool>,
    pub can_resize: Option<bool>,
    pub arc_minute_width: Option<i32>,
    pub arc_minute_height: Option<i32>,
    pub pixel_width: Option<i32>,
    pub pixel_height: Option<i32>,
    pub dpi: Option<i32>,
    pub current_pixel_width: Option<i32>,
    pub current_pixel_height: Option<i32>,
    pub keyboard: Option<String>,
    pub touch: Option<Vec<String>>,
    pub video: Option<ViewportVideo>,
    pub size: Option<ViewportSize>,
    pub configuration: Option<ViewportConfiguration>,
}

impl Viewport {
    /// Whether `other` holds what this viewport holds: the same values, the
    /// same lists in the same order, and a current configuration that holds
    /// what this one's holds.
    pub open spec fn same_as(&self, other: &Viewport) -> bool
        decreases self,
    {
        &&& self.presentation_type == other.presentation_type
        &&& self.viewport_type == other.viewport_type
        &&& same_list(self.experiences, other.experiences)
        &&& self.mode == other.mode
        &&& self.shape == other.shape
        &&& self.can_rotate == other.can_rotate
        &&& self.can_resize == other.can_resize
        &&& self.arc_minute_width == other.arc_minute_width
        &&& self.arc_minute_height == other.arc_minute_height
        &&& self.pixel_width == other.pixel_width
        &&& self.pixel_height == other.pixel_height
        &&& self.dpi == other.dpi
        &&& self.current_pixel_width == other.current_pixel_width
        &&& self.current_pixel_height == other.current_pixel_height
        &&& self.keyboard == other.keyboard
        &&& same_list(self.touch, other.touch)
        &&& match (self.video, other.video) {
            (Some(mine), Some(theirs)) => mine.same_as(&theirs),
            (None, None) => true,
            _ => false,
        }
        &&& self.size == other.size
        &&& match (self.configuration, other.configuration) {
            (Some(mine), Some(theirs)) => match (mine.current, theirs.current) {
                (Some(inner), Some(other_inner)) => (*inner).same_as(&*other_inner),
                (None, None) => true,
                _ => false,
            },
            (None, None) => true,
            _ => false,
        }
    }
}

impl Clone for Viewport {
    /// A copy that holds what this viewport holds.
    fn clone(&self) -> (copy: Self)
        ensures
            self.same_as(&copy),
        decreases self,
    {
        let configuration = match &self.configuration {
            Some(held) => match &held.current {
                Some(inner) => Some(
                    ViewportConfiguration { current: Some(Box::new((**inner).clone())) },
                ),
                None => Some(ViewportConfiguration { current: None }),
            },
            None => None,
        };
        let video = match &self.video {
            Some(held) => Some(held.clone()),
            None => None,
        };
        let size = match &self.size {
            Some(held) => Some(held.clone()),
            None => None,
        };
        Viewport {
            presentation_type: self.presentation_type.clone(),
            viewport_type: self.viewport_type.clone(),
            experiences: clone_experiences(&self.experiences),
            mode: self.mode.clone(),
            shape: self.shape.clone(),
            can_rotate: self.can_rotate,
            can_resize: self.can_resize,
            arc_minute_width: self.arc_minute_width,
            arc_minute_height: self.arc_minute_height,
            pixel_width: self.pixel_width,
            pixel_height: self.pixel_height,
            dpi: self.dpi,
            current_pixel_width: self.current_pixel_width,
            current_pixel_height: self.current_pixel_height,
            keyboard: self.keyboard.clone(),
            touch: clone_texts(&self.touch),
            video,
            size,
            configuration,
        }
    }
}

/// The configuration that a viewport currently runs in.
#[derive(Debug)]
pub struct ViewportConfiguration {
    pub current: Option<Box<Viewport>>,
}

impl ViewportConfiguration {
    /// Whether `other` has a current viewport exactly when this
    /// configuration has one, and that viewport holds what this one's holds.
    pub open spec fn same_as(&self, other: &ViewportConfiguration) -> bool {
        match (self.current, other.current) {
            (Some(mine), Some(theirs)) => (*mine).same_as(&*theirs),
            (None, None) => true,
            _ => false,
        }
    }
}

impl Clone for ViewportConfiguration {
    /// A copy whose current viewport holds what this one's holds.
    fn clone(&self) -> (copy: Self)
        ensures
            self.same_as(&copy),
    {
        match &self.current {
            Some(inner) => ViewportConfiguration { current: Some(Box::new((**inner).clone())) },
            None => ViewportConfiguration { current: None },
        }
    }
}

/// The video capabilities of a viewport.
#[derive(Debug)]
pub struct ViewportVideo {
    pub codecs: Option<Vec<String>>,
}

impl ViewportVideo {
    /// Whether `other` names the same codecs in the same order.
    pub open spec fn same_as(&self, other: &ViewportVideo) -> bool {
        same_list(self.codecs, other.codecs)
    }
}

impl Clone for ViewportVideo {
    /// A copy that names the same codecs in the same order.
    fn clone(&self) -> (copy: Self)
        ensures
            self.same_as(&copy),
    {
        ViewportVideo { codecs: clone_texts(&self.codecs) }
    }
}

/// The size of a viewport.
#[derive(Debug)]
pub struct ViewportSize {
    pub size_type: Option<String>,
    pub pixel_width: Option<i32>,
    pub pixel_height: Option<i32>,
}

impl Clone for ViewportSize {
    fn clone(&self) -> (copy: Self)
        ensures
            copy == *self,
    {
        ViewportSize {
            size_type: self.size_type.clone(),
            pixel_width: self.pixel_width,
            pixel_height: self.pixel_height,
        }
    }
}

/// The visual interface block of a device.
#[derive(Debug, Clone)]
pub struct AplSupport {
    pub runtime: StringMap<String>,
}

/// What the visual interface currently shows.
#[derive(Debug, Clone)]
pub struct AplContext {
    pub token: String,
    pub version: String,
    pub components_visible_on_screen: Option<Vec<VisibleComponent>>,
}

/// A component on screen, with the components inside it.
#[derive(Debug)]
pub struct VisibleComponent {
    pub uid: String,
    pub position: String,
    pub visible_component_type: String,
    pub tags: Option<VisibleComponentTags>,
    pub children: Option<Vec<VisibleComponent>>,
    pub entities: Vec<String>,
}

impl VisibleComponent {
    /// Whether `other` holds what this component holds: the same texts and
    /// tags, the same entities in the same order, and as many components
    /// inside it, each holding what this one's holds.
    pub open spec fn same_as(&self, other: &VisibleComponent) -> bool
        decreases self,
    {
        &&& self.uid == other.uid
        &&& self.position == other.position
        &&& self.visible_component_type == other.visible_component_type
        &&& match (self.tags, other.tags) {
            (Some(mine), Some(theirs)) => mine.same_as(&theirs),
            (None, None) => true,
            _ => false,
        }
        &&& match (self.children, other.children) {
            (Some(mine), Some(theirs)) => {
                &&& mine@.len() == theirs@.len()
                &&& forall|i: int|
                    0 <= i < mine@.len() ==> (#[trigger] mine@[i]).same_as(&theirs@[i])
            },
            (None, None) => true,
            _ => false,
        }
        &&& self.entities@ == other.entities@
    }
}

impl Clone for VisibleComponent {
    /// A copy that holds what this component holds.
    fn clone(&self) -> (copy: Self)
        ensures
            self.same_as(&copy),
        decreases self,
    {
        let children = match &self.children {
            Some(list) => {
                let mut copies: Vec<VisibleComponent> = Vec::new();
                let mut i: usize = 0;
                while i < list.len()
                    invariant
                        i <= list.len(),
                        decreases_to!(self => *list),
                        copies@.len() == i,
                        forall|j: int| 0 <= j < i ==> (#[trigger] list@[j]).same_as(&copies@[j]),
                    decreases list.len() - i,
                {
                    proof {
                        assert(decreases_to!(*list => list[i as int]));
                    }
                    copies.push(list[i].clone());
                    i += 1;
                }
                Some(copies)
            },
            None => None,
        };
        let tags = match &self.tags {
            Some(held) => Some(held.clone()),
            None => None,
        };
        VisibleComponent {
            uid: self.uid.clone(),
            position: self.position.clone(),
            visible_component_type: self.visible_component_type.clone(),
            tags,
            children,
            entities: clone_list(&self.entities),
        }
    }
}

/// A copy of a list of texts.
fn clone_list(list: &Vec<String>) -> (copy: Vec<String>)
    ensures
        copy@ == list@,
{
    let mut texts: Vec<String> = Vec::new();
    let mut i: usize = 0;
    while i < list.len()
        invariant
            i <= list.len(),
            texts@ == list@.subrange(0, i as int),
        decreases list.len() - i,
    {
        texts.push(list[i].clone());
        assert(texts@ =~= list@.subrange(0, i + 1));
        i += 1;
    }
    assert(list@.subrange(0, list@.len() as int) =~= list@);
    texts
}

/// Tags attached to a visible component.
#[derive(Debug)]
pub struct VisibleComponentTags {
    pub viewport: Option<StringMap<String>>,
    pub clickable: Option<bool>,
    pub focused: Option<bool>,
}

impl VisibleComponentTags {
    /// Whether `other` holds the same flags and the same viewport entries in
    /// the same order.
    pub open spec fn same_as(&self, other: &VisibleComponentTags) -> bool {
        &&& self.clickable == other.clickable
        &&& self.focused == other.focused
        &&& match (self.viewport, other.viewport) {
            (Some(mine), Some(theirs)) => mine.pairs() == theirs.pairs(),
            (None, None) => true,
            _ => false,
        }
    }
}

impl Clone for VisibleComponentTags {
    /// A copy with the same flags and viewport entries.
    fn clone(&self) -> (copy: Self)
        ensures
            self.same_as(&copy),
    {
        let viewport = match &self.viewport {
            Some(held) => {
                let copy = held.clone();
                assert(copy.pairs() =~= held.pairs());
                Some(copy)
            },
            None => None,
        };
        VisibleComponentTags { viewport, clickable: self.clickable, focused: self.focused }
    }
}

} // verus!
