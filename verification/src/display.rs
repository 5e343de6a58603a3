//! A model of the scripted display-object properties that carry plain
//! values: the instance name, visibility, the blend mode, and the world
//! bounds used by object-against-object hit testing. Geometry that lives in
//! floating point (position, scale, rotation) stays outside this model.

use vstd::prelude::*;
use vstd::string::{StrSliceExecFns, StringExecFns};

verus! {

/// How a display object is composited over what is beneath it.
#[derive(Clone, Copy, PartialEq, Eq, Structural, Debug)]
pub enum BlendMode {
    Normal,
    Layer,
    Multiply,
    Screen,
    Lighten,
    Darken,
    Difference,
    Add,
    Subtract,
    Invert,
    Alpha,
    Erase,
    Overlay,
    HardLight,
}

/// An axis-aligned bounding box in twips; `valid` is false for an empty box.
#[derive(Clone, Copy, PartialEq, Eq, Structural, Debug)]
pub struct Bounds {
    pub valid: bool,
    pub x_min: i64,
    pub x_max: i64,
    pub y_min: i64,
    pub y_max: i64,
}

/// The plain-value properties of one display object.
#[derive(Clone, Debug)]
pub struct DisplayObjectState {
    pub name: String,
    pub visible: bool,
    /// Whether the object was placed by the timeline; such an object cannot
    /// be renamed from script.
    pub placed_by_timeline: bool,
    pub blend: BlendMode,
    /// The object's world bounds.
    pub bounds: Bounds,
}

/// Why a display-object operation was refused.
#[derive(Clone, PartialEq, Eq, Debug)]
pub enum DisplayError {
    /// `DisplayObject` is abstract and cannot be constructed directly.
    NotConstructible,
    /// A timeline-placed object cannot take the name that was asked for.
    TimelinePlaced(String),
    /// The blend-mode name is not one of the accepted values.
    InvalidBlendMode,
}

impl DisplayError {
    /// The host-visible message.
    pub fn message(&self) -> (r: String)
        ensures
            *self is NotConstructible ==> r@ == "You cannot construct DisplayObject directly."@,
            self matches DisplayError::TimelinePlaced(name) ==> r@ == "Display object "@ + name@
                + " was placed by the timeline and cannot have it's name changed."@,
            *self is InvalidBlendMode ==> r@
                == "ArgumentError: Error #2008: Parameter blendMode must be one of the accepted values."@,
    {
        match self {
            DisplayError::NotConstructible => String::from_str(
                "You cannot construct DisplayObject directly.",
            ),
            DisplayError::TimelinePlaced(name) => {
                let mut s = String::from_str("Display object ");
                s.append(name.as_str());
                s.append(" was placed by the timeline and cannot have it's name changed.");
                s
            },
            DisplayError::InvalidBlendMode => String::from_str(
                "ArgumentError: Error #2008: Parameter blendMode must be one of the accepted values.",
            ),
        }
    }
}

/// The canonical name of a blend mode.
pub open spec fn blend_name(m: BlendMode) -> Seq<char> {
    match m {
        BlendMode::Normal => "normal"@,
        BlendMode::Layer => "layer"@,
        BlendMode::Multiply => "multiply"@,
        BlendMode::Screen => "screen"@,
        BlendMode::Lighten => "lighten"@,
        BlendMode::Darken => "darken"@,
        BlendMode::Difference => "difference"@,
        BlendMode::Add => "add"@,
        BlendMode::Subtract => "subtract"@,
        BlendMode::Invert => "invert"@,
        BlendMode::Alpha => "alpha"@,
        BlendMode::Erase => "erase"@,
        BlendMode::Overlay => "overlay"@,
        BlendMode::HardLight => "hardlight"@,
    }
}

/// The blend mode a name denotes, if any.
pub open spec fn blend_from_name(n: Seq<char>) -> Option<BlendMode> {
    if n == "normal"@ {
        Option::Some(BlendMode::Normal)
    } else if n == "layer"@ {
        Option::Some(BlendMode::Layer)
    } else if n == "multiply"@ {
        Option::Some(BlendMode::Multiply)
    } else if n == "screen"@ {
        Option::Some(BlendMode::Screen)
    } else if n == "lighten"@ {
        Option::Some(BlendMode::Lighten)
    } else if n == "darken"@ {
        Option::Some(BlendMode::Darken)
    } else if n == "difference"@ {
        Option::Some(BlendMode::Difference)
    } else if n == "add"@ {
        Option::Some(BlendMode::Add)
    } else if n == "subtract"@ {
        Option::Some(BlendMode::Subtract)
    } else if n == "invert"@ {
        Option::Some(BlendMode::Invert)
    } else if n == "alpha"@ {
        Option::Some(BlendMode::Alpha)
    } else if n == "erase"@ {
        Option::Some(BlendMode::Erase)
    } else if n == "overlay"@ {
        Option::Some(BlendMode::Overlay)
    } else if n == "hardlight"@ {
        Option::Some(BlendMode::HardLight)
    } else {
        Option::None
    }
}

/// Whether two bounding boxes touch: both are non-empty and overlap on both
/// axes.
pub open spec fn bounds_intersect(a: Bounds, b: Bounds) -> bool {
    &&& a.valid
    &&& b.valid
    &&& a.x_min <= b.x_max
    &&& b.x_min <= a.x_max
    &&& a.y_min <= b.y_max
    &&& b.y_min <= a.y_max
}

/// String equality by contents.
fn str_eq(a: &str, b: &str) -> (r: bool)
    ensures
        r == (a@ == b@),
{
    let sa: String = a.to_owned();
    let sb: String = b.to_owned();
    sa == sb
}

/// Parse a blend-mode name.
pub fn parse_blend_mode(s: &str) -> (r: Option<BlendMode>)
    ensures
        r == blend_from_name(s@),
{
    if str_eq(s, "normal") {
        Some(BlendMode::Normal)
    } else if str_eq(s, "layer") {
        Some(BlendMode::Layer)
    } else if str_eq(s, "multiply") {
        Some(BlendMode::Multiply)
    } else if str_eq(s, "screen") {
        Some(BlendMode::Screen)
    } else if str_eq(s, "lighten") {
        Some(BlendMode::Lighten)
    } else if str_eq(s, "darken") {
        Some(BlendMode::Darken)
    } else if str_eq(s, "difference") {
        Some(BlendMode::Difference)
    } else if str_eq(s, "add") {
        Some(BlendMode::Add)
    } else if str_eq(s, "subtract") {
        Some(BlendMode::Subtract)
    } else if str_eq(s, "invert") {
        Some(BlendMode::Invert)
    } else if str_eq(s, "alpha") {
        Some(BlendMode::Alpha)
    } else if str_eq(s, "erase") {
        Some(BlendMode::Erase)
    } else if str_eq(s, "overlay") {
        Some(BlendMode::Overlay)
    } else if str_eq(s, "hardlight") {
        Some(BlendMode::HardLight)
    } else {
        None
    }
}

/// Print a blend-mode name.
pub fn blend_mode_name(m: BlendMode) -> (r: String)
    ensures
        r@ == blend_name(m),
{
    match m {
        BlendMode::Normal => String::from_str("normal"),
        BlendMode::Layer => String::from_str("layer"),
        BlendMode::Multiply => String::from_str("multiply"),
        BlendMode::Screen => String::from_str("screen"),
        BlendMode::Lighten => String::from_str("lighten"),
        BlendMode::Darken => String::from_str("darken"),
        BlendMode::Difference => String::from_str("difference"),
        BlendMode::Add => String::from_str("add"),
        BlendMode::Subtract => String::from_str("subtract"),
        BlendMode::Invert => String::from_str("invert"),
        BlendMode::Alpha => String::from_str("alpha"),
        BlendMode::Erase => String::from_str("erase"),
        BlendMode::Overlay => String::from_str("overlay"),
        BlendMode::HardLight => String::from_str("hardlight"),
    }
}

/// Printing a blend mode and parsing it back returns the same mode.
pub proof fn lemma_blend_name_round_trip(m: BlendMode)
    ensures
        blend_from_name(blend_name(m)) == Option::Some(m),
{
    reveal_strlit("normal");
    reveal_strlit("layer");
    reveal_strlit("multiply");
    reveal_strlit("screen");
    reveal_strlit("lighten");
    reveal_strlit("darken");
    reveal_strlit("difference");
    reveal_strlit("add");
    reveal_strlit("subtract");
    reveal_strlit("invert");
    reveal_strlit("alpha");
    reveal_strlit("erase");
    reveal_strlit("overlay");
    reveal_strlit("hardlight");
    assert(("normal"@).len() == 6 && ("normal"@)[0] == 'n');
    assert(("layer"@).len() == 5 && ("layer"@)[0] == 'l');
    assert(("multiply"@).len() == 8 && ("multiply"@)[0] == 'm');
    assert(("screen"@).len() == 6 && ("screen"@)[0] == 's');
    assert(("lighten"@).len() == 7 && ("lighten"@)[0] == 'l');
    assert(("darken"@).len() == 6 && ("darken"@)[0] == 'd');
    assert(("difference"@).len() == 10 && ("difference"@)[0] == 'd');
    assert(("add"@).len() == 3 && ("add"@)[0] == 'a');
    assert(("subtract"@).len() == 8 && ("subtract"@)[0] == 's');
    assert(("invert"@).len() == 6 && ("invert"@)[0] == 'i');
    assert(("alpha"@).len() == 5 && ("alpha"@)[0] == 'a');
    assert(("erase"@).len() == 5 && ("erase"@)[0] == 'e');
    assert(("overlay"@).len() == 7 && ("overlay"@)[0] == 'o');
    assert(("hardlight"@).len() == 9 && ("hardlight"@)[0] == 'h');
}

/// The instance constructor: `DisplayObject` is abstract, so constructing
/// one directly always fails.
pub fn instance_init() -> (r: Result<(), DisplayError>)
    ensures
        r == Result::<(), DisplayError>::Err(DisplayError::NotConstructible),
{
    Err(DisplayError::NotConstructible)
}

/// The class constructor hook: the class holds no static state.
pub fn class_init() {
}

/// The `name` getter.
pub fn name(state: &DisplayObjectState) -> (r: String)
    ensures
        r@ == state.name@,
{
    state.name.clone()
}

/// The `name` setter: a timeline-placed object keeps its name and the call
/// fails; otherwise the name is replaced.
pub fn set_name(state: &mut DisplayObjectState, new_name: String) -> (r: Result<
    (),
    DisplayError,
>)
    ensures
        old(state).placed_by_timeline ==> r == Result::<(), DisplayError>::Err(
            DisplayError::TimelinePlaced(new_name),
        ) && *final(state) == *old(state),
        !old(state).placed_by_timeline ==> r == Result::<(), DisplayError>::Ok(()) && *final(state)
            == (DisplayObjectState { name: new_name, ..*old(state) }),
{
    if state.placed_by_timeline {
        Err(DisplayError::TimelinePlaced(new_name))
    } else {
        state.name = new_name;
        Ok(())
    }
}

/// The `visible` getter.
pub fn visible(state: &DisplayObjectState) -> (r: bool)
    ensures
        r == state.visible,
{
    state.visible
}

/// The `visible` setter.
pub fn set_visible(state: &mut DisplayObjectState, value: bool)
    ensures
        *final(state) == (DisplayObjectState { visible: value, ..*old(state) }),
{
    state.visible = value;
}

/// The `blendMode` getter: the mode's canonical name.
pub fn blend_mode(state: &DisplayObjectState) -> (r: String)
    ensures
        r@ == blend_name(state.blend),
{
    blend_mode_name(state.blend)
}

/// The `blendMode` setter: an accepted name replaces the mode; any other
/// name leaves it unchanged and fails.
pub fn set_blend_mode(state: &mut DisplayObjectState, mode: &str) -> (r: Result<
    (),
    DisplayError,
>)
    ensures
        blend_from_name(mode@) matches Some(m) ==> r == Result::<(), DisplayError>::Ok(())
            && *final(state) == (DisplayObjectState { blend: m, ..*old(state) }),
        blend_from_name(mode@) is None ==> r == Result::<(), DisplayError>::Err(
            DisplayError::InvalidBlendMode,
        ) && *final(state) == *old(state),
{
    match parse_blend_mode(mode) {
        Some(m) => {
            state.blend = m;
            Ok(())
        },
        None => Err(DisplayError::InvalidBlendMode),
    }
}

/// The `hitTestObject` method: whether the world bounds of the two objects
/// intersect.
pub fn hit_test_object(state: &DisplayObjectState, other: &DisplayObjectState) -> (r: bool)
    ensures
        r == bounds_intersect(state.bounds, other.bounds),
{
    state.bounds.valid && other.bounds.valid && state.bounds.x_min <= other.bounds.x_max
        && other.bounds.x_min <= state.bounds.x_max && state.bounds.y_min <= other.bounds.y_max
        && other.bounds.y_min <= state.bounds.y_max
}

} // verus!
