use avm_globals::display::{
    blend_mode, class_init, hit_test_object, instance_init, name, parse_blend_mode, set_blend_mode,
    set_name, set_visible, visible, BlendMode, Bounds, DisplayError, DisplayObjectState,
};

fn state() -> DisplayObjectState {
    DisplayObjectState {
        name: String::from("instance1"),
        visible: true,
        placed_by_timeline: false,
        blend: BlendMode::Normal,
        bounds: Bounds { valid: true, x_min: 0, x_max: 2000, y_min: 0, y_max: 1000 },
    }
}

#[test]
fn display_object_cannot_be_constructed_directly() {
    let r = instance_init();
    assert_eq!(r, Err(DisplayError::NotConstructible));
    assert_eq!(
        r.unwrap_err().message(),
        "You cannot construct DisplayObject directly."
    );
    class_init();
}

#[test]
fn name_round_trip() {
    let mut s = state();
    assert_eq!(name(&s), "instance1");
    assert_eq!(set_name(&mut s, String::from("hero")), Ok(()));
    assert_eq!(name(&s), "hero");
}

#[test]
fn timeline_placed_object_keeps_its_name() {
    let mut s = state();
    s.placed_by_timeline = true;
    let r = set_name(&mut s, String::from("hero"));
    assert_eq!(r, Err(DisplayError::TimelinePlaced(String::from("hero"))));
    assert_eq!(name(&s), "instance1");
    assert_eq!(
        r.unwrap_err().message(),
        "Display object hero was placed by the timeline and cannot have it's name changed."
    );
}

#[test]
fn visible_round_trip() {
    let mut s = state();
    assert!(visible(&s));
    set_visible(&mut s, false);
    assert!(!visible(&s));
}

#[test]
fn blend_mode_names_round_trip() {
    let modes = [
        (BlendMode::Normal, "normal"),
        (BlendMode::Layer, "layer"),
        (BlendMode::Multiply, "multiply"),
        (BlendMode::Screen, "screen"),
        (BlendMode::Lighten, "lighten"),
        (BlendMode::Darken, "darken"),
        (BlendMode::Difference, "difference"),
        (BlendMode::Add, "add"),
        (BlendMode::Subtract, "subtract"),
        (BlendMode::Invert, "invert"),
        (BlendMode::Alpha, "alpha"),
        (BlendMode::Erase, "erase"),
        (BlendMode::Overlay, "overlay"),
        (BlendMode::HardLight, "hardlight"),
    ];
    for (mode, text) in modes {
        assert_eq!(parse_blend_mode(text), Some(mode), "{text}");
        let mut s = state();
        assert_eq!(set_blend_mode(&mut s, text), Ok(()));
        assert_eq!(blend_mode(&s), text);
    }
}

#[test]
fn unknown_blend_mode_is_refused() {
    let mut s = state();
    s.blend = BlendMode::Add;
    let r = set_blend_mode(&mut s, "translucent");
    assert_eq!(r, Err(DisplayError::InvalidBlendMode));
    assert_eq!(blend_mode(&s), "add");
    assert_eq!(
        r.unwrap_err().message(),
        "ArgumentError: Error #2008: Parameter blendMode must be one of the accepted values."
    );
}

#[test]
fn hit_test_object_checks_bounds_overlap() {
    let a = state();
    let mut b = state();
    b.bounds = Bounds { valid: true, x_min: 1500, x_max: 2500, y_min: 500, y_max: 1500 };
    assert!(hit_test_object(&a, &b));
    b.bounds.x_min = 2001;
    assert!(!hit_test_object(&a, &b));
    b.bounds.x_min = 1500;
    b.bounds.valid = false;
    assert!(!hit_test_object(&a, &b));
}

#[test]
fn touching_edges_count_as_a_hit() {
    let a = state();
    let mut b = state();
    b.bounds = Bounds { valid: true, x_min: 2000, x_max: 3000, y_min: 1000, y_max: 2000 };
    assert!(hit_test_object(&a, &b));
}
