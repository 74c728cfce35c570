use topbar::color::{Rgba, SolidColorBuffer};
use topbar::geometry::{Point, Rectangle, Size};
use topbar::top_bar::{
    DrawPrimitive, Role, TopBar, BUTTON_COUNT, BUTTON_SIZE, BUTTON_SPACING, EDGE_PADDING,
    MIN_CLEAR_WIDTH, OPAQUE, TOP_BAR_HEIGHT,
};

const ROLES: [Role; 5] = [
    Role::Screenshot,
    Role::PresetWidth,
    Role::Close,
    Role::Minimize,
    Role::Maximize,
];

fn laid_out(w: i32) -> TopBar {
    let mut bar = TopBar::new();
    bar.update(Size::new(w, 100));
    bar
}

fn location(bar: &TopBar, role: Role) -> Point {
    bar.button_locations[role.index()]
}

#[test]
fn constants_are_as_documented() {
    assert_eq!(TOP_BAR_HEIGHT, 24);
    assert_eq!(BUTTON_SIZE, 18);
    assert_eq!(BUTTON_SPACING, 4);
    assert_eq!(EDGE_PADDING, 6);
    assert_eq!(BUTTON_COUNT, 5);
    assert_eq!(MIN_CLEAR_WIDTH, 110);
}

#[test]
fn new_bar_has_no_layout_yet() {
    let bar = TopBar::new();
    assert_eq!(bar.size, Size::new(0, 0));
    assert_eq!(bar.background.size, Size::new(0, 0));
    assert_eq!(bar.background.color, Rgba::new(200, 200, 200, 900));
    for (i, role) in ROLES.iter().enumerate() {
        assert_eq!(bar.button_locations[i], Point::new(0, 0));
        assert_eq!(bar.button_buffers[i].size, Size::new(18, 18));
        assert_eq!(bar.button_buffers[i].color, role.color());
    }
}

#[test]
fn update_sets_bar_size_to_window_width() {
    for w in [0, 1, 57, 110, 400, 1920, i32::MAX] {
        let bar = laid_out(w);
        assert_eq!(bar.size, Size::new(w, 24));
        assert_eq!(bar.background.size, Size::new(w, 24));
        assert_eq!(bar.background.color, Rgba::new(200, 200, 200, 900));
    }
}

#[test]
fn update_places_buttons_for_width_400() {
    let bar = laid_out(400);
    assert_eq!(location(&bar, Role::Maximize), Point::new(376, 3));
    assert_eq!(location(&bar, Role::Minimize), Point::new(354, 3));
    assert_eq!(location(&bar, Role::Close), Point::new(332, 3));
    assert_eq!(location(&bar, Role::PresetWidth), Point::new(314, 3));
    assert_eq!(location(&bar, Role::Screenshot), Point::new(6, 3));
}

#[test]
fn update_colours_buttons_by_role() {
    let bar = laid_out(400);
    assert_eq!(bar.button_buffers[0].color, Rgba::new(200, 600, 1000, 1000));
    assert_eq!(bar.button_buffers[1].color, Rgba::new(400, 800, 1000, 1000));
    assert_eq!(bar.button_buffers[2].color, Rgba::new(1000, 300, 300, 1000));
    assert_eq!(bar.button_buffers[3].color, Rgba::new(1000, 700, 200, 1000));
    assert_eq!(bar.button_buffers[4].color, Rgba::new(300, 800, 300, 1000));
    for buffer in bar.button_buffers.iter() {
        assert_eq!(buffer.size, Size::new(18, 18));
    }
}

#[test]
fn update_on_narrow_window_keeps_raw_arithmetic() {
    let bar = laid_out(0);
    assert_eq!(location(&bar, Role::Maximize), Point::new(-24, 3));
    assert_eq!(location(&bar, Role::Minimize), Point::new(-46, 3));
    assert_eq!(location(&bar, Role::Close), Point::new(-68, 3));
    assert_eq!(location(&bar, Role::PresetWidth), Point::new(-86, 3));
    assert_eq!(location(&bar, Role::Screenshot), Point::new(6, 3));
}

#[test]
fn update_twice_is_update_once() {
    let once = laid_out(400);
    let mut twice = laid_out(400);
    twice.update(Size::new(400, 7));
    assert_eq!(twice.size, once.size);
    assert_eq!(twice.background, once.background);
    assert_eq!(twice.button_locations, once.button_locations);
    assert_eq!(twice.button_buffers, once.button_buffers);
}

#[test]
fn update_forgets_earlier_width() {
    let mut bar = laid_out(1000);
    bar.update(Size::new(200, 24));
    let fresh = laid_out(200);
    assert_eq!(bar.size, fresh.size);
    assert_eq!(bar.background, fresh.background);
    assert_eq!(bar.button_locations, fresh.button_locations);
    assert_eq!(bar.button_buffers, fresh.button_buffers);
}

#[test]
fn hit_test_at_width_400_uses_computed_boxes() {
    let bar = laid_out(400);
    // Close's box is [332, 350) x [3, 21); 320 lies in PresetWidth's [314, 332).
    assert_eq!(bar.hit_test(Point::new(320, 10)), Some(Role::PresetWidth));
    assert_eq!(bar.hit_test(Point::new(340, 10)), Some(Role::Close));
    assert_eq!(bar.hit_test(Point::new(332, 3)), Some(Role::Close));
    assert_eq!(bar.hit_test(Point::new(349, 20)), Some(Role::Close));
    assert_eq!(bar.hit_test(Point::new(350, 10)), None);
    assert_eq!(bar.hit_test(Point::new(340, 21)), None);
    assert_eq!(bar.hit_test(Point::new(340, 2)), None);
    assert_eq!(bar.hit_test(Point::new(6, 3)), Some(Role::Screenshot));
    assert_eq!(bar.hit_test(Point::new(100, 10)), None);
}

#[test]
fn hit_test_outside_bar_height_is_none() {
    let bar = laid_out(400);
    for x in [-1000, 0, 10, 340, 380, 5000] {
        assert_eq!(bar.hit_test(Point::new(x, -1)), None);
        assert_eq!(bar.hit_test(Point::new(x, 25)), None);
        assert_eq!(bar.hit_test(Point::new(x, i32::MIN)), None);
        assert_eq!(bar.hit_test(Point::new(x, i32::MAX)), None);
    }
    assert_eq!(bar.hit_test(Point::new(340, 24)), None);
    assert_eq!(bar.hit_test(Point::new(340, 0)), None);
}

#[test]
fn hit_test_ignores_bar_width() {
    let bar = laid_out(400);
    let mut moved = laid_out(400);
    moved.button_locations[Role::Close.index()] = Point::new(900, 3);
    assert_eq!(moved.hit_test(Point::new(905, 10)), Some(Role::Close));
    assert_eq!(bar.hit_test(Point::new(905, 10)), None);
}

#[test]
fn hit_test_at_button_centres() {
    for w in [MIN_CLEAR_WIDTH, 111, 400, 1920] {
        let bar = laid_out(w);
        for role in ROLES {
            let loc = location(&bar, role);
            let centre = Point::new(loc.x + BUTTON_SIZE / 2, loc.y + BUTTON_SIZE / 2);
            assert_eq!(bar.hit_test(centre), Some(role));
        }
    }
}

#[test]
fn button_boxes_do_not_overlap_when_wide_enough() {
    for w in [MIN_CLEAR_WIDTH, 400] {
        let bar = laid_out(w);
        let size = Size::new(BUTTON_SIZE, BUTTON_SIZE);
        for a in 0..5 {
            for b in 0..5 {
                if a == b {
                    continue;
                }
                let ra = Rectangle::new(bar.button_locations[a], size);
                let rb = Rectangle::new(bar.button_locations[b], size);
                for x in ra.loc.x..ra.loc.x + size.w {
                    for y in ra.loc.y..ra.loc.y + size.h {
                        assert!(!rb.contains(Point::new(x, y)));
                    }
                }
            }
        }
    }
}

#[test]
fn hit_test_on_overlap_prefers_earlier_role() {
    // At width 50 Minimize spans [4, 22), over Screenshot's [6, 24).
    let bar = laid_out(50);
    assert_eq!(location(&bar, Role::Minimize), Point::new(4, 3));
    assert_eq!(bar.hit_test(Point::new(10, 10)), Some(Role::Screenshot));
    assert_eq!(bar.hit_test(Point::new(5, 10)), Some(Role::Minimize));
}

#[test]
fn render_emits_background_then_buttons() {
    let bar = laid_out(400);
    let mut renderer = 7u32;
    let out = bar.render(&mut renderer, Point::new(100, 50));
    assert_eq!(renderer, 7);
    assert_eq!(out.len(), 6);
    assert_eq!(
        out[0],
        DrawPrimitive {
            location: Point::new(100, 50),
            size: Size::new(400, 24),
            color: Rgba::new(200, 200, 200, 900),
            opacity: OPAQUE,
        }
    );
    let xs = [106, 414, 432, 454, 476];
    for (i, role) in ROLES.iter().enumerate() {
        assert_eq!(out[i + 1].location, Point::new(xs[i], 53));
        assert_eq!(out[i + 1].size, Size::new(18, 18));
        assert_eq!(out[i + 1].color, role.color());
        assert_eq!(out[i + 1].opacity, 1000);
    }
}

#[test]
fn render_at_negative_origin() {
    let bar = laid_out(200);
    let out = bar.render(&mut (), Point::new(-300, -10));
    assert_eq!(out[0].location, Point::new(-300, -10));
    assert_eq!(out[1].location, Point::new(-294, -7));
    assert_eq!(out[5].location, Point::new(-300 + 176, -7));
}

#[test]
fn roles_round_trip_through_index() {
    for (i, role) in ROLES.iter().enumerate() {
        assert_eq!(role.index(), i);
        assert_eq!(Role::at(i), *role);
    }
}

#[test]
fn rectangle_contains_is_half_open() {
    let r = Rectangle::new(Point::new(-5, 10), Size::new(3, 2));
    assert!(r.contains(Point::new(-5, 10)));
    assert!(r.contains(Point::new(-3, 11)));
    assert!(!r.contains(Point::new(-2, 10)));
    assert!(!r.contains(Point::new(-5, 12)));
    assert!(!r.contains(Point::new(-6, 10)));
    let big = Rectangle::new(Point::new(i32::MAX - 1, 0), Size::new(i32::MAX, 1));
    assert!(big.contains(Point::new(i32::MAX - 1, 0)));
    assert!(!big.contains(Point::new(i32::MAX, 0)));
}

#[test]
fn point_offset_adds_coordinates() {
    assert_eq!(Point::new(3, -4).offset(Point::new(-10, 20)), Point::new(-7, 16));
}

#[test]
fn solid_color_buffer_resize_and_recolour() {
    let mut b = SolidColorBuffer::new(Size::new(1, 2), Rgba::new(1, 2, 3, 4));
    b.resize(Size::new(5, 6));
    assert_eq!(b.size, Size::new(5, 6));
    assert_eq!(b.color, Rgba::new(1, 2, 3, 4));
    b.set_color(Rgba::new(9, 9, 9, 9));
    assert_eq!(b.size, Size::new(5, 6));
    assert_eq!(b.color, Rgba::new(9, 9, 9, 9));
}
