//! The title bar drawn above a window: five buttons laid out from the
//! window's width, hit testing against them, and the rectangles that draw it.
use crate::color::{Rgba, SolidColorBuffer};
use crate::geometry::{Point, Rectangle, Size};
use vstd::prelude::*;

verus! {

/// The height of the bar, in logical units.
pub const TOP_BAR_HEIGHT: i32 = 24;

/// The width and height of every button.
pub const BUTTON_SIZE: i32 = 18;

/// The gap between neighbouring buttons of the right-hand group.
pub const BUTTON_SPACING: i32 = 4;

/// The padding between the bar's left or right edge and the outermost button.
pub const EDGE_PADDING: i32 = 6;

/// The number of buttons on the bar.
pub const BUTTON_COUNT: usize = 5;

/// The narrowest bar on which no two buttons overlap.
pub const MIN_CLEAR_WIDTH: i32 = 2 * EDGE_PADDING + 5 * BUTTON_SIZE + 2 * BUTTON_SPACING;

/// The opacity every rectangle is drawn with, in thousandths.
pub const OPAQUE: u16 = 1000;

/// The top edge shared by all buttons: they are centred vertically.
pub open spec fn button_y() -> int {
    (TOP_BAR_HEIGHT - BUTTON_SIZE) / 2
}

/// The colour of the bar behind the buttons: a dark grey, slightly transparent.
pub open spec fn spec_background_color() -> Rgba {
    Rgba { r: 200, g: 200, b: 200, a: 900 }
}

pub fn background_color() -> (c: Rgba)
    ensures
        c == spec_background_color(),
{
    Rgba::new(200, 200, 200, 900)
}

/// What a button does when pressed. The order of the variants is the order
/// of the buttons in the bar's tables, in its hit test and in what it draws.
#[derive(Clone, Copy, Debug, PartialEq, Eq, Structural)]
pub enum Role {
    Screenshot,
    PresetWidth,
    Close,
    Minimize,
    Maximize,
}

impl Role {
    pub open spec fn spec_index(self) -> int {
        match self {
            Role::Screenshot => 0,
            Role::PresetWidth => 1,
            Role::Close => 2,
            Role::Minimize => 3,
            Role::Maximize => 4,
        }
    }

    /// The role at a table position; positions past the last give the last role.
    pub open spec fn spec_at(i: int) -> Role {
        if i <= 0 {
            Role::Screenshot
        } else if i == 1 {
            Role::PresetWidth
        } else if i == 2 {
            Role::Close
        } else if i == 3 {
            Role::Minimize
        } else {
            Role::Maximize
        }
    }

    /// The button's position in the bar's tables.
    pub fn index(&self) -> (i: usize)
        ensures
            i == self.spec_index(),
            i < BUTTON_COUNT,
            Role::spec_at(i as int) == *self,
    {
        match self {
            Role::Screenshot => 0,
            Role::PresetWidth => 1,
            Role::Close => 2,
            Role::Minimize => 3,
            Role::Maximize => 4,
        }
    }

    /// The role of the button at position `i` of the bar's tables.
    pub fn at(i: usize) -> (r: Role)
        requires
            i < BUTTON_COUNT,
        ensures
            r == Role::spec_at(i as int),
            r.spec_index() == i,
    {
        if i == 0 {
            Role::Screenshot
        } else if i == 1 {
            Role::PresetWidth
        } else if i == 2 {
            Role::Close
        } else if i == 3 {
            Role::Minimize
        } else {
            Role::Maximize
        }
    }

    /// The left edge of the button on a bar of width `w`. Screenshot sits at
    /// the left padding; Maximize, Minimize and Close run leftwards from the
    /// right padding, a spacing apart; PresetWidth sits one button width left
    /// of Close.
    pub open spec fn spec_x(self, w: int) -> int {
        match self {
            Role::Screenshot => EDGE_PADDING as int,
            Role::PresetWidth => w - EDGE_PADDING - 4 * BUTTON_SIZE - 2 * BUTTON_SPACING,
            Role::Close => w - EDGE_PADDING - 3 * BUTTON_SIZE - 2 * BUTTON_SPACING,
            Role::Minimize => w - EDGE_PADDING - 2 * BUTTON_SIZE - BUTTON_SPACING,
            Role::Maximize => w - EDGE_PADDING - BUTTON_SIZE,
        }
    }

    /// The button's fill colour (premultiplied, fully opaque).
    pub open spec fn spec_color(self) -> Rgba {
        match self {
            Role::Screenshot => Rgba { r: 200, g: 600, b: 1000, a: 1000 },
            Role::PresetWidth => Rgba { r: 400, g: 800, b: 1000, a: 1000 },
            Role::Close => Rgba { r: 1000, g: 300, b: 300, a: 1000 },
            Role::Minimize => Rgba { r: 1000, g: 700, b: 200, a: 1000 },
            Role::Maximize => Rgba { r: 300, g: 800, b: 300, a: 1000 },
        }
    }

    pub fn color(&self) -> (c: Rgba)
        ensures
            c == self.spec_color(),
    {
        match self {
            Role::Screenshot => Rgba::new(200, 600, 1000, 1000),
            Role::PresetWidth => Rgba::new(400, 800, 1000, 1000),
            Role::Close => Rgba::new(1000, 300, 300, 1000),
            Role::Minimize => Rgba::new(1000, 700, 200, 1000),
            Role::Maximize => Rgba::new(300, 800, 300, 1000),
        }
    }
}

/// One rectangle for the renderer: where it goes on screen, its size, its
/// colour and its opacity (in thousandths).
#[derive(Clone, Copy, Debug, PartialEq, Eq, Structural)]
pub struct DrawPrimitive {
    pub location: Point,
    pub size: Size,
    pub color: Rgba,
    pub opacity: u16,
}

/// The title bar of one window. Positions are in bar-local coordinates:
/// the origin is the bar's top-left corner.
#[derive(Debug)]
pub struct TopBar {
    /// The bar's background.
    pub background: SolidColorBuffer,
    /// One buffer per button, indexed by `Role::index`.
    pub button_buffers: [SolidColorBuffer; 5],
    /// The bar's full size.
    pub size: Size,
    /// The top-left corner of each button, indexed by `Role::index`.
    pub button_locations: [Point; 5],
}

/// One buffer per button, a button square in size, in its role's colour.
fn button_buffers() -> (b: [SolidColorBuffer; 5])
    ensures
        forall|i: int|
            0 <= i < 5 ==> #[trigger] b@[i] == (SolidColorBuffer {
                size: Size { w: BUTTON_SIZE, h: BUTTON_SIZE },
                color: Role::spec_at(i).spec_color(),
            }),
{
    let size = Size::new(BUTTON_SIZE, BUTTON_SIZE);
    [
        SolidColorBuffer::new(size, Role::Screenshot.color()),
        SolidColorBuffer::new(size, Role::PresetWidth.color()),
        SolidColorBuffer::new(size, Role::Close.color()),
        SolidColorBuffer::new(size, Role::Minimize.color()),
        SolidColorBuffer::new(size, Role::Maximize.color()),
    ]
}

impl TopBar {
    /// The box of the button at table position `i`.
    pub open spec fn button_rect(self, i: int) -> Rectangle {
        Rectangle { loc: self.button_locations@[i], size: Size { w: BUTTON_SIZE, h: BUTTON_SIZE } }
    }

    /// The box of the button with the given role.
    pub open spec fn role_rect(self, role: Role) -> Rectangle {
        self.button_rect(role.spec_index())
    }

    /// Every part of the bar is what the layout gives for a window of width `w`:
    /// nothing of an earlier width remains.
    pub open spec fn is_laid_out(self, w: int) -> bool {
        &&& self.size.w == w
        &&& self.size.h == TOP_BAR_HEIGHT
        &&& self.background.size == self.size
        &&& self.background.color == spec_background_color()
        &&& forall|i: int|
            0 <= i < 5 ==> {
                &&& (#[trigger] self.button_locations@[i]).x == Role::spec_at(i).spec_x(w)
                &&& self.button_locations@[i].y == button_y()
            }
        &&& forall|i: int|
            0 <= i < 5 ==> {
                &&& (#[trigger] self.button_buffers@[i]).size == (Size { w: BUTTON_SIZE, h: BUTTON_SIZE })
                &&& self.button_buffers@[i].color == Role::spec_at(i).spec_color()
            }
    }

    /// A bar with buttons of the right sizes and colours and no layout yet:
    /// the bar is empty and every button sits at the origin.
    pub fn new() -> (bar: TopBar)
        ensures
            bar.size == (Size { w: 0, h: 0 }),
            bar.background == (SolidColorBuffer { size: bar.size, color: spec_background_color() }),
            forall|i: int| 0 <= i < 5 ==> #[trigger] bar.button_locations@[i] == (Point { x: 0, y: 0 }),
            forall|i: int|
                0 <= i < 5 ==> #[trigger] bar.button_buffers@[i] == (SolidColorBuffer {
                    size: Size { w: BUTTON_SIZE, h: BUTTON_SIZE },
                    color: Role::spec_at(i).spec_color(),
                }),
    {
        let origin = Point::new(0, 0);
        TopBar {
            background: SolidColorBuffer::new(Size::new(0, 0), background_color()),
            button_buffers: button_buffers(),
            size: Size::new(0, 0),
            button_locations: [origin, origin, origin, origin, origin],
        }
    }

    /// Lays the bar out for a window of size `win_size`: the bar takes the
    /// window's width and the fixed bar height, and every button is placed
    /// and coloured afresh.
    pub fn update(&mut self, win_size: Size)
        requires
            win_size.w >= 0,
        ensures
            final(self).size == (Size { w: win_size.w, h: TOP_BAR_HEIGHT }),
            final(self).is_laid_out(win_size.w as int),
    {
        let size = Size::new(win_size.w, TOP_BAR_HEIGHT);
        self.size = size;
        self.background.resize(size);
        self.background.set_color(background_color());

        let button_y = (TOP_BAR_HEIGHT - BUTTON_SIZE) / 2;
        let left_x = EDGE_PADDING;

        // The right-hand group, placed from the right edge leftwards.
        let mut right = win_size.w - EDGE_PADDING;
        right = right - BUTTON_SIZE;
        let maximize_x = right;
        right = right - BUTTON_SPACING - BUTTON_SIZE;
        let minimize_x = right;
        right = right - BUTTON_SPACING - BUTTON_SIZE;
        let close_x = right;
        // The preset-width button sits directly left of Close.
        right = right - BUTTON_SIZE;
        let preset_x = right;

        self.button_locations = [
            Point::new(left_x, button_y),
            Point::new(preset_x, button_y),
            Point::new(close_x, button_y),
            Point::new(minimize_x, button_y),
            Point::new(maximize_x, button_y),
        ];

        self.button_buffers = button_buffers();
    }

    /// The first button, in table order from position `i` on, whose box
    /// holds `p`.
    pub open spec fn hit_from(self, p: Point, i: int) -> Option<Role>
        decreases 5 - i,
    {
        if i < 0 || i >= 5 {
            None
        } else if self.button_rect(i).spec_contains(p) {
            Some(Role::spec_at(i))
        } else {
            self.hit_from(p, i + 1)
        }
    }

    /// The button under `p`: none where `p` lies above or below the bar,
    /// else the first button in table order whose box holds `p`. The bar's
    /// width bounds nothing here.
    pub open spec fn spec_hit_test(self, p: Point) -> Option<Role> {
        if p.y < 0 || p.y > TOP_BAR_HEIGHT {
            None
        } else {
            self.hit_from(p, 0)
        }
    }

    /// Which button, if any, lies under `point` (in bar-local coordinates).
    pub fn hit_test(&self, point: Point) -> (r: Option<Role>)
        ensures
            r == self.spec_hit_test(point),
            point.y < 0 || point.y > TOP_BAR_HEIGHT ==> r is None,
    {
        if point.y < 0 || point.y > TOP_BAR_HEIGHT {
            return None;
        }
        let button_size = Size::new(BUTTON_SIZE, BUTTON_SIZE);
        let mut i: usize = 0;
        while i < BUTTON_COUNT
            invariant
                0 <= i <= BUTTON_COUNT,
                0 <= point.y <= TOP_BAR_HEIGHT,
                button_size == (Size { w: BUTTON_SIZE, h: BUTTON_SIZE }),
                self.hit_from(point, 0) == self.hit_from(point, i as int),
            decreases BUTTON_COUNT - i,
        {
            let rect = Rectangle::new(self.button_locations[i], button_size);
            if rect.contains(point) {
                return Some(Role::at(i));
            }
            i = i + 1;
        }
        None
    }

    /// Whether every button, moved by `origin`, has a representable position.
    pub open spec fn fits_at(self, origin: Point) -> bool {
        forall|i: int| 0 <= i < 5 ==> origin.can_offset(#[trigger] self.button_locations@[i])
    }

    /// What draws the button at table position `i` when the bar's top-left
    /// corner is at `origin`.
    pub open spec fn button_primitive(self, i: int, origin: Point) -> DrawPrimitive {
        DrawPrimitive {
            location: Point {
                x: (origin.x + self.button_locations@[i].x) as i32,
                y: (origin.y + self.button_locations@[i].y) as i32,
            },
            size: self.button_buffers@[i].size,
            color: self.button_buffers@[i].color,
            opacity: OPAQUE,
        }
    }

    /// What draws the background when the bar's top-left corner is at `origin`.
    pub open spec fn background_primitive(self, origin: Point) -> DrawPrimitive {
        DrawPrimitive {
            location: origin,
            size: self.background.size,
            color: self.background.color,
            opacity: OPAQUE,
        }
    }

    /// The rectangles that draw the bar with its top-left corner at `origin`
    /// on screen: the background first, then each button in table order, so
    /// that the buttons lie on top. The renderer is passed through untouched.
    pub fn render<R>(&self, renderer: &mut R, origin: Point) -> (r: Vec<DrawPrimitive>)
        requires
            self.fits_at(origin),
        ensures
            r@.len() == 1 + BUTTON_COUNT,
            r@[0] == self.background_primitive(origin),
            forall|i: int| 0 <= i < 5 ==> #[trigger] r@[i + 1] == self.button_primitive(i, origin),
            *final(renderer) == *old(renderer),
    {
        let mut out: Vec<DrawPrimitive> = Vec::new();
        out.push(
            DrawPrimitive {
                location: origin,
                size: self.background.size,
                color: self.background.color,
                opacity: OPAQUE,
            },
        );
        let mut i: usize = 0;
        while i < BUTTON_COUNT
            invariant
                0 <= i <= BUTTON_COUNT,
                self.fits_at(origin),
                out@.len() == 1 + i,
                out@[0] == self.background_primitive(origin),
                forall|j: int| 0 <= j < i ==> #[trigger] out@[j + 1] == self.button_primitive(j, origin),
            decreases BUTTON_COUNT - i,
        {
            let buffer = self.button_buffers[i];
            let location = origin.offset(self.button_locations[i]);
            out.push(
                DrawPrimitive { location, size: buffer.size, color: buffer.color, opacity: OPAQUE },
            );
            i = i + 1;
        }
        out
    }

    /// The centre of the button with the given role.
    pub open spec fn button_center(self, role: Role) -> Point {
        Point {
            x: (self.role_rect(role).loc.x + BUTTON_SIZE / 2) as i32,
            y: (self.role_rect(role).loc.y + BUTTON_SIZE / 2) as i32,
        }
    }
}

/// On a bar laid out for a width at which the buttons do not overlap, a
/// press at the centre of a button hits that button.
pub proof fn lemma_center_hits(bar: TopBar, w: int, role: Role)
    requires
        bar.is_laid_out(w),
        w >= MIN_CLEAR_WIDTH,
    ensures
        bar.spec_hit_test(bar.button_center(role)) == Some(role),
{
    let p = bar.button_center(role);
    assert(bar.button_locations@[0].x == Role::spec_at(0).spec_x(w));
    assert(bar.button_locations@[1].x == Role::spec_at(1).spec_x(w));
    assert(bar.button_locations@[2].x == Role::spec_at(2).spec_x(w));
    assert(bar.button_locations@[3].x == Role::spec_at(3).spec_x(w));
    assert(bar.button_locations@[4].x == Role::spec_at(4).spec_x(w));
    reveal_with_fuel(TopBar::hit_from, 6);
}

/// On a bar laid out for a width at which the buttons do not overlap, no
/// point lies in the boxes of two different buttons.
pub proof fn lemma_boxes_disjoint(bar: TopBar, w: int, a: Role, b: Role)
    requires
        bar.is_laid_out(w),
        w >= MIN_CLEAR_WIDTH,
        a != b,
    ensures
        bar.role_rect(a).disjoint(bar.role_rect(b)),
{
    let ia = a.spec_index();
    let ib = b.spec_index();
    assert(bar.button_locations@[ia].x == Role::spec_at(ia).spec_x(w));
    assert(bar.button_locations@[ib].x == Role::spec_at(ib).spec_x(w));
}

/// Laying a bar out twice for the same width gives what laying it out once
/// gives: `update` fixes every part of the bar from the width alone, so a
/// bar laid out for `w` and the same bar laid out again for `w` agree in
/// every size, position and colour.
pub proof fn lemma_update_idempotent(once: TopBar, twice: TopBar, w: int)
    requires
        once.is_laid_out(w),
        twice.is_laid_out(w),
    ensures
        twice.size == once.size,
        twice.background == once.background,
        twice.button_locations@ == once.button_locations@,
        twice.button_buffers@ == once.button_buffers@,
{
    assert(twice.button_locations@ =~= once.button_locations@);
    assert(twice.button_buffers@ =~= once.button_buffers@);
}

} // verus!
