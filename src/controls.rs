use vstd::prelude::*;

use crate::geometry::{
    disjoint, lemma_separated_disjoint, on_canvas, strictly_within, within, Point, GRID_ITEMS, HEIGHT,
    WIDTH,
};
use crate::input::{is_single_tap, InputEvent, TouchGesture};

verus! {

/// The largest row index whose band still has `i32` coordinates.
pub const MAX_ITEM_INDEX: u32 = 35_791_392;

/// Height of one row of the list-style grid.
pub open spec fn row_height() -> int {
    HEIGHT as int / GRID_ITEMS as int
}

/// The band of row `idx`: inset by 10 pixels from the sides and from the
/// top of its row, and 10 pixels short of the next row.
pub open spec fn item_rect(idx: int) -> (Point, Point) {
    let top = idx * HEIGHT as int / GRID_ITEMS as int + 10;
    (
        Point { x: 10, y: top as i32 },
        Point { x: (10 + WIDTH as int - 20) as i32, y: (top + row_height() - 20) as i32 },
    )
}

/// A tap in the rectangle `r`, corners included.
pub open spec fn tap_in(event: InputEvent, r: (Point, Point)) -> bool {
    match event {
        InputEvent::Touch(TouchGesture::SingleTap(p)) => within(p, r.0, r.1),
        _ => false,
    }
}

/// A labelled row of a list-style menu.
#[derive(Debug, Clone, Copy, PartialEq, Eq)]
pub struct MenuItem {
    text: &'static str,
    idx: u32,
}

impl MenuItem {
    pub closed spec fn spec_label(&self) -> Seq<char> {
        self.text@
    }

    pub closed spec fn spec_index(&self) -> u32 {
        self.idx
    }

    /// The band that this row occupies.
    pub open spec fn rect(&self) -> (Point, Point) {
        item_rect(self.spec_index() as int)
    }

    /// The row index is small enough for its band to have `i32` coordinates.
    #[verifier::type_invariant]
    spec fn inv(&self) -> bool {
        self.idx <= MAX_ITEM_INDEX
    }

    /// The row built from `text` and `idx`.
    pub closed spec fn spec_new(text: &'static str, idx: u32) -> MenuItem {
        MenuItem { text, idx }
    }

    pub broadcast proof fn lemma_spec_new(text: &'static str, idx: u32)
        ensures
            #[trigger] MenuItem::spec_new(text, idx).spec_label() == text@,
            MenuItem::spec_new(text, idx).spec_index() == idx,
    {
    }

    pub fn new(text: &'static str, idx: u32) -> (r: MenuItem)
        requires
            idx <= MAX_ITEM_INDEX,
        ensures
            r == MenuItem::spec_new(text, idx),
            r.spec_label() == text@,
            r.spec_index() == idx,
    {
        MenuItem { text, idx }
    }

    pub fn label(&self) -> (r: &'static str)
        ensures
            r@ == self.spec_label(),
    {
        self.text
    }

    pub fn index(&self) -> (r: u32)
        ensures
            r == self.spec_index(),
    {
        self.idx
    }

    /// Top-left and bottom-right corners of the row's band.
    pub fn placement(&self) -> (r: (Point, Point))
        ensures
            r == self.rect(),
    {
        proof {
            use_type_invariant(self);
        }
        let top: u64 = (self.idx as u64) * (HEIGHT as u64) / (GRID_ITEMS as u64) + 10;
        assert(top == 60 * self.idx + 10) by (nonlinear_arith)
            requires
                top == (self.idx as u64) * 240 / 4 + 10,
                self.idx <= MAX_ITEM_INDEX,
        ;
        let start = Point::new(10, top as i32);
        let end = Point::new(
            start.x + WIDTH as i32 - 20,
            start.y + (HEIGHT as i32 / GRID_ITEMS as i32) - 20,
        );
        (start, end)
    }

    /// Where the label's text is anchored: centred across the canvas, 40
    /// pixels below the top of the row.
    pub fn label_anchor(&self) -> (r: Point)
        ensures
            r.x == WIDTH as int / 2,
            r.y == self.spec_index() as int * row_height() + 40,
    {
        proof {
            use_type_invariant(self);
        }
        assert(self.idx * 60 <= MAX_ITEM_INDEX * 60) by (nonlinear_arith)
            requires
                self.idx <= MAX_ITEM_INDEX,
        ;
        let y: u64 = (self.idx as u64) * ((HEIGHT / GRID_ITEMS) as u64) + 40;
        Point::new((WIDTH / 2) as i32, y as i32)
    }

    /// A single tap inside the band, edges included, selects the row.
    pub fn is_clicked(&self, event: InputEvent) -> (r: bool)
        ensures
            r == tap_in(event, self.rect()),
    {
        if let InputEvent::Touch(TouchGesture::SingleTap(pos)) = event {
            let (c1, c2) = self.placement();
            c1.x <= pos.x && c1.y <= pos.y && c2.x >= pos.x && c2.y >= pos.y
        } else {
            false
        }
    }
}

/// The quadrant control `idx` occupies: four fixed boxes in a 2 x 2 layout,
/// and an empty box at the origin for any other index.
pub open spec fn control_rect(idx: int) -> (Point, Point) {
    let left = 20int;
    let right = WIDTH as int / 2 + 10;
    let upper = 20int;
    let lower = HEIGHT as int / 2 + 50;
    let w = WIDTH as int / 2 - 10 - 20;
    let h = HEIGHT as int / 4 - 10;
    if idx == 0 {
        (Point { x: left as i32, y: upper as i32 }, Point { x: (left + w) as i32, y: (upper + h) as i32 })
    } else if idx == 1 {
        (Point { x: right as i32, y: upper as i32 }, Point { x: (WIDTH - 20) as i32, y: (upper + h) as i32 })
    } else if idx == 2 {
        (Point { x: left as i32, y: lower as i32 }, Point { x: (left + w) as i32, y: (lower + h) as i32 })
    } else if idx == 3 {
        (Point { x: right as i32, y: lower as i32 }, Point { x: (WIDTH - 20) as i32, y: (lower + h) as i32 })
    } else {
        (Point { x: 0, y: 0 }, Point { x: 0, y: 0 })
    }
}

/// A labelled box in one of the four quadrants of a control grid.
#[derive(Debug, Clone, Copy, PartialEq, Eq)]
pub struct MenuControl {
    text: &'static str,
    idx: u32,
}

impl MenuControl {
    pub closed spec fn spec_label(&self) -> Seq<char> {
        self.text@
    }

    pub closed spec fn spec_index(&self) -> u32 {
        self.idx
    }

    /// The box that this control occupies.
    pub open spec fn rect(&self) -> (Point, Point) {
        control_rect(self.spec_index() as int)
    }

    /// Only the four quadrant indices can be hit.
    pub open spec fn hit(&self, event: InputEvent) -> bool {
        self.spec_index() <= 3 && tap_in(event, self.rect())
    }

    /// The control built from `text` and `idx`.
    pub closed spec fn spec_new(text: &'static str, idx: u32) -> MenuControl {
        MenuControl { text, idx }
    }

    pub broadcast proof fn lemma_spec_new(text: &'static str, idx: u32)
        ensures
            #[trigger] MenuControl::spec_new(text, idx).spec_label() == text@,
            MenuControl::spec_new(text, idx).spec_index() == idx,
    {
    }

    pub fn new(text: &'static str, idx: u32) -> (r: MenuControl)
        ensures
            r == MenuControl::spec_new(text, idx),
            r.spec_label() == text@,
            r.spec_index() == idx,
    {
        MenuControl { text, idx }
    }

    pub fn label(&self) -> (r: &'static str)
        ensures
            r@ == self.spec_label(),
    {
        self.text
    }

    pub fn index(&self) -> (r: u32)
        ensures
            r == self.spec_index(),
    {
        self.idx
    }

    /// Top-left and bottom-right corners of the control's box.
    pub fn placement(&self) -> (r: (Point, Point))
        ensures
            r == self.rect(),
    {
        match self.idx {
            0 => {
                let start = Point::new(20, 20);
                let end = Point::new(WIDTH as i32 / 2 - 10, start.y + HEIGHT as i32 / 4 - 10);
                (start, end)
            },
            1 => {
                let start = Point::new(WIDTH as i32 / 2 + 10, 20);
                let end = Point::new(WIDTH as i32 - 20, start.y + HEIGHT as i32 / 4 - 10);
                (start, end)
            },
            2 => {
                let start = Point::new(20, HEIGHT as i32 / 2 + 50);
                let end = Point::new(WIDTH as i32 / 2 - 10, start.y + HEIGHT as i32 / 4 - 10);
                (start, end)
            },
            3 => {
                let start = Point::new(WIDTH as i32 / 2 + 10, HEIGHT as i32 / 2 + 50);
                let end = Point::new(WIDTH as i32 - 20, start.y + HEIGHT as i32 / 4 - 10);
                (start, end)
            },
            _ => (Point::new(0, 0), Point::new(0, 0)),
        }
    }

    /// Where the label's text is anchored: the centre of the box, 8 pixels
    /// lower.
    pub fn label_anchor(&self) -> (r: Point)
        ensures
            r.x == (self.rect().0.x + self.rect().1.x) / 2,
            r.y == (self.rect().0.y + self.rect().1.y) / 2 + 8,
    {
        let (start, end) = self.placement();
        Point::new((start.x + end.x) / 2, (start.y + end.y) / 2 + 8)
    }

    /// A single tap inside the box, edges included, selects the control; a
    /// control with an index outside the four quadrants is never selected.
    pub fn is_clicked(&self, event: InputEvent) -> (r: bool)
        ensures
            r == self.hit(event),
    {
        if self.idx > 3 {
            return false;
        }
        if let InputEvent::Touch(TouchGesture::SingleTap(pos)) = event {
            let (c1, c2) = self.placement();
            c1.x <= pos.x && c1.y <= pos.y && c2.x >= pos.x && c2.y >= pos.y
        } else {
            false
        }
    }
}

/// Each of the four rows of a list menu lies on the canvas, and no two rows
/// share a point.
pub proof fn lemma_item_rows_on_canvas_and_apart(i: u32, j: u32)
    requires
        i < 4,
        j < 4,
        i != j,
    ensures
        on_canvas(item_rect(i as int).0, item_rect(i as int).1),
        disjoint(item_rect(i as int), item_rect(j as int)),
{
    lemma_separated_disjoint(item_rect(i as int), item_rect(j as int));
}

/// A control in one of the four quadrants occupies one of four fixed boxes
/// that lie on the canvas and share no point; which box depends on its index
/// alone, not on its label or on the screen that holds it.
pub proof fn lemma_control_quadrants(i: u32, j: u32, a: &'static str, b: &'static str)
    requires
        i < 4,
        j < 4,
        i != j,
    ensures
        control_rect(0) == (Point { x: 20, y: 20 }, Point { x: 110, y: 70 }),
        control_rect(1) == (Point { x: 130, y: 20 }, Point { x: 220, y: 70 }),
        control_rect(2) == (Point { x: 20, y: 170 }, Point { x: 110, y: 220 }),
        control_rect(3) == (Point { x: 130, y: 170 }, Point { x: 220, y: 220 }),
        on_canvas(control_rect(i as int).0, control_rect(i as int).1),
        disjoint(control_rect(i as int), control_rect(j as int)),
        MenuControl::spec_new(a, i).rect() == MenuControl::spec_new(b, i).rect(),
{
    lemma_separated_disjoint(control_rect(i as int), control_rect(j as int));
}

/// A tap strictly inside a row's band selects it, a tap outside does not,
/// and both corners count as inside.
pub proof fn lemma_item_tap_bounds(item: MenuItem, p: Point)
    requires
        item.spec_index() <= MAX_ITEM_INDEX,
    ensures
        strictly_within(p, item.rect().0, item.rect().1) ==> tap_in(
            InputEvent::Touch(TouchGesture::SingleTap(p)),
            item.rect(),
        ),
        !within(p, item.rect().0, item.rect().1) ==> !tap_in(
            InputEvent::Touch(TouchGesture::SingleTap(p)),
            item.rect(),
        ),
        tap_in(InputEvent::Touch(TouchGesture::SingleTap(item.rect().0)), item.rect()),
        tap_in(InputEvent::Touch(TouchGesture::SingleTap(item.rect().1)), item.rect()),
{
}

/// A tap strictly inside a quadrant control's box selects it, a tap outside
/// does not, and both corners count as inside.
pub proof fn lemma_control_tap_bounds(control: MenuControl, p: Point)
    requires
        control.spec_index() <= 3,
    ensures
        strictly_within(p, control.rect().0, control.rect().1) ==> control.hit(
            InputEvent::Touch(TouchGesture::SingleTap(p)),
        ),
        !within(p, control.rect().0, control.rect().1) ==> !control.hit(
            InputEvent::Touch(TouchGesture::SingleTap(p)),
        ),
        control.hit(InputEvent::Touch(TouchGesture::SingleTap(control.rect().0))),
        control.hit(InputEvent::Touch(TouchGesture::SingleTap(control.rect().1))),
{
}

/// A control with an index outside the four quadrants is never selected.
pub proof fn lemma_stray_control_never_hit(control: MenuControl, event: InputEvent)
    requires
        control.spec_index() > 3,
    ensures
        !control.hit(event),
{
}

/// Double taps and swipes select no row and no control, wherever they land.
pub proof fn lemma_only_taps_select(event: InputEvent, item: MenuItem, control: MenuControl)
    requires
        !is_single_tap(event),
    ensures
        !tap_in(event, item.rect()),
        !control.hit(event),
{
}

} // verus!
