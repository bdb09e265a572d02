//! Geometry primitives: points, quarter-turn transforms and the shapes a
//! scene is drawn from.
//!
//! Every length is an exact integer number of units, [`UNITS_PER_PIXEL`] to a
//! pixel.

use vstd::prelude::*;

verus! {

/// Length units per pixel. A twentieth of a pixel is fine enough to hold the
/// halves, the 0.35 and the 0.6 of a cell exactly, whatever the cell size.
pub const UNITS_PER_PIXEL: i64 = 20;

/// Coordinates up to this magnitude leave room to add any length of a board.
pub const COORD_LIMIT: i64 = 0x4000_0000_0000_0000;

/// A point, in units.
#[derive(Clone, Copy, Debug, PartialEq, Eq, Structural)]
pub struct Point {
    pub x: i64,
    pub y: i64,
}

impl Point {
    /// Both coordinates are within [`COORD_LIMIT`] of zero.
    pub open spec fn in_range(self) -> bool {
        &&& -COORD_LIMIT <= self.x <= COORD_LIMIT
        &&& -COORD_LIMIT <= self.y <= COORD_LIMIT
    }

    /// The point moved by `(dx, dy)` fits the coordinate type.
    pub open spec fn can_shift(self, dx: int, dy: int) -> bool {
        &&& i64::MIN <= self.x + dx <= i64::MAX
        &&& i64::MIN <= self.y + dy <= i64::MAX
    }

    /// The point moved by `(dx, dy)`.
    pub open spec fn shifted(self, dx: int, dy: int) -> Point {
        Point { x: (self.x + dx) as i64, y: (self.y + dy) as i64 }
    }

    pub fn new(x: i64, y: i64) -> (p: Point)
        ensures
            p == (Point { x, y }),
    {
        Point { x, y }
    }

    /// The point moved by `(dx, dy)`.
    pub fn offset(&self, dx: i64, dy: i64) -> (p: Point)
        requires
            self.can_shift(dx as int, dy as int),
        ensures
            p == self.shifted(dx as int, dy as int),
    {
        Point { x: self.x + dx, y: self.y + dy }
    }
}

/// A rotation about the origin by a whole number of quarter turns, followed
/// by a translation. A positive turn takes the positive x direction into the
/// positive y direction.
#[derive(Clone, Copy, Debug, PartialEq, Eq, Structural)]
pub struct Transform {
    /// Quarter turns, 0 to 3.
    pub quarter_turns: u8,
    /// Translation applied after the rotation, in units.
    pub dx: i64,
    pub dy: i64,
}

impl Transform {
    /// Where the transform takes the point `(x, y)`.
    pub open spec fn image(self, x: int, y: int) -> (int, int) {
        let turns = self.quarter_turns % 4;
        if turns == 0 {
            (x + self.dx, y + self.dy)
        } else if turns == 1 {
            (-y + self.dx, x + self.dy)
        } else if turns == 2 {
            (-x + self.dx, -y + self.dy)
        } else {
            (y + self.dx, -x + self.dy)
        }
    }

    /// The transform that leaves every point in place.
    pub fn identity() -> (t: Transform)
        ensures
            t == (Transform { quarter_turns: 0, dx: 0, dy: 0 }),
    {
        Transform { quarter_turns: 0, dx: 0, dy: 0 }
    }

    /// The rotation about the origin by `quarter_turns` quarter turns.
    pub fn rotate(quarter_turns: u8) -> (t: Transform)
        ensures
            t == (Transform { quarter_turns: quarter_turns % 4, dx: 0, dy: 0 }),
    {
        Transform { quarter_turns: quarter_turns % 4, dx: 0, dy: 0 }
    }

    /// This transform followed by a translation by `(dx, dy)`.
    pub fn then_translate(self, dx: i64, dy: i64) -> (t: Transform)
        requires
            i64::MIN <= self.dx + dx <= i64::MAX,
            i64::MIN <= self.dy + dy <= i64::MAX,
        ensures
            t == (Transform {
                quarter_turns: self.quarter_turns,
                dx: (self.dx + dx) as i64,
                dy: (self.dy + dy) as i64,
            }),
    {
        Transform { quarter_turns: self.quarter_turns, dx: self.dx + dx, dy: self.dy + dy }
    }
}

/// An axis-aligned rectangle, by two opposite corners.
#[derive(Clone, Copy, Debug, PartialEq, Eq, Structural)]
pub struct Rect {
    pub x0: i64,
    pub y0: i64,
    pub x1: i64,
    pub y1: i64,
}

impl Rect {
    /// The rectangle with one corner at `origin` and the opposite one
    /// `(width, height)` further.
    pub open spec fn spanning(origin: Point, width: int, height: int) -> Rect {
        Rect {
            x0: origin.x,
            y0: origin.y,
            x1: (origin.x + width) as i64,
            y1: (origin.y + height) as i64,
        }
    }

    /// The rectangle with one corner at `origin` and the opposite one
    /// `(width, height)` further.
    pub fn from_origin_size(origin: Point, width: i64, height: i64) -> (r: Rect)
        requires
            origin.can_shift(width as int, height as int),
        ensures
            r == Rect::spanning(origin, width as int, height as int),
    {
        Rect { x0: origin.x, y0: origin.y, x1: origin.x + width, y1: origin.y + height }
    }

    /// The midpoint of the rectangle, exact where both sides are of even
    /// length and rounded down to a whole unit elsewhere.
    pub open spec fn midpoint(self) -> Point {
        Point { x: ((self.x0 + self.x1) / 2) as i64, y: ((self.y0 + self.y1) / 2) as i64 }
    }
}

/// A triangle, by its three vertices.
#[derive(Clone, Copy, Debug, PartialEq, Eq, Structural)]
pub struct Triangle {
    pub a: Point,
    pub b: Point,
    pub c: Point,
}

impl Triangle {
    pub fn new(a: Point, b: Point, c: Point) -> (t: Triangle)
        ensures
            t == (Triangle { a, b, c }),
    {
        Triangle { a, b, c }
    }
}

/// Where a circle is centred. The centre of a triangle's inscribed circle is
/// irrational in general, so it is named by its triangle and left to the
/// renderer to evaluate.
#[derive(Clone, Copy, Debug, PartialEq, Eq, Structural)]
pub enum Anchor {
    /// At a point.
    At(Point),
    /// At the centre of the inscribed circle of a triangle.
    Incenter(Triangle),
}

/// A circle, by centre and radius.
#[derive(Clone, Copy, Debug, PartialEq, Eq, Structural)]
pub struct Circle {
    pub center: Anchor,
    pub radius: i64,
}

impl Circle {
    pub fn new(center: Anchor, radius: i64) -> (c: Circle)
        ensures
            c == (Circle { center, radius }),
    {
        Circle { center, radius }
    }
}

/// One element of a path of straight segments.
#[derive(Clone, Copy, Debug, PartialEq, Eq, Structural)]
pub enum PathEl {
    /// Start a subpath at a point.
    MoveTo(Point),
    /// A straight segment from the current point.
    LineTo(Point),
    /// A straight segment back to the start of the subpath.
    ClosePath,
}

/// A path: a sequence of elements. Built by [`Path::move_to`],
/// [`Path::line_to`] and [`Path::close_path`] it begins, unless empty, with a
/// [`PathEl::MoveTo`].
#[derive(Debug, PartialEq, Eq)]
pub struct Path {
    elements: Vec<PathEl>,
}

impl View for Path {
    type V = Seq<PathEl>;

    closed spec fn view(&self) -> Seq<PathEl> {
        self.elements@
    }
}

impl Path {
    /// The empty path.
    pub fn new() -> (p: Path)
        ensures
            p@ == Seq::<PathEl>::empty(),
    {
        Path { elements: Vec::new() }
    }

    /// Starts a subpath at `p`.
    pub fn move_to(&mut self, p: Point)
        ensures
            final(self)@ == old(self)@.push(PathEl::MoveTo(p)),
    {
        self.elements.push(PathEl::MoveTo(p));
    }

    /// Adds a straight segment to `p`. The path must have been started.
    pub fn line_to(&mut self, p: Point)
        requires
            old(self)@.len() > 0,
        ensures
            final(self)@ == old(self)@.push(PathEl::LineTo(p)),
    {
        self.elements.push(PathEl::LineTo(p));
    }

    /// Closes the current subpath. The path must have been started.
    pub fn close_path(&mut self)
        requires
            old(self)@.len() > 0,
        ensures
            final(self)@ == old(self)@.push(PathEl::ClosePath),
    {
        self.elements.push(PathEl::ClosePath);
    }

    /// Number of elements.
    pub fn len(&self) -> (n: usize)
        ensures
            n == self@.len(),
    {
        self.elements.len()
    }

    /// The element at `index`, if there is one.
    pub fn get(&self, index: usize) -> (el: Option<PathEl>)
        ensures
            el == (if index < self@.len() {
                Some(self@[index as int])
            } else {
                None
            }),
    {
        if index < self.elements.len() {
            Some(self.elements[index])
        } else {
            None
        }
    }

    /// The elements, in order.
    pub fn elements(&self) -> (els: &[PathEl])
        ensures
            els@ == self@,
    {
        self.elements.as_slice()
    }
}

impl Clone for Path {
    fn clone(&self) -> (copy: Path)
        ensures
            copy@ == self@,
    {
        let mut elements: Vec<PathEl> = Vec::new();
        let mut i: usize = 0;
        while i < self.elements.len()
            invariant
                i <= self.elements.len(),
                elements@ == self.elements@.take(i as int),
            decreases self.elements.len() - i,
        {
            elements.push(self.elements[i]);
            i += 1;
        }
        assert(self.elements@.take(i as int) == self.elements@);
        Path { elements }
    }
}

/// A shape that can be filled.
#[derive(Debug, PartialEq, Eq)]
pub enum Shape {
    Rect(Rect),
    Circle(Circle),
    Triangle(Triangle),
    Path(Path),
}

/// What a [`Shape`] holds, with a path as the sequence of its elements.
pub enum ShapeView {
    Rect(Rect),
    Circle(Circle),
    Triangle(Triangle),
    Path(Seq<PathEl>),
}

impl View for Shape {
    type V = ShapeView;

    open spec fn view(&self) -> ShapeView {
        match self {
            Shape::Rect(r) => ShapeView::Rect(*r),
            Shape::Circle(c) => ShapeView::Circle(*c),
            Shape::Triangle(t) => ShapeView::Triangle(*t),
            Shape::Path(p) => ShapeView::Path(p@),
        }
    }
}

impl Clone for Shape {
    fn clone(&self) -> (copy: Shape)
        ensures
            copy@ == self@,
    {
        match self {
            Shape::Rect(r) => Shape::Rect(*r),
            Shape::Circle(c) => Shape::Circle(*c),
            Shape::Triangle(t) => Shape::Triangle(*t),
            Shape::Path(p) => Shape::Path(p.clone()),
        }
    }
}

} // verus!
