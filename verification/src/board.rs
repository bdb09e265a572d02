//! The board: four player quadrants, each the same local drawing under its
//! own quarter-turn transform. A quadrant is thirteen home-path cells followed
//! by the player's decoration.
//!
//! Local lengths are given in twentieths of a cell ([`CELL`] to a cell);
//! [`Config::span`] turns them into units.

use vstd::prelude::*;
use crate::color::{Color, Palette, PALETTE_SIZE};
use crate::error::PipelineError;
use crate::geometry::{
    Anchor, Circle, Path, PathEl, Point, Rect, Shape, ShapeView, Transform, Triangle,
    UNITS_PER_PIXEL,
};
use crate::scene::{DrawCommandView, Scene};

verus! {

/// Twentieths of a cell in one cell.
pub const CELL: i16 = 20;

/// Twentieths of a cell in half a cell.
pub const HALF_CELL: i16 = 10;

/// Radius of the small marker in a cell, in twentieths of a cell (0.35 cells).
pub const CELL_RADIUS: i16 = 7;

/// Radius of a large home marker, in twentieths of a cell (0.6 cells).
pub const PLAYER_RADIUS: i16 = 12;

/// Side of the board, in cells.
pub const BOARD_CELLS: i16 = 17;

/// Side of the board in pixels, per pixel of a cell's side.
pub const BOARD_PIXELS: u32 = 17;

/// Width of the outlines, in units (5 pixels).
pub const STROKE_WIDTH: i64 = 5 * UNITS_PER_PIXEL;

/// Number of players, one per corner of the board.
pub const PLAYERS: usize = 4;

/// Number of cells on one player's home path.
pub const HOME_CELLS: usize = 13;

/// Draw commands per cell: its base shape, then its marker.
pub const CELL_COMMANDS: usize = 2;

/// Draw commands of one player's decoration.
pub const DECORATION_COMMANDS: usize = 15;

/// Draw commands of one quadrant.
pub const QUADRANT_COMMANDS: usize = HOME_CELLS * CELL_COMMANDS + DECORATION_COMMANDS;

/// What a board is generated from.
#[derive(Clone, Copy, Debug, PartialEq, Eq)]
pub struct Config {
    /// Side of a cell, in pixels.
    pub cell_size: u32,
    /// The player colours.
    pub palette: Palette,
}

impl Config {
    /// The length of `twentieths` twentieths of a cell, in units.
    pub open spec fn span(self, twentieths: int) -> i64 {
        (twentieths * self.cell_size) as i64
    }

    /// The local point `(x, y)`, given in twentieths of a cell.
    pub open spec fn at(self, x: int, y: int) -> Point {
        Point { x: self.span(x), y: self.span(y) }
    }

    /// A board of cells `cell_size` pixels wide in the standard palette.
    pub fn new(cell_size: u32) -> (config: Config)
        ensures
            config.cell_size == cell_size,
            config.palette.entries@ == seq![Color::Red, Color::Yellow, Color::Blue, Color::Green],
    {
        Config { cell_size, palette: Palette::standard() }
    }

    /// The side of the board in pixels, or [`PipelineError::Conversion`]
    /// where it does not fit 32 bits.
    pub fn dimension(&self) -> (result: Result<u32, PipelineError>)
        ensures
            result is Ok <==> BOARD_CELLS * self.cell_size <= u32::MAX,
            result matches Ok(side) ==> side == BOARD_CELLS * self.cell_size,
            result matches Err(e) ==> e == PipelineError::Conversion,
    {
        match self.cell_size.checked_mul(BOARD_PIXELS) {
            Some(side) => Ok(side),
            None => Err(PipelineError::Conversion),
        }
    }

    /// The length of `twentieths` twentieths of a cell, in units.
    pub fn length(&self, twentieths: i16) -> (units: i64)
        ensures
            units == self.span(twentieths as int),
            units == twentieths * self.cell_size,
    {
        assert(-0x8000 * 0x1_0000_0000 <= twentieths * self.cell_size <= 0x8000 * 0x1_0000_0000)
            by (nonlinear_arith)
            requires
                -0x8000 <= twentieths <= 0x8000,
                0 <= self.cell_size <= 0x1_0000_0000,
        ;
        (twentieths as i64) * (self.cell_size as i64)
    }
}

/// The shape of a cell: a right triangle on half of a two-cell square, named
/// by the turn that takes `Triangle0` to it, or a block of one cell by two.
#[derive(Clone, Copy, Debug, PartialEq, Eq, Structural)]
pub enum CellKind {
    Triangle0,
    Triangle90,
    Triangle180,
    Triangle270,
    VBlock,
    HBlock,
}

/// One cell of a home path.
#[derive(Clone, Copy, Debug, PartialEq, Eq)]
pub struct Cell {
    pub kind: CellKind,
    pub color: Color,
    pub transform: Transform,
    pub origin: Point,
}

impl Cell {
    /// The triangle of a triangular cell: half of the two-cell square at the
    /// cell's origin, turned as the kind says.
    pub open spec fn triangle(self, config: Config) -> Option<Triangle> {
        let o = self.origin;
        let two = config.span(2 * CELL) as int;
        match self.kind {
            CellKind::Triangle0 => Some(
                Triangle { a: o, b: o.shifted(two, 0), c: o.shifted(0, two) },
            ),
            CellKind::Triangle90 => Some(
                Triangle { a: o, b: o.shifted(two, 0), c: o.shifted(two, two) },
            ),
            CellKind::Triangle180 => Some(
                Triangle { a: o, b: o.shifted(0, two), c: o.shifted(-two, two) },
            ),
            CellKind::Triangle270 => Some(
                Triangle { a: o, b: o.shifted(two, two), c: o.shifted(0, two) },
            ),
            _ => None,
        }
    }

    /// The rectangle of a block: one cell by two, upright or lying, from the
    /// cell's origin.
    pub open spec fn block(self, config: Config) -> Option<Rect> {
        let two = config.span(2 * CELL) as int;
        let one = config.span(CELL as int) as int;
        match self.kind {
            CellKind::VBlock => Some(Rect::spanning(self.origin, one, two)),
            CellKind::HBlock => Some(Rect::spanning(self.origin, two, one)),
            _ => None,
        }
    }

    /// The cell's base shape.
    pub open spec fn outline(self, config: Config) -> ShapeView {
        match self.triangle(config) {
            Some(t) => ShapeView::Triangle(t),
            None => ShapeView::Rect(self.block(config).unwrap()),
        }
    }

    /// Where the cell's marker sits: at the centre of the inscribed circle of
    /// a triangle, at the midpoint of a block.
    pub open spec fn marker_anchor(self, config: Config) -> Anchor {
        match self.triangle(config) {
            Some(t) => Anchor::Incenter(t),
            None => Anchor::At(self.block(config).unwrap().midpoint()),
        }
    }

    /// The cell's two draw commands: its base shape in its colour, then a
    /// white marker over it.
    pub open spec fn commands(self, config: Config) -> Seq<DrawCommandView> {
        seq![
            DrawCommandView::Fill {
                transform: self.transform,
                color: self.color,
                shape: self.outline(config),
            },
            DrawCommandView::Fill {
                transform: self.transform,
                color: Color::White,
                shape: ShapeView::Circle(
                    Circle {
                        center: self.marker_anchor(config),
                        radius: config.span(CELL_RADIUS as int),
                    },
                ),
            },
        ]
    }

    pub fn new(kind: CellKind, color: Color, transform: Transform, origin: Point) -> (cell: Cell)
        ensures
            cell == (Cell { kind, color, transform, origin }),
    {
        Cell { kind, color, transform, origin }
    }

    /// Paints the cell: appends its base shape and then its marker.
    pub fn draw(&self, config: &Config, scene: &mut Scene)
        requires
            self.origin.in_range(),
        ensures
            final(scene)@ == old(scene)@ + self.commands(*config),
    {
        let origin = self.origin;
        let dim = config.length(CELL);
        let dim_x2 = config.length(2 * CELL);
        let half = config.length(HALF_CELL);
        let anchor = match self.kind {
            CellKind::Triangle0 => {
                let shape = Triangle::new(
                    origin,
                    origin.offset(dim_x2, 0),
                    origin.offset(0, dim_x2),
                );
                scene.fill(self.transform, self.color, &Shape::Triangle(shape));
                Anchor::Incenter(shape)
            },
            CellKind::Triangle90 => {
                let shape = Triangle::new(
                    origin,
                    origin.offset(dim_x2, 0),
                    origin.offset(dim_x2, dim_x2),
                );
                scene.fill(self.transform, self.color, &Shape::Triangle(shape));
                Anchor::Incenter(shape)
            },
            CellKind::Triangle180 => {
                let shape = Triangle::new(
                    origin,
                    origin.offset(0, dim_x2),
                    origin.offset(-dim_x2, dim_x2),
                );
                scene.fill(self.transform, self.color, &Shape::Triangle(shape));
                Anchor::Incenter(shape)
            },
            CellKind::Triangle270 => {
                let shape = Triangle::new(
                    origin,
                    origin.offset(dim_x2, dim_x2),
                    origin.offset(0, dim_x2),
                );
                scene.fill(self.transform, self.color, &Shape::Triangle(shape));
                Anchor::Incenter(shape)
            },
            CellKind::VBlock => {
                let shape = Rect::from_origin_size(origin, dim, dim_x2);
                scene.fill(self.transform, self.color, &Shape::Rect(shape));
                Anchor::At(origin.offset(half, dim))
            },
            CellKind::HBlock => {
                let shape = Rect::from_origin_size(origin, dim_x2, dim);
                scene.fill(self.transform, self.color, &Shape::Rect(shape));
                Anchor::At(origin.offset(dim, half))
            },
        };
        let marker = Circle::new(anchor, config.length(CELL_RADIUS));
        scene.fill(self.transform, Color::White, &Shape::Circle(marker));
        assert(scene@ =~= old(scene)@ + self.commands(*config));
    }
}

/// A player: the colour and the transform of one quadrant.
#[derive(Clone, Copy, Debug, PartialEq, Eq)]
pub struct Player {
    pub color: Color,
    pub transform: Transform,
}

/// A white disc of `radius` twentieths of a cell around the local point
/// `(x, y)`.
pub open spec fn white_disc(
    config: Config,
    transform: Transform,
    x: int,
    y: int,
    radius: int,
) -> DrawCommandView {
    DrawCommandView::Fill {
        transform,
        color: Color::White,
        shape: ShapeView::Circle(
            Circle { center: Anchor::At(config.at(x, y)), radius: config.span(radius) },
        ),
    }
}

/// A black outline along `path`.
pub open spec fn black_outline(transform: Transform, path: Seq<PathEl>) -> DrawCommandView {
    DrawCommandView::Stroke { width: STROKE_WIDTH, transform, color: Color::Black, path }
}

/// The outer boundary of the home path: from the left edge, six cells down,
/// in steps to the top edge, eleven cells along.
pub open spec fn outer_boundary(config: Config) -> Seq<PathEl> {
    seq![
        PathEl::MoveTo(config.at(0, 6 * CELL)),
        PathEl::LineTo(config.at(2 * CELL, 4 * CELL)),
        PathEl::LineTo(config.at(4 * CELL, 4 * CELL)),
        PathEl::LineTo(config.at(4 * CELL, 2 * CELL)),
        PathEl::LineTo(config.at(6 * CELL, 0)),
        PathEl::LineTo(config.at(11 * CELL, 0)),
    ]
}

/// The inner boundary of the home path, two cells inside the outer one.
pub open spec fn inner_boundary(config: Config) -> Seq<PathEl> {
    seq![
        PathEl::MoveTo(config.at(2 * CELL, 6 * CELL)),
        PathEl::LineTo(config.at(6 * CELL, 6 * CELL)),
        PathEl::LineTo(config.at(6 * CELL, 2 * CELL)),
        PathEl::LineTo(config.at(11 * CELL, 2 * CELL)),
    ]
}

/// The finish lane: a bar five cells long and one cell high with an
/// arrowhead three cells high at its end, pointing at the centre of the
/// board.
pub open spec fn finish_arrow(config: Config) -> Seq<PathEl> {
    seq![
        PathEl::MoveTo(config.at(2 * CELL, 8 * CELL)),
        PathEl::LineTo(config.at(7 * CELL, 8 * CELL)),
        PathEl::LineTo(config.at(7 * CELL, 7 * CELL)),
        PathEl::LineTo(config.at(8 * CELL + HALF_CELL, 8 * CELL + HALF_CELL)),
        PathEl::LineTo(config.at(7 * CELL, 10 * CELL)),
        PathEl::LineTo(config.at(7 * CELL, 9 * CELL)),
        PathEl::LineTo(config.at(2 * CELL, 9 * CELL)),
        PathEl::ClosePath,
    ]
}

impl Player {
    /// The player's decoration, in painting order: the four-cell home square
    /// in the player's colour, four large white spawn markers at the centres
    /// of its quarters, the two black boundaries of the home path, the finish
    /// arrow filled in the player's colour and outlined in black, and six
    /// small white markers along the finish lane.
    pub open spec fn decoration(self, config: Config) -> Seq<DrawCommandView> {
        let t = self.transform;
        seq![
            DrawCommandView::Fill {
                transform: t,
                color: self.color,
                shape: ShapeView::Rect(
                    Rect::spanning(
                        Point { x: 0, y: 0 },
                        config.span(4 * CELL) as int,
                        config.span(4 * CELL) as int,
                    ),
                ),
            },
            white_disc(config, t, 1 * CELL, 1 * CELL, PLAYER_RADIUS as int),
            white_disc(config, t, 1 * CELL, 3 * CELL, PLAYER_RADIUS as int),
            white_disc(config, t, 3 * CELL, 1 * CELL, PLAYER_RADIUS as int),
            white_disc(config, t, 3 * CELL, 3 * CELL, PLAYER_RADIUS as int),
            black_outline(t, outer_boundary(config)),
            black_outline(t, inner_boundary(config)),
            DrawCommandView::Fill {
                transform: t,
                color: self.color,
                shape: ShapeView::Path(finish_arrow(config)),
            },
            black_outline(t, finish_arrow(config)),
            white_disc(config, t, 2 * CELL + HALF_CELL, 8 * CELL + HALF_CELL, CELL_RADIUS as int),
            white_disc(config, t, 3 * CELL + HALF_CELL, 8 * CELL + HALF_CELL, CELL_RADIUS as int),
            white_disc(config, t, 4 * CELL + HALF_CELL, 8 * CELL + HALF_CELL, CELL_RADIUS as int),
            white_disc(config, t, 5 * CELL + HALF_CELL, 8 * CELL + HALF_CELL, CELL_RADIUS as int),
            white_disc(config, t, 6 * CELL + HALF_CELL, 8 * CELL + HALF_CELL, CELL_RADIUS as int),
            white_disc(config, t, 7 * CELL + HALF_CELL, 8 * CELL + HALF_CELL, CELL_RADIUS as int),
        ]
    }

    pub fn new(color: Color, transform: Transform) -> (player: Player)
        ensures
            player == (Player { color, transform }),
    {
        Player { color, transform }
    }

    /// The palette colour a running index selects.
    pub fn color(config: &Config, index: usize) -> (c: Color)
        ensures
            c == config.palette.pick(index as int),
            c == config.palette.entries@[index as int % 4],
    {
        config.palette.color(index)
    }

    /// Paints the player's decoration.
    pub fn draw(&self, config: &Config, scene: &mut Scene)
        ensures
            final(scene)@ == old(scene)@ + self.decoration(*config),
    {
        let dim = config.length(CELL);
        let dim_x2 = config.length(2 * CELL);
        let dim_x4 = config.length(4 * CELL);
        let dim_x5 = config.length(5 * CELL);
        let radius = config.length(PLAYER_RADIUS);
        let home = Rect::from_origin_size(Point::new(0, 0), dim_x4, dim_x4);
        scene.fill(self.transform, self.color, &Shape::Rect(home));
        let p = Point::new(dim, dim);
        let centers = [p, p.offset(0, dim_x2), p.offset(dim_x2, 0), p.offset(dim_x2, dim_x2)];
        let mut i: usize = 0;
        while i < 4
            invariant
                i <= 4,
                centers@ == seq![
                    config.at(1 * CELL, 1 * CELL),
                    config.at(1 * CELL, 3 * CELL),
                    config.at(3 * CELL, 1 * CELL),
                    config.at(3 * CELL, 3 * CELL),
                ],
                radius == config.span(PLAYER_RADIUS as int),
                scene@ == old(scene)@ + self.decoration(*config).take(1 + i),
            decreases 4 - i,
        {
            let marker = Circle::new(Anchor::At(centers[i]), radius);
            scene.fill(self.transform, Color::White, &Shape::Circle(marker));
            i += 1;
        }

        let mut p = Point::new(0, dim_x4 + dim_x2);
        let mut path = Path::new();
        path.move_to(p);
        p = p.offset(dim_x2, -dim_x2);
        path.line_to(p);
        p = p.offset(dim_x2, 0);
        path.line_to(p);
        p = p.offset(0, -dim_x2);
        path.line_to(p);
        p = p.offset(dim_x2, -dim_x2);
        path.line_to(p);
        p = p.offset(dim_x5, 0);
        path.line_to(p);
        assert(path@ =~= outer_boundary(*config));
        scene.stroke(STROKE_WIDTH, self.transform, Color::Black, &path);

        let mut path = Path::new();
        let mut p = Point::new(dim_x2, dim_x4 + dim_x2);
        path.move_to(p);
        p = p.offset(dim_x4, 0);
        path.line_to(p);
        p = p.offset(0, -dim_x4);
        path.line_to(p);
        p = p.offset(dim_x5, 0);
        path.line_to(p);
        assert(path@ =~= inner_boundary(*config));
        scene.stroke(STROKE_WIDTH, self.transform, Color::Black, &path);

        let tip = config.length(CELL + HALF_CELL);
        let mut path = Path::new();
        let mut p = Point::new(dim_x2, dim_x4 + dim_x4);
        path.move_to(p);
        p = p.offset(dim_x5, 0);
        path.line_to(p);
        p = p.offset(0, -dim);
        path.line_to(p);
        assert(tip == 30 * config.cell_size);
        assert(config.span(8 * CELL + HALF_CELL) == 170 * config.cell_size);
        path.line_to(p.offset(tip, tip));
        p = p.offset(0, dim + dim_x2);
        path.line_to(p);
        p = p.offset(0, -dim);
        path.line_to(p);
        p = p.offset(-dim_x5, 0);
        path.line_to(p);
        path.close_path();
        assert(path@ =~= finish_arrow(*config));
        scene.fill(self.transform, self.color, &Shape::Path(path.clone()));
        scene.stroke(STROKE_WIDTH, self.transform, Color::Black, &path);
        assert(scene@ =~= old(scene)@ + self.decoration(*config).take(9));

        let small = config.length(CELL_RADIUS);
        let lane = config.length(8 * CELL + HALF_CELL);
        let mut p = Point::new(config.length(2 * CELL + HALF_CELL), lane);
        let mut k: usize = 0;
        while k < 6
            invariant
                k <= 6,
                dim == config.span(CELL as int),
                small == config.span(CELL_RADIUS as int),
                p == config.at((2 + k) * CELL + HALF_CELL, 8 * CELL + HALF_CELL),
                scene@ == old(scene)@ + self.decoration(*config).take(9 + k),
            decreases 6 - k,
        {
            let marker = Circle::new(Anchor::At(p), small);
            scene.fill(self.transform, Color::White, &Shape::Circle(marker));
            proof {
                let c = config.cell_size as int;
                assert(0 <= ((2 + k) * 20 + 10) * c <= 170 * 0x1_0000_0000) by (nonlinear_arith)
                    requires
                        0 <= k < 6,
                        0 <= c <= 0x1_0000_0000,
                ;
                assert(((2 + k) * 20 + 10) * c + 20 * c == ((2 + (k + 1)) * 20 + 10) * c)
                    by (nonlinear_arith);
            }
            p = p.offset(dim, 0);
            k += 1;
        }
        assert(self.decoration(*config).take(15) =~= self.decoration(*config));
    }
}

/// Something that can be painted: a cell or a player's decoration.
#[derive(Clone, Copy, Debug, PartialEq, Eq)]
pub enum Drawable {
    Player(Player),
    Cell(Cell),
}

impl Drawable {
    /// The draw commands of the entity, in painting order.
    pub open spec fn commands(self, config: Config) -> Seq<DrawCommandView> {
        match self {
            Drawable::Player(player) => player.decoration(config),
            Drawable::Cell(cell) => cell.commands(config),
        }
    }

    /// Paints the entity: appends its draw commands to the scene.
    pub fn draw(&self, config: &Config, scene: &mut Scene)
        requires
            self matches Drawable::Cell(cell) ==> cell.origin.in_range(),
        ensures
            final(scene)@ == old(scene)@ + self.commands(*config),
    {
        match self {
            Drawable::Player(player) => player.draw(config, scene),
            Drawable::Cell(cell) => cell.draw(config, scene),
        }
    }
}

/// The kind of the `k`-th cell of a home path.
pub open spec fn home_kind(k: int) -> CellKind {
    if k == 0 || k == 7 {
        CellKind::Triangle180
    } else if k == 3 {
        CellKind::Triangle270
    } else if k == 4 {
        CellKind::Triangle90
    } else if k == 5 || k == 6 {
        CellKind::HBlock
    } else {
        CellKind::VBlock
    }
}

/// The local origin of the `k`-th cell of a home path, in cells: two cells
/// at (2, 4), three at (3, 4), one each at (3, 3) and (3, 2), two at (5, 0),
/// and from there one per cell along the top edge.
pub open spec fn home_origin(k: int) -> (int, int) {
    if k <= 1 {
        (2, 4)
    } else if k <= 4 {
        (3, 4)
    } else if k == 5 {
        (3, 3)
    } else if k == 6 {
        (3, 2)
    } else if k == 7 {
        (5, 0)
    } else {
        (k - 3, 0)
    }
}

/// The transform of player `i`'s quadrant: `i` quarter turns about the
/// origin, then a shift that brings the turned quadrant back onto the board,
/// into its own corner.
pub open spec fn seat_transform(config: Config, i: int) -> Transform {
    let side = config.span(BOARD_CELLS * CELL);
    Transform {
        quarter_turns: i as u8,
        dx: if i == 1 || i == 2 {
            side
        } else {
            0
        },
        dy: if i == 2 || i == 3 {
            side
        } else {
            0
        },
    }
}

/// Player `i`.
pub open spec fn seat(config: Config, i: int) -> Player {
    Player { color: config.palette.entries@[i], transform: seat_transform(config, i) }
}

/// The `k`-th cell of the home path of player `i`, placed by `transform`.
/// Colours run through the palette from index `i + 3`, one step per cell.
pub open spec fn home_cell(config: Config, transform: Transform, i: int, k: int) -> Cell {
    Cell {
        kind: home_kind(k),
        color: config.palette.pick(i + PALETTE_SIZE - 1 + k),
        transform,
        origin: config.at(home_origin(k).0 * CELL, home_origin(k).1 * CELL),
    }
}

/// The home path of player `i`, placed by `transform`.
pub open spec fn home_path(config: Config, transform: Transform, i: int) -> Seq<Cell> {
    Seq::new(HOME_CELLS as nat, |k: int| home_cell(config, transform, i, k))
}

/// The draw commands of `cells`, cell after cell.
pub open spec fn cells_commands(config: Config, cells: Seq<Cell>) -> Seq<DrawCommandView> {
    Seq::new(
        cells.len() * CELL_COMMANDS as nat,
        |j: int| cells[j / CELL_COMMANDS as int].commands(config)[j % CELL_COMMANDS as int],
    )
}

/// The draw commands of player `i`'s quadrant: the cells of the home path
/// first, the decoration after them.
pub open spec fn quadrant(config: Config, i: int) -> Seq<DrawCommandView> {
    cells_commands(config, home_path(config, seat_transform(config, i), i)) + seat(
        config,
        i,
    ).decoration(config)
}

/// The draw commands of the first `n` quadrants, player after player.
pub open spec fn quadrants(config: Config, n: int) -> Seq<DrawCommandView>
    decreases n,
{
    if n <= 0 {
        Seq::empty()
    } else {
        quadrants(config, n - 1) + quadrant(config, n - 1)
    }
}

/// The draw commands of the whole board.
pub open spec fn board(config: Config) -> Seq<DrawCommandView> {
    quadrants(config, PLAYERS as int)
}

impl Player {
    /// The four players, each with its palette colour and its transform.
    pub fn seats(config: &Config) -> (players: [Player; 4])
        ensures
            forall|i: int| 0 <= i < PLAYERS ==> players@[i] == seat(*config, i),
    {
        let side = config.length(BOARD_CELLS * CELL);
        [
            Player::new(config.palette.entries[0], Transform::identity()),
            Player::new(config.palette.entries[1], Transform::rotate(1).then_translate(side, 0)),
            Player::new(
                config.palette.entries[2],
                Transform::rotate(2).then_translate(side, side),
            ),
            Player::new(config.palette.entries[3], Transform::rotate(3).then_translate(0, side)),
        ]
    }

    /// The thirteen cells of the home path of this player, the `i`-th, laid
    /// out step by step from the first cell's origin with a running palette
    /// index.
    pub fn home_cells(&self, config: &Config, i: usize) -> (cells: Vec<Cell>)
        requires
            i < PLAYERS,
        ensures
            cells@ == home_path(*config, self.transform, i as int),
    {
        let dim = config.length(CELL);
        let dim_x2 = config.length(2 * CELL);
        let dim_x4 = config.length(4 * CELL);
        let mut cells: Vec<Cell> = Vec::new();
        let mut origin = Point::new(dim_x2, dim_x4);
        let mut color_index = i + PALETTE_SIZE - 1;
        cells.push(
            Cell::new(
                CellKind::Triangle180,
                Player::color(config, color_index),
                self.transform,
                origin,
            ),
        );
        color_index += 1;
        cells.push(
            Cell::new(CellKind::VBlock, Player::color(config, color_index), self.transform, origin),
        );
        origin = origin.offset(dim, 0);
        color_index += 1;
        cells.push(
            Cell::new(CellKind::VBlock, Player::color(config, color_index), self.transform, origin),
        );
        color_index += 1;
        cells.push(
            Cell::new(
                CellKind::Triangle270,
                Player::color(config, color_index),
                self.transform,
                origin,
            ),
        );
        color_index += 1;
        cells.push(
            Cell::new(
                CellKind::Triangle90,
                Player::color(config, color_index),
                self.transform,
                origin,
            ),
        );
        origin = origin.offset(0, -dim);
        color_index += 1;
        cells.push(
            Cell::new(CellKind::HBlock, Player::color(config, color_index), self.transform, origin),
        );
        origin = origin.offset(0, -dim);
        color_index += 1;
        cells.push(
            Cell::new(CellKind::HBlock, Player::color(config, color_index), self.transform, origin),
        );
        origin = origin.offset(dim_x2, -dim_x2);
        color_index += 1;
        cells.push(
            Cell::new(
                CellKind::Triangle180,
                Player::color(config, color_index),
                self.transform,
                origin,
            ),
        );
        proof {
            let path = home_path(*config, self.transform, i as int);
            assert(dim == 20 * config.cell_size && dim_x2 == 40 * config.cell_size);
            assert(dim_x4 == 80 * config.cell_size);
            assert(config.span(3 * CELL) == 60 * config.cell_size);
            assert(config.span(5 * CELL) == 100 * config.cell_size);
            assert(config.span(0 * CELL) == 0);
            assert(cells@[0] == path[0] && cells@[1] == path[1]);
            assert(cells@[2] == path[2] && cells@[3] == path[3] && cells@[4] == path[4]);
            assert(cells@[5] == path[5] && cells@[6] == path[6]);
            assert(cells@[7] == path[7]);
        }
        assert(cells@ =~= home_path(*config, self.transform, i as int).take(8));
        let mut n: usize = 0;
        while n < 5
            invariant
                n <= 5,
                i < PLAYERS,
                dim == config.span(CELL as int),
                color_index == i + PALETTE_SIZE - 1 + 7 + n,
                origin == config.at((5 + n) * CELL, 0),
                cells@ == home_path(*config, self.transform, i as int).take(8 + n),
            decreases 5 - n,
        {
            color_index += 1;
            cells.push(
                Cell::new(
                    CellKind::VBlock,
                    Player::color(config, color_index),
                    self.transform,
                    origin,
                ),
            );
            proof {
                let c = config.cell_size as int;
                assert(0 <= (5 + n) * 20 * c <= 200 * 0x1_0000_0000) by (nonlinear_arith)
                    requires
                        0 <= n < 5,
                        0 <= c <= 0x1_0000_0000,
                ;
                assert((5 + n) * 20 * c + 20 * c == (5 + (n + 1)) * 20 * c) by (nonlinear_arith);
                assert(cells@ =~= home_path(*config, self.transform, i as int).take(8 + n + 1));
            }
            origin = origin.offset(dim, 0);
            n += 1;
        }
        proof {
            let path = home_path(*config, self.transform, i as int);
            assert(path.take(13) =~= path);
        }
        cells
    }

    /// Builds the scene of the whole board: for each player in turn, the
    /// cells of the home path and then the decoration.
    pub fn create_scene(config: &Config) -> (scene: Scene)
        ensures
            scene@ == board(*config),
    {
        let mut scene = Scene::new();
        let players = Player::seats(config);
        let mut i: usize = 0;
        while i < PLAYERS
            invariant
                i <= PLAYERS,
                forall|p: int| 0 <= p < PLAYERS ==> players@[p] == seat(*config, p),
                scene@ == quadrants(*config, i as int),
            decreases PLAYERS - i,
        {
            let player = &players[i];
            assert(*player == seat(*config, i as int));
            let cells = player.home_cells(config, i);
            let ghost before = scene@;
            let mut k: usize = 0;
            while k < cells.len()
                invariant
                    k <= cells.len(),
                    i < PLAYERS,
                    cells@ == home_path(*config, seat_transform(*config, i as int), i as int),
                    scene@ == before + cells_commands(*config, cells@.take(k as int)),
                decreases cells.len() - k,
            {
                proof {
                    lemma_home_cell_in_range(
                        *config,
                        seat_transform(*config, i as int),
                        i as int,
                        k as int,
                    );
                }
                cells[k].draw(config, &mut scene);
                assert(cells_commands(*config, cells@.take(k + 1)) =~= cells_commands(
                    *config,
                    cells@.take(k as int),
                ) + cells@[k as int].commands(*config));
                k += 1;
            }
            assert(cells@.take(k as int) =~= cells@);
            player.draw(config, &mut scene);
            assert(scene@ =~= before + quadrant(*config, i as int));
            i += 1;
        }
        scene
    }
}

/// Every cell of a home path lies well within the coordinate range.
pub proof fn lemma_home_cell_in_range(config: Config, transform: Transform, i: int, k: int)
    requires
        0 <= k < HOME_CELLS,
    ensures
        home_cell(config, transform, i, k).origin.in_range(),
        0 <= home_cell(config, transform, i, k).origin.x <= config.span(9 * CELL),
        0 <= home_cell(config, transform, i, k).origin.y <= config.span(4 * CELL),
{
    let c = config.cell_size as int;
    let (x, y) = home_origin(k);
    assert(0 <= x <= 9 && 0 <= y <= 4);
    assert(0 <= x * 20 * c <= 180 * c) by (nonlinear_arith)
        requires
            0 <= x <= 9,
            0 <= c,
    ;
    assert(0 <= y * 20 * c <= 80 * c) by (nonlinear_arith)
        requires
            0 <= y <= 4,
            0 <= c,
    ;
}

/// The colour cycle: the `k`-th cell of player `i`'s home path has the
/// palette colour at index `(i + 3 + k) mod 4`.
pub proof fn lemma_color_cycle(config: Config, i: int, k: int)
    requires
        0 <= i < PLAYERS,
        0 <= k < HOME_CELLS,
    ensures
        home_path(config, seat_transform(config, i), i)[k].color == config.palette.entries@[(i
            + 3 + k) % 4],
        quadrant(config, i)[2 * k] matches DrawCommandView::Fill { color, .. } && color
            == config.palette.entries@[(i + 3 + k) % 4],
{
}

/// The first `n` quadrants hold as many commands as `n` quadrants have, and
/// the commands of quadrant `i` stand in them from index `i * 41`.
pub proof fn lemma_quadrants_index(config: Config, n: int, i: int, j: int)
    requires
        0 <= i < n,
        0 <= j < QUADRANT_COMMANDS,
    ensures
        quadrants(config, n).len() == n * QUADRANT_COMMANDS,
        quadrants(config, n)[i * QUADRANT_COMMANDS + j] == quadrant(config, i)[j],
    decreases n,
{
    assert(QUADRANT_COMMANDS == 41);
    let before = quadrants(config, n - 1);
    let last = quadrant(config, n - 1);
    assert(last.len() == 41);
    assert(quadrants(config, n) == before + last);
    if n == 1 {
        assert(before.len() == 0);
    } else {
        lemma_quadrants_index(config, n - 1, 0, 0);
    }
    assert(before.len() == (n - 1) * 41);
    if i < n - 1 {
        lemma_quadrants_index(config, n - 1, i, j);
        assert((before + last)[i * 41 + j] == before[i * 41 + j]);
    } else {
        assert((before + last)[i * 41 + j] == last[j]);
    }
}

/// The painting order: the board holds the players' commands player after
/// player, 41 commands each, and of each player's commands the first 26 are
/// those of the thirteen cells, in the order of the home path, and the last
/// 15 are the decoration. So every cell command of a player precedes every
/// decoration command of that player, and every command of a player precedes
/// every command of the next.
pub proof fn lemma_painting_order(config: Config, i: int, j: int)
    requires
        0 <= i < PLAYERS,
        0 <= j < QUADRANT_COMMANDS,
    ensures
        board(config).len() == PLAYERS * QUADRANT_COMMANDS,
        j < HOME_CELLS * CELL_COMMANDS ==> board(config)[i * QUADRANT_COMMANDS + j] == home_cell(
            config,
            seat_transform(config, i),
            i,
            j / 2,
        ).commands(config)[j % 2],
        j >= HOME_CELLS * CELL_COMMANDS ==> board(config)[i * QUADRANT_COMMANDS + j] == seat(
            config,
            i,
        ).decoration(config)[j - HOME_CELLS * CELL_COMMANDS],
{
    lemma_quadrants_index(config, PLAYERS as int, i, j);
}

/// The generator is a function of the configuration: two scenes built for
/// the same configuration hold the same commands in the same order.
pub proof fn lemma_scene_determined(first: Scene, second: Scene, config: Config)
    requires
        first@ == board(config),
        second@ == board(config),
    ensures
        first@ == second@,
{
}

/// The shape a command draws.
pub open spec fn drawn_shape(command: DrawCommandView) -> ShapeView {
    match command {
        DrawCommandView::Fill { shape, .. } => shape,
        DrawCommandView::Stroke { path, .. } => ShapeView::Path(path),
    }
}

/// The transform a command is placed by.
pub open spec fn placement(command: DrawCommandView) -> Transform {
    match command {
        DrawCommandView::Fill { transform, .. } => transform,
        DrawCommandView::Stroke { transform, .. } => transform,
    }
}

/// The quadrants are copies of one local drawing: command `j` of any player
/// draws the shape that command `j` of the first player draws, placed by the
/// player's own transform.
pub proof fn lemma_quadrants_alike(config: Config, i: int, j: int)
    requires
        0 <= i < PLAYERS,
        0 <= j < QUADRANT_COMMANDS,
    ensures
        drawn_shape(quadrant(config, i)[j]) == drawn_shape(quadrant(config, 0)[j]),
        placement(quadrant(config, i)[j]) == seat_transform(config, i),
{
    if j >= HOME_CELLS * CELL_COMMANDS {
        let k = j - HOME_CELLS * CELL_COMMANDS;
        let own = seat(config, i).decoration(config);
        let first = seat(config, 0).decoration(config);
        assert(own.len() == 15 && first.len() == 15);
        assert(drawn_shape(own[k]) == drawn_shape(first[k]));
        assert(placement(own[k]) == seat_transform(config, i));
    }
}

/// The quadrants tile the board: each player's transform takes the square of
/// the board onto itself, and the corner at the local origin to the player's
/// own corner.
pub proof fn lemma_seat_keeps_board(config: Config, i: int, x: int, y: int)
    requires
        0 <= i < PLAYERS,
        0 <= x <= config.span(BOARD_CELLS * CELL),
        0 <= y <= config.span(BOARD_CELLS * CELL),
    ensures
        0 <= seat_transform(config, i).image(x, y).0 <= config.span(BOARD_CELLS * CELL),
        0 <= seat_transform(config, i).image(x, y).1 <= config.span(BOARD_CELLS * CELL),
        seat_transform(config, i).image(0, 0) == (
            seat_transform(config, i).dx as int,
            seat_transform(config, i).dy as int,
        ),
{
}

} // verus!
