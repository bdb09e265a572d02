use board_assets::board::{
    Cell, CellKind, Config, Drawable, Player, CELL, CELL_RADIUS, HOME_CELLS, PLAYERS,
    PLAYER_RADIUS, QUADRANT_COMMANDS, STROKE_WIDTH,
};
use board_assets::color::{Color, Palette};
use board_assets::error::PipelineError;
use board_assets::geometry::{
    Anchor, Circle, Path, PathEl, Point, Rect, Shape, Transform, Triangle, UNITS_PER_PIXEL,
};
use board_assets::scene::{DrawCommand, Scene};

fn px(pixels: i64) -> i64 {
    pixels * UNITS_PER_PIXEL
}

fn at(x: i64, y: i64) -> Point {
    Point { x: px(x), y: px(y) }
}

fn board() -> Scene {
    Player::create_scene(&Config::new(128))
}

fn seat_transform(player: usize) -> Transform {
    let side = px(2176);
    match player {
        0 => Transform { quarter_turns: 0, dx: 0, dy: 0 },
        1 => Transform { quarter_turns: 1, dx: side, dy: 0 },
        2 => Transform { quarter_turns: 2, dx: side, dy: side },
        _ => Transform { quarter_turns: 3, dx: 0, dy: side },
    }
}

fn fill(transform: Transform, color: Color, shape: Shape) -> DrawCommand {
    DrawCommand::Fill { transform, color, shape }
}

fn disc(transform: Transform, x: i64, y: i64, radius: i64) -> DrawCommand {
    fill(
        transform,
        Color::White,
        Shape::Circle(Circle { center: Anchor::At(at(x, y)), radius }),
    )
}

fn path_of(elements: &[PathEl]) -> Path {
    let mut path = Path::new();
    for element in elements {
        match element {
            PathEl::MoveTo(p) => path.move_to(*p),
            PathEl::LineTo(p) => path.line_to(*p),
            PathEl::ClosePath => path.close_path(),
        }
    }
    path
}

#[test]
fn first_cell_of_first_player_is_the_half_turn_triangle() {
    let scene = board();
    let expected = Triangle { a: at(256, 512), b: at(256, 768), c: at(0, 768) };
    assert_eq!(
        scene.commands()[0],
        fill(Transform { quarter_turns: 0, dx: 0, dy: 0 }, Color::Green, Shape::Triangle(expected))
    );
    assert_eq!(
        scene.commands()[1],
        fill(
            Transform { quarter_turns: 0, dx: 0, dy: 0 },
            Color::White,
            Shape::Circle(Circle { center: Anchor::Incenter(expected), radius: 896 }),
        )
    );
}

#[test]
fn board_has_four_quadrants_of_forty_one_commands() {
    assert_eq!(QUADRANT_COMMANDS, 41);
    assert_eq!(board().len(), 164);
    assert_eq!(board().commands().len(), PLAYERS * QUADRANT_COMMANDS);
}

#[test]
fn generator_is_deterministic() {
    assert_eq!(board(), board());
    let small = Config::new(3);
    assert_eq!(Player::create_scene(&small), Player::create_scene(&small));
    assert_ne!(Player::create_scene(&small), board());
}

#[test]
fn cell_colors_cycle_through_the_palette() {
    let palette = [Color::Red, Color::Yellow, Color::Blue, Color::Green];
    let scene = board();
    for player in 0..PLAYERS {
        for k in 0..HOME_CELLS {
            let command = &scene.commands()[player * QUADRANT_COMMANDS + 2 * k];
            match command {
                DrawCommand::Fill { color, .. } => {
                    assert_eq!(*color, palette[(player + 3 + k) % 4]);
                }
                DrawCommand::Stroke { .. } => panic!("a cell is filled"),
            }
        }
    }
}

#[test]
fn second_player_starts_on_red() {
    let scene = board();
    let expected = [
        Color::Red,
        Color::Yellow,
        Color::Blue,
        Color::Green,
        Color::Red,
        Color::Yellow,
        Color::Blue,
        Color::Green,
        Color::Red,
        Color::Yellow,
        Color::Blue,
        Color::Green,
        Color::Red,
    ];
    for k in 0..13 {
        match &scene.commands()[41 + 2 * k] {
            DrawCommand::Fill { color, .. } => assert_eq!(*color, expected[k]),
            DrawCommand::Stroke { .. } => panic!("a cell is filled"),
        }
    }
}

#[test]
fn cells_are_painted_before_the_decoration_player_by_player() {
    let palette = [Color::Red, Color::Yellow, Color::Blue, Color::Green];
    let scene = board();
    for player in 0..PLAYERS {
        let block = &scene.commands()[player * 41..(player + 1) * 41];
        let transform = seat_transform(player);
        for (j, command) in block.iter().enumerate() {
            let placed = match command {
                DrawCommand::Fill { transform, .. } => *transform,
                DrawCommand::Stroke { transform, .. } => *transform,
            };
            assert_eq!(placed, transform);
            if j < 26 && j % 2 == 1 {
                match command {
                    DrawCommand::Fill { color, shape: Shape::Circle(circle), .. } => {
                        assert_eq!(*color, Color::White);
                        assert_eq!(circle.radius, 896);
                    }
                    _ => panic!("a cell's marker is a filled circle"),
                }
            }
        }
        assert_eq!(
            block[26],
            fill(
                transform,
                palette[player],
                Shape::Rect(Rect { x0: 0, y0: 0, x1: px(512), y1: px(512) }),
            )
        );
        assert_eq!(block[40], disc(transform, 960, 1088, 896));
    }
}

#[test]
fn home_path_follows_its_table() {
    let kinds = [
        (CellKind::Triangle180, 2, 4),
        (CellKind::VBlock, 2, 4),
        (CellKind::VBlock, 3, 4),
        (CellKind::Triangle270, 3, 4),
        (CellKind::Triangle90, 3, 4),
        (CellKind::HBlock, 3, 3),
        (CellKind::HBlock, 3, 2),
        (CellKind::Triangle180, 5, 0),
        (CellKind::VBlock, 5, 0),
        (CellKind::VBlock, 6, 0),
        (CellKind::VBlock, 7, 0),
        (CellKind::VBlock, 8, 0),
        (CellKind::VBlock, 9, 0),
    ];
    let palette = [Color::Red, Color::Yellow, Color::Blue, Color::Green];
    let config = Config::new(128);
    let players = Player::seats(&config);
    for player in 0..PLAYERS {
        let cells = players[player].home_cells(&config, player);
        assert_eq!(cells.len(), 13);
        for (k, (kind, x, y)) in kinds.iter().enumerate() {
            assert_eq!(
                cells[k],
                Cell {
                    kind: *kind,
                    color: palette[(player + 3 + k) % 4],
                    transform: seat_transform(player),
                    origin: at(128 * x, 128 * y),
                }
            );
        }
    }
}

#[test]
fn scene_is_the_cells_then_the_decoration_of_each_player() {
    let config = Config::new(128);
    let mut expected = Scene::new();
    let players = Player::seats(&config);
    for player in 0..PLAYERS {
        for cell in players[player].home_cells(&config, player) {
            cell.draw(&config, &mut expected);
        }
        players[player].draw(&config, &mut expected);
    }
    assert_eq!(Player::create_scene(&config), expected);
}

#[test]
fn seats_turn_a_quarter_each_and_move_to_their_corner() {
    let config = Config::new(128);
    let players = Player::seats(&config);
    let palette = [Color::Red, Color::Yellow, Color::Blue, Color::Green];
    for player in 0..PLAYERS {
        assert_eq!(
            players[player],
            Player { color: palette[player], transform: seat_transform(player) }
        );
    }
}

#[test]
fn triangles_take_half_of_the_square_at_the_origin() {
    let config = Config::new(128);
    let origin = at(1000, -2000);
    let t = Transform::identity();
    let cases = [
        (CellKind::Triangle0, at(1256, -2000), at(1000, -1744)),
        (CellKind::Triangle90, at(1256, -2000), at(1256, -1744)),
        (CellKind::Triangle180, at(1000, -1744), at(744, -1744)),
        (CellKind::Triangle270, at(1256, -1744), at(1000, -1744)),
    ];
    for (kind, b, c) in cases {
        let mut scene = Scene::new();
        Cell::new(kind, Color::Blue, t, origin).draw(&config, &mut scene);
        let triangle = Triangle { a: origin, b, c };
        assert_eq!(scene.len(), 2);
        assert_eq!(scene.commands()[0], fill(t, Color::Blue, Shape::Triangle(triangle)));
        assert_eq!(
            scene.commands()[1],
            fill(
                t,
                Color::White,
                Shape::Circle(Circle { center: Anchor::Incenter(triangle), radius: 896 }),
            )
        );
    }
}

#[test]
fn blocks_carry_their_marker_at_the_midpoint() {
    let config = Config::new(128);
    let t = Transform::rotate(1);
    let mut scene = Scene::new();
    Cell::new(CellKind::VBlock, Color::Red, t, at(256, 512)).draw(&config, &mut scene);
    Cell::new(CellKind::HBlock, Color::Yellow, t, at(256, 512)).draw(&config, &mut scene);
    assert_eq!(
        scene.commands()[0],
        fill(
            t,
            Color::Red,
            Shape::Rect(Rect { x0: px(256), y0: px(512), x1: px(384), y1: px(768) }),
        )
    );
    assert_eq!(scene.commands()[1], disc(t, 320, 640, 896));
    assert_eq!(
        scene.commands()[2],
        fill(
            t,
            Color::Yellow,
            Shape::Rect(Rect { x0: px(256), y0: px(512), x1: px(512), y1: px(640) }),
        )
    );
    assert_eq!(scene.commands()[3], disc(t, 384, 576, 896));
}

#[test]
fn odd_cell_sizes_keep_exact_halves_and_radii() {
    let config = Config::new(3);
    let t = Transform::identity();
    let mut scene = Scene::new();
    Cell::new(CellKind::VBlock, Color::Red, t, Point { x: 0, y: 0 }).draw(&config, &mut scene);
    assert_eq!(
        scene.commands()[1],
        fill(
            t,
            Color::White,
            Shape::Circle(Circle { center: Anchor::At(Point { x: 30, y: 60 }), radius: 21 }),
        )
    );
    assert_eq!(config.length(CELL), 60);
    assert_eq!(config.length(CELL_RADIUS), 21);
    assert_eq!(config.length(PLAYER_RADIUS), 36);
}

#[test]
fn decoration_is_fifteen_commands() {
    let config = Config::new(128);
    let t = seat_transform(2);
    let player = Player::new(Color::Blue, t);
    let mut scene = Scene::new();
    player.draw(&config, &mut scene);
    let outer = path_of(&[
        PathEl::MoveTo(at(0, 768)),
        PathEl::LineTo(at(256, 512)),
        PathEl::LineTo(at(512, 512)),
        PathEl::LineTo(at(512, 256)),
        PathEl::LineTo(at(768, 0)),
        PathEl::LineTo(at(1408, 0)),
    ]);
    let inner = path_of(&[
        PathEl::MoveTo(at(256, 768)),
        PathEl::LineTo(at(768, 768)),
        PathEl::LineTo(at(768, 256)),
        PathEl::LineTo(at(1408, 256)),
    ]);
    let arrow = [
        PathEl::MoveTo(at(256, 1024)),
        PathEl::LineTo(at(896, 1024)),
        PathEl::LineTo(at(896, 896)),
        PathEl::LineTo(at(1088, 1088)),
        PathEl::LineTo(at(896, 1280)),
        PathEl::LineTo(at(896, 1152)),
        PathEl::LineTo(at(256, 1152)),
        PathEl::ClosePath,
    ];
    let expected = vec![
        fill(t, Color::Blue, Shape::Rect(Rect { x0: 0, y0: 0, x1: px(512), y1: px(512) })),
        disc(t, 128, 128, 1536),
        disc(t, 128, 384, 1536),
        disc(t, 384, 128, 1536),
        disc(t, 384, 384, 1536),
        DrawCommand::Stroke { width: 100, transform: t, color: Color::Black, path: outer },
        DrawCommand::Stroke { width: 100, transform: t, color: Color::Black, path: inner },
        fill(t, Color::Blue, Shape::Path(path_of(&arrow))),
        DrawCommand::Stroke {
            width: 100,
            transform: t,
            color: Color::Black,
            path: path_of(&arrow),
        },
        disc(t, 320, 1088, 896),
        disc(t, 448, 1088, 896),
        disc(t, 576, 1088, 896),
        disc(t, 704, 1088, 896),
        disc(t, 832, 1088, 896),
        disc(t, 960, 1088, 896),
    ];
    assert_eq!(scene.commands(), &expected[..]);
    assert_eq!(STROKE_WIDTH, 100);
}

#[test]
fn decoration_is_appended_after_what_is_there() {
    let config = Config::new(128);
    let mut scene = Scene::new();
    let patch = Shape::Rect(Rect { x0: 1, y0: 2, x1: 3, y1: 4 });
    scene.fill(Transform::identity(), Color::Gray, &patch);
    Player::new(Color::Red, Transform::identity()).draw(&config, &mut scene);
    assert_eq!(scene.len(), 16);
    assert_eq!(
        scene.commands()[0],
        fill(Transform::identity(), Color::Gray, Shape::Rect(Rect { x0: 1, y0: 2, x1: 3, y1: 4 }))
    );
}

#[test]
fn running_index_wraps_around_the_palette() {
    let config = Config::new(128);
    assert_eq!(Player::color(&config, 0), Color::Red);
    assert_eq!(Player::color(&config, 1), Color::Yellow);
    assert_eq!(Player::color(&config, 2), Color::Blue);
    assert_eq!(Player::color(&config, 3), Color::Green);
    assert_eq!(Player::color(&config, 4), Color::Red);
    assert_eq!(Player::color(&config, 15), Color::Green);
    assert_eq!(Palette::standard().color(6), Color::Blue);
}

#[test]
fn a_custom_palette_is_used_throughout() {
    let palette = Palette { entries: [Color::Black, Color::Gray, Color::White, Color::Red] };
    let config = Config { cell_size: 10, palette };
    let scene = Player::create_scene(&config);
    match &scene.commands()[0] {
        DrawCommand::Fill { color, .. } => assert_eq!(*color, Color::Red),
        DrawCommand::Stroke { .. } => panic!("a cell is filled"),
    }
    match &scene.commands()[26] {
        DrawCommand::Fill { color, .. } => assert_eq!(*color, Color::Black),
        DrawCommand::Stroke { .. } => panic!("the home square is filled"),
    }
}

#[test]
fn board_side_is_seventeen_cells() {
    assert_eq!(Config::new(128).dimension(), Ok(2176));
    assert_eq!(Config::new(1).dimension(), Ok(17));
    assert_eq!(Config::new(0).dimension(), Ok(0));
    assert_eq!(Config::new(252_645_135).dimension(), Ok(u32::MAX));
    assert_eq!(Config::new(252_645_136).dimension(), Err(PipelineError::Conversion));
    assert_eq!(Config::new(u32::MAX).dimension(), Err(PipelineError::Conversion));
}

#[test]
fn largest_cell_size_still_builds_a_board() {
    let scene = Player::create_scene(&Config::new(u32::MAX));
    assert_eq!(scene.len(), 164);
    let cell = u32::MAX as i64;
    let side = 340 * cell;
    assert_eq!(
        scene.commands()[163],
        fill(
            Transform { quarter_turns: 3, dx: 0, dy: side },
            Color::White,
            Shape::Circle(Circle {
                center: Anchor::At(Point { x: 150 * cell, y: 170 * cell }),
                radius: 7 * cell,
            }),
        )
    );
}

#[test]
fn colors_have_their_css_channels() {
    assert_eq!(Color::Red.rgba8(), (255, 0, 0, 255));
    assert_eq!(Color::Yellow.rgba8(), (255, 255, 0, 255));
    assert_eq!(Color::Blue.rgba8(), (0, 0, 255, 255));
    assert_eq!(Color::Green.rgba8(), (0, 128, 0, 255));
    assert_eq!(Color::White.rgba8(), (255, 255, 255, 255));
    assert_eq!(Color::Black.rgba8(), (0, 0, 0, 255));
    assert_eq!(Color::Gray.rgba8(), (128, 128, 128, 255));
}

#[test]
fn paths_keep_their_elements_in_order() {
    let mut path = Path::new();
    assert_eq!(path.len(), 0);
    assert_eq!(path.get(0), None);
    path.move_to(at(1, 2));
    path.line_to(at(3, 4));
    path.close_path();
    assert_eq!(path.len(), 3);
    assert_eq!(path.get(0), Some(PathEl::MoveTo(at(1, 2))));
    assert_eq!(path.get(1), Some(PathEl::LineTo(at(3, 4))));
    assert_eq!(path.get(2), Some(PathEl::ClosePath));
    assert_eq!(path.get(3), None);
    assert_eq!(
        path.elements(),
        &[PathEl::MoveTo(at(1, 2)), PathEl::LineTo(at(3, 4)), PathEl::ClosePath][..]
    );
    assert_eq!(path.clone(), path);
}

#[test]
fn transforms_compose_rotation_then_translation() {
    assert_eq!(Transform::identity(), Transform { quarter_turns: 0, dx: 0, dy: 0 });
    assert_eq!(Transform::rotate(5), Transform { quarter_turns: 1, dx: 0, dy: 0 });
    assert_eq!(
        Transform::rotate(2).then_translate(7, -9).then_translate(1, 1),
        Transform { quarter_turns: 2, dx: 8, dy: -8 }
    );
    assert_eq!(Point::new(3, 4).offset(-5, 6), Point { x: -2, y: 10 });
    assert_eq!(
        Rect::from_origin_size(Point::new(3, 4), 10, 20),
        Rect { x0: 3, y0: 4, x1: 13, y1: 24 }
    );
}

#[test]
fn scene_records_fills_and_strokes_in_order() {
    let mut scene = Scene::new();
    let t = Transform::rotate(3);
    let mut path = Path::new();
    path.move_to(at(0, 0));
    path.line_to(at(1, 0));
    scene.stroke(40, t, Color::Black, &path);
    scene.fill(t, Color::Blue, &Shape::Path(path.clone()));
    assert_eq!(scene.len(), 2);
    assert_eq!(
        scene.commands()[0],
        DrawCommand::Stroke { width: 40, transform: t, color: Color::Black, path: path.clone() }
    );
    assert_eq!(scene.commands()[1], fill(t, Color::Blue, Shape::Path(path)));
}

#[test]
fn drawables_paint_as_what_they_hold() {
    let config = Config::new(128);
    let cell = Cell::new(CellKind::HBlock, Color::Yellow, Transform::rotate(2), at(384, 256));
    let player = Player::new(Color::Green, Transform::rotate(3));
    let mut direct = Scene::new();
    cell.draw(&config, &mut direct);
    player.draw(&config, &mut direct);
    let mut dispatched = Scene::new();
    Drawable::Cell(cell).draw(&config, &mut dispatched);
    Drawable::Player(player).draw(&config, &mut dispatched);
    assert_eq!(dispatched.len(), 17);
    assert_eq!(dispatched, direct);
}
