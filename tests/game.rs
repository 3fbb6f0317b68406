use cube_snake::cube::{ColoredCube, DrawCommand, Rgb};
use cube_snake::food::random_food;
use cube_snake::game::{Game, Settings};
use cube_snake::geometry::{ConfigError, Direction, GridCoord, Perspective};
use cube_snake::input::{key_direction, Input, Key};
use cube_snake::screen::{project, ScreenOffset, ScreenPoint, ScreenRect};

fn cell(x: i32, y: i32, z: i32) -> GridCoord {
    GridCoord::new(x, y, z)
}

fn evaluate(p: ScreenPoint) -> (f64, f64) {
    let len = (p.len_sq as f64).sqrt();
    (p.x as f64 + p.dx as f64 / len, p.y as f64 + p.dy as f64 / len)
}

#[test]
fn zero_perspective_is_a_configuration_error() {
    assert_eq!(Perspective::new(0, 0), Err(ConfigError::ZeroPerspective));
}

#[test]
fn nonzero_perspective_is_accepted() {
    assert_eq!(Perspective::new(15, 15), Ok(Perspective { x: 15, y: 15 }));
    assert_eq!(Perspective::new(0, -4), Ok(Perspective { x: 0, y: -4 }));
    assert_eq!(Perspective { x: 3, y: 4 }.length_squared(), 25);
}

#[test]
fn projection_exact_values() {
    let p = Perspective::new(3, 4).unwrap();
    let off = ScreenOffset { x: 50, y: 50 };
    let r = project(cell(2, 1, 5), 33, p, off);
    assert_eq!(r, ScreenPoint { x: 116, y: 83, dx: 15, dy: 20, len_sq: 25 });
    let (sx, sy) = evaluate(r);
    assert!((sx - 119.0).abs() < 1e-9);
    assert!((sy - 87.0).abs() < 1e-9);
}

#[test]
fn projection_is_linear_in_depth() {
    let p = Perspective::new(15, 15).unwrap();
    let off = ScreenOffset { x: 50, y: 50 };
    let a = evaluate(project(cell(1, 2, 1), 33, p, off));
    let b = evaluate(project(cell(1, 2, 4), 33, p, off));
    let c = evaluate(project(cell(1, 2, 7), 33, p, off));
    let unit = 15.0 / (450.0f64).sqrt();
    assert!((b.0 - a.0 - 3.0 * unit).abs() < 1e-9);
    assert!((b.1 - a.1 - 3.0 * unit).abs() < 1e-9);
    assert!(((c.0 - a.0) - 2.0 * (b.0 - a.0)).abs() < 1e-9);
    assert!(((c.1 - a.1) - 2.0 * (b.1 - a.1)).abs() < 1e-9);
}

#[test]
fn flat_cube_draw_commands() {
    let color = Rgb::new(1, 2, 3);
    let c = ColoredCube::new(10, 20, 5, 6, Perspective { x: 2, y: 3 }, color, false);
    let pt = |x: i64, y: i64| ScreenPoint { x, y, dx: 0, dy: 0, len_sq: 1 };
    let back = ScreenRect { origin: pt(10, 20), w: 5, h: 6 };
    let front = ScreenRect { origin: pt(12, 23), w: 5, h: 6 };
    let expected = vec![
        DrawCommand::SetColor(color),
        DrawCommand::DrawRect(back),
        DrawCommand::SetColor(color),
        DrawCommand::DrawLine(pt(10, 20), pt(12, 23)),
        DrawCommand::DrawLine(pt(15, 20), pt(17, 23)),
        DrawCommand::DrawLine(pt(10, 26), pt(12, 29)),
        DrawCommand::DrawLine(pt(15, 26), pt(17, 29)),
        DrawCommand::SetColor(color),
        DrawCommand::DrawRect(front),
    ];
    assert_eq!(c.draw(), expected);
}

#[test]
fn filled_cube_also_fills_its_back_face() {
    let color = Rgb::new(9, 9, 9);
    let c = ColoredCube::new(0, 0, 4, 4, Perspective { x: 1, y: 1 }, color, true);
    let cmds = c.draw();
    assert_eq!(cmds.len(), 10);
    let back = ScreenRect { origin: c.pos, w: 4, h: 4 };
    assert_eq!(cmds[1], DrawCommand::DrawRect(back));
    assert_eq!(cmds[2], DrawCommand::FillRect(back));
}

#[test]
fn virtual_cube_position() {
    let p = Perspective::new(15, 15).unwrap();
    let c = ColoredCube::virtual_3d(
        66,
        33,
        2,
        30,
        30,
        p,
        Rgb::new(255, 255, 255),
        false,
        ScreenOffset { x: 50, y: 50 },
    );
    assert_eq!(c.pos, ScreenPoint { x: 116, y: 83, dx: 30, dy: 30, len_sq: 450 });
    assert_eq!(c.w, 30);
    assert_eq!(c.h, 30);
}

#[test]
fn keys_map_to_the_six_directions() {
    assert_eq!(key_direction(Key::W), Some(Direction::NegY));
    assert_eq!(key_direction(Key::S), Some(Direction::PosY));
    assert_eq!(key_direction(Key::A), Some(Direction::NegX));
    assert_eq!(key_direction(Key::D), Some(Direction::PosX));
    assert_eq!(key_direction(Key::Up), Some(Direction::PosZ));
    assert_eq!(key_direction(Key::Down), Some(Direction::NegZ));
    assert_eq!(key_direction(Key::Escape), None);
    assert_eq!(key_direction(Key::Other), None);
    assert_eq!(Direction::NegY.offsets(), (0, -1, 0));
    assert_eq!(Direction::PosX.offsets(), (1, 0, 0));
}

#[test]
fn one_move_steps_the_head() {
    let mut g = Game::new(Settings::standard(), cell(5, 5, 5));
    assert_eq!(g.direction, Direction::PosX);
    let ate = g.advance_with(cell(0, 0, 0));
    assert!(!ate);
    assert_eq!(g.head, cell(1, 0, 0));
    assert_eq!(g.body, vec![cell(1, 0, 0)]);
}

#[test]
fn last_key_in_a_frame_wins() {
    let mut g = Game::new(Settings::standard(), cell(5, 5, 5));
    let running = g.apply_events(&vec![Input::KeyDown(Key::W)]);
    assert!(running);
    assert_eq!(g.direction, Direction::NegY);
    assert_eq!(g.direction.offsets(), (0, -1, 0));
    let running = g.apply_events(&vec![
        Input::KeyDown(Key::W),
        Input::Other,
        Input::KeyDown(Key::D),
        Input::KeyDown(Key::Other),
    ]);
    assert!(running);
    assert_eq!(g.direction, Direction::PosX);
    assert_eq!(g.direction.offsets(), (1, 0, 0));
}

#[test]
fn quit_and_escape_stop_the_game() {
    let mut g = Game::new(Settings::standard(), cell(5, 5, 5));
    assert!(!g.apply_events(&vec![Input::Quit]));
    let mut g = Game::new(Settings::standard(), cell(5, 5, 5));
    let running = g.apply_events(&vec![
        Input::KeyDown(Key::S),
        Input::KeyDown(Key::Escape),
        Input::KeyDown(Key::A),
    ]);
    assert!(!running);
    assert_eq!(g.direction, Direction::PosY);
}

#[test]
fn length_stays_one_without_food() {
    let mut g = Game::new(Settings::standard(), cell(-3, -3, -3));
    for n in 1..=25 {
        assert!(!g.advance_with(cell(0, 0, 0)));
        assert_eq!(g.body.len(), 1);
        assert_eq!(g.body[0], cell(n, 0, 0));
    }
    assert_eq!(g.food, cell(-3, -3, -3));
}

#[test]
fn eating_grows_by_one_and_moves_the_food() {
    let mut g = Game::new(Settings::standard(), cell(1, 0, 0));
    let ate = g.advance_with(cell(4, 4, 4));
    assert!(ate);
    assert_eq!(g.body, vec![cell(0, 0, 0), cell(1, 0, 0)]);
    assert_eq!(g.food, cell(4, 4, 4));
}

#[test]
fn eating_with_random_food_keeps_it_in_bounds() {
    for _ in 0..50 {
        let mut g = Game::new(Settings::standard(), cell(1, 0, 0));
        assert!(g.advance());
        assert_eq!(g.body.len(), 2);
        assert!((0..10).contains(&g.food.x));
        assert!((0..10).contains(&g.food.y));
        assert!((0..10).contains(&g.food.z));
    }
}

#[test]
fn random_food_lies_in_bounds() {
    let mut seen_nonzero = false;
    for _ in 0..200 {
        let f = random_food(3);
        for v in [f.x, f.y, f.z] {
            assert!((0..3).contains(&v));
            seen_nonzero |= v != 0;
        }
    }
    assert!(seen_nonzero);
    let g = Game::start(Settings::standard());
    assert!((0..10).contains(&g.food.x) && (0..10).contains(&g.food.y));
    assert!((0..10).contains(&g.food.z));
    assert_eq!(g.body, vec![cell(0, 0, 0)]);
}

#[test]
fn end_to_end_three_moves() {
    let mut g = Game::new(Settings::standard(), cell(2, 0, 0));
    let none: Vec<Input> = Vec::new();
    let spawned = cell(7, 8, 9);
    let mut heads = Vec::new();
    let mut lengths = Vec::new();
    for _ in 0..90 {
        let before = g.head;
        assert!(g.frame_with(&none, spawned));
        if g.head != before {
            heads.push(g.head);
            lengths.push(g.body.len());
        }
    }
    assert_eq!(heads, vec![cell(1, 0, 0), cell(2, 0, 0), cell(3, 0, 0)]);
    assert_eq!(lengths, vec![1, 2, 2]);
    assert_eq!(g.food, spawned);
    assert_eq!(g.body, vec![cell(2, 0, 0), cell(3, 0, 0)]);
}

#[test]
fn no_move_between_move_frames() {
    let mut g = Game::new(Settings::standard(), cell(9, 9, 9));
    let none: Vec<Input> = Vec::new();
    for f in 1..=29u64 {
        assert!(g.frame_with(&none, cell(0, 0, 0)));
        assert_eq!(g.frame, f);
        assert_eq!(g.head, cell(0, 0, 0));
        assert_eq!(g.body, vec![cell(0, 0, 0)]);
    }
    assert!(g.frame_with(&none, cell(0, 0, 0)));
    assert_eq!(g.frame, 30);
    assert_eq!(g.head, cell(1, 0, 0));
}

#[test]
fn quit_frame_does_not_move() {
    let mut g = Game::new(Settings::standard(), cell(9, 9, 9));
    g.frame = 29;
    assert!(!g.frame(&vec![Input::KeyDown(Key::Up), Input::Quit]));
    assert_eq!(g.frame, 30);
    assert_eq!(g.head, cell(0, 0, 0));
    assert_eq!(g.direction, Direction::PosZ);
}

#[test]
fn steering_then_moving_follows_the_key() {
    let mut g = Game::new(Settings::standard(), cell(9, 9, 9));
    g.frame = 29;
    assert!(g.frame(&vec![Input::KeyDown(Key::Up)]));
    assert_eq!(g.head, cell(0, 0, 1));
    assert_eq!(g.body, vec![cell(0, 0, 1)]);
}

#[test]
fn scene_draws_frame_body_and_food() {
    let s = Settings::standard();
    let mut g = Game::new(s, cell(1, 0, 0));
    g.advance_with(cell(4, 0, 0));
    let cmds = g.scene();
    // clear (2) + frame cube (9) + two segments (9 each) + food (9) + present (1)
    assert_eq!(cmds.len(), 2 + 9 + 18 + 9 + 1);
    assert_eq!(cmds[0], DrawCommand::SetColor(Rgb::new(0, 255, 255)));
    assert_eq!(cmds[1], DrawCommand::Clear);
    assert_eq!(cmds[2..11].to_vec(), s.frame_cube.draw());
    let first = s.cell_cube(cell(0, 0, 0), s.body_color);
    let second = s.cell_cube(cell(1, 0, 0), s.body_color);
    assert_eq!(cmds[11..20].to_vec(), first.draw());
    assert_eq!(cmds[20..29].to_vec(), second.draw());
    let food = s.cell_cube(cell(4, 0, 0), s.food_color);
    assert_eq!(food.pos, ScreenPoint { x: 182, y: 50, dx: 0, dy: 0, len_sq: 450 });
    assert_eq!(cmds[29..38].to_vec(), food.draw());
    assert_eq!(cmds[38], DrawCommand::Present);
}
