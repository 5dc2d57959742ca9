use pong::geometry::{Rectangle, SCALE};
use pong::input::{Input, Key};
use pong::level0::{Level0, Phase};
use pong::level1::{Level1, Level2};
use pong::render::{draw_point, draw_text_center, to_pixels, Color, DrawCommand};
use pong::scene::{Scene, SceneManager};

#[test]
fn manager_runs_current_scene() {
    let mut m = SceneManager::new();
    m.add(Scene::Level0(Level0::new()));
    m.add(Scene::Level1(Level1::new()));
    m.add(Scene::Level2(Level2::new()));
    assert!(m.set(1));
    let (go_on, cmds) = m.frame(&Input::none(), 16_000);
    assert!(go_on);
    assert_eq!(
        cmds,
        vec![
            DrawCommand::Text { text: "Hello, level 1!".to_string(), x: 12, y: 12, font_size: 20, color: Color::ray_white() },
            DrawCommand::Button {
                bounds: Rectangle { x: 12 * SCALE, y: 60 * SCALE, width: 100 * SCALE, height: 40 * SCALE },
                label: "Go to level 2!".to_string(),
            },
        ]
    );
    assert!(!m.set(3));
    assert!(m.set(2));
    let (_, cmds) = m.frame(&Input::none(), 16_000);
    assert_eq!(
        cmds,
        vec![DrawCommand::Text { text: "Hello, level 2!".to_string(), x: 12, y: 12, font_size: 20, color: Color::black() }]
    );
}

#[test]
fn manager_steps_game_scene() {
    let mut m = SceneManager::new();
    m.add(Scene::Level0(Level0::new()));
    let (go_on, cmds) = m.frame(&Input { enter: true, ..Input::none() }, 16_000);
    assert!(go_on);
    assert_eq!(cmds.len(), 17);
}

#[test]
fn empty_manager_stops() {
    let mut m = SceneManager::new();
    let (go_on, cmds) = m.frame(&Input::none(), 16_000);
    assert!(!go_on);
    assert!(cmds.is_empty());
}

#[test]
fn scene_frame_of_game() {
    let mut s = Scene::Level0(Level0::new());
    let (_, cmds) = s.frame(&Input::none(), 16_000);
    assert_eq!(cmds.len(), 2);
    match s {
        Scene::Level0(l) => assert_eq!(l.phase, Phase::NotStarted),
        _ => unreachable!(),
    }
}

#[test]
fn point_text_is_decimal() {
    assert_eq!(
        draw_point(7, 20, 450),
        DrawCommand::Text { text: "7".to_string(), x: 20, y: 450, font_size: 40, color: Color::gray() }
    );
    assert_eq!(
        draw_point(-12, 400, 300),
        DrawCommand::Text { text: "-12".to_string(), x: 400, y: 300, font_size: 40, color: Color::gray() }
    );
}

#[test]
fn centred_text_position() {
    assert_eq!(
        draw_text_center("PAUSE", 40, Color::maroon(), 101),
        DrawCommand::Text { text: "PAUSE".to_string(), x: 175, y: 400, font_size: 40, color: Color::maroon() }
    );
}

#[test]
fn pixels_round_toward_zero() {
    assert_eq!(to_pixels(1_500_000), 1);
    assert_eq!(to_pixels(-1_500_000), -1);
    assert_eq!(to_pixels(i64::MAX), i32::MAX);
    assert_eq!(to_pixels(i64::MIN), i32::MIN);
}

#[test]
fn key_codes() {
    assert_eq!(Key::P.code(), 80);
    assert_eq!(Key::Space.code(), 32);
    assert_eq!(Key::Enter.code(), 257);
    assert_eq!(Key::Right.code(), 262);
    assert_eq!(Key::Left.code(), 263);
    assert_eq!(Key::Down.code(), 264);
    assert_eq!(Key::Up.code(), 265);
}
