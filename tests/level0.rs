use pong::collision::Outcome;
use pong::geometry::{Vector2, SCALE};
use pong::input::Input;
use pong::level0::{Level0, Phase};
use pong::objects::{Ball, Enemy, Player, Turn};
use pong::render::{Color, DrawCommand};

fn px(v: i64) -> i64 {
    v * SCALE
}

fn enter() -> Input {
    Input { enter: true, ..Input::none() }
}

fn same_state(a: &Level0, b: &Level0) -> bool {
    a.player == b.player
        && a.enemy == b.enemy
        && a.ball == b.ball
        && a.bricks == b.bricks
        && a.turn == b.turn
        && a.phase == b.phase
}

#[test]
fn new_level_waits_for_enter() {
    let l = Level0::new();
    assert_eq!(l.phase, Phase::NotStarted);
    assert!(l.bricks.is_empty());
    assert_eq!(l.turn, Turn::Player);
}

#[test]
fn init_builds_two_brick_lines() {
    let mut l = Level0::new();
    l.init();
    assert_eq!(l.phase, Phase::Playing);
    assert_eq!(l.bricks.len(), 12);
    assert_eq!(l.bricks[0].position, Vector2::new(37_500_000, px(10)));
    assert_eq!(l.bricks[0].size, Vector2::new(px(75), px(20)));
    assert_eq!(l.bricks[0].color, Color::gray());
    assert_eq!(l.bricks[1].color, Color::dark_gray());
    assert_eq!(l.bricks[5].position, Vector2::new(412_500_000, px(10)));
    assert_eq!(l.bricks[6].position, Vector2::new(37_500_000, px(790)));
    assert_eq!(l.bricks[6].color, Color::dark_gray());
    assert!(l.bricks.iter().all(|b| b.active));
}

#[test]
fn init_twice_gives_identical_state() {
    let mut once = Level0::new();
    once.init();
    let mut twice = Level0::new();
    twice.init();
    twice.update(&Input { serve: true, right: true, ..Input::none() }, 200_000);
    twice.init();
    twice.init();
    assert!(same_state(&once, &twice));
    assert_eq!(twice.player, Player::default());
    assert_eq!(twice.enemy, Enemy::default());
    assert_eq!(twice.ball, Ball::default());
}

#[test]
fn enter_starts_round() {
    let mut l = Level0::new();
    l.update(&Input::none(), 16_000);
    assert_eq!(l.phase, Phase::NotStarted);
    l.update(&enter(), 16_000);
    assert_eq!(l.phase, Phase::Playing);
    assert_eq!(l.bricks.len(), 12);
}

#[test]
fn pause_toggles_and_freezes() {
    let mut l = Level0::new();
    l.init();
    l.update(&Input { pause: true, right: true, ..Input::none() }, 100_000);
    assert_eq!(l.phase, Phase::Paused);
    assert_eq!(l.player.position.x, px(225));
    l.update(&Input { right: true, ..Input::none() }, 100_000);
    assert_eq!(l.player.position.x, px(225));
    l.update(&Input { pause: true, right: true, ..Input::none() }, 100_000);
    assert_eq!(l.phase, Phase::Playing);
    assert_eq!(l.player.position.x, px(255));
}

#[test]
fn ball_waits_for_serve() {
    let mut l = Level0::new();
    l.init();
    l.update(&Input::none(), 100_000);
    assert!(!l.ball.active);
    l.update(&Input { serve: true, ..Input::none() }, 100_000);
    assert!(l.ball.active);
    assert_eq!(l.ball.position, Vector2::new(px(225), px(610)));
    assert_eq!(l.ball.direction, Vector2::new(0, -SCALE));
}

#[test]
fn finished_round_waits_for_enter() {
    let mut l = Level0::new();
    l.init();
    l.player.point = 6;
    l.ball = Ball {
        position: Vector2::new(px(225), px(20)),
        direction: Vector2::new(0, -SCALE),
        active: true,
        ..Ball::default()
    };
    l.update(&Input::none(), 100_000);
    assert_eq!(l.phase, Phase::Finished(Outcome::PlayerWin));
    assert_eq!(l.player.point, 7);
    assert_eq!(l.turn, Turn::Player);
    l.update(&Input { serve: true, ..Input::none() }, 100_000);
    assert_eq!(l.phase, Phase::Finished(Outcome::PlayerWin));
    l.update(&enter(), 100_000);
    assert_eq!(l.phase, Phase::Playing);
    assert_eq!(l.player.point, 0);
}

#[test]
fn draw_before_start() {
    let l = Level0::new();
    let cmds = l.draw();
    assert_eq!(cmds.len(), 2);
    assert_eq!(cmds[0], DrawCommand::Clear { color: Color::elegant_black() });
    assert_eq!(
        cmds[1],
        DrawCommand::CenteredText { text: "Press [ENTER] to Play".to_string(), font_size: 20, color: Color::maroon() }
    );
}

#[test]
fn draw_round_in_play() {
    let mut l = Level0::new();
    l.init();
    l.bricks[3].active = false;
    let cmds = l.draw();
    assert_eq!(cmds.len(), 1 + 4 + 11);
    assert_eq!(
        cmds[1],
        DrawCommand::Text { text: "0".to_string(), x: 20, y: 450, font_size: 40, color: Color::gray() }
    );
    assert_eq!(
        cmds[3],
        DrawCommand::Rectangle { x: 202, y: 690, width: 45, height: 20, color: Color::paddle_gray() }
    );
    assert_eq!(
        cmds[5],
        DrawCommand::Rectangle { x: 0, y: 0, width: 75, height: 20, color: Color::gray() }
    );
}

#[test]
fn draw_paused_and_finished_overlays() {
    let mut l = Level0::new();
    l.init();
    l.phase = Phase::Paused;
    let cmds = l.draw();
    assert_eq!(
        cmds.last(),
        Some(&DrawCommand::CenteredText { text: "PAUSE".to_string(), font_size: 40, color: Color::maroon() })
    );
    l.phase = Phase::Finished(Outcome::EnemyWin);
    let cmds = l.draw();
    let n = cmds.len();
    assert_eq!(
        cmds[n - 2],
        DrawCommand::Rectangle { x: 0, y: 0, width: 450, height: 800, color: Color { r: 0, g: 0, b: 128, a: 200 } }
    );
    assert_eq!(
        cmds[n - 1],
        DrawCommand::CenteredText { text: "Enemy Win!".to_string(), font_size: 40, color: Color::maroon() }
    );
}

#[test]
fn draw_active_ball() {
    let mut l = Level0::new();
    l.init();
    l.update(&Input { serve: true, ..Input::none() }, 0);
    let cmds = l.draw();
    assert_eq!(
        cmds[5],
        DrawCommand::Circle { center: Vector2::new(px(225), px(670)), radius: px(7), color: Color::maroon() }
    );
}

#[test]
fn frame_updates_then_draws() {
    let mut l = Level0::new();
    let (result, cmds) = l.frame(&enter(), 16_000);
    assert_eq!(result, pong::scene::SceneResult::OnGoing);
    assert_eq!(l.phase, Phase::Playing);
    assert_eq!(cmds.len(), 1 + 4 + 12);
}
