use pong::collision::{bounce_off_wall, on_collision_ball_bricks, on_collision_ball_paddle, on_collision_ball_walls, score_check, Outcome};
use pong::consts::{BALL_SPEED, PLAYER_SPEED};
use pong::geometry::{Rectangle, Vector2, SCALE, UNIT_TOLERANCE};
use pong::input::Input;
use pong::objects::{collide_ball, init_ball, move_ball, move_enemy, move_player, Ball, Brick, Enemy, Player, Turn};
use pong::render::Color;

fn px(v: i64) -> i64 {
    v * SCALE
}

fn keys(left: bool, right: bool) -> Input {
    Input { left, right, ..Input::none() }
}

fn ball_at(x: i64, y: i64, dx: i64, dy: i64) -> Ball {
    Ball {
        position: Vector2::new(x, y),
        direction: Vector2::new(dx, dy),
        active: true,
        ..Ball::default()
    }
}

fn is_unit(v: &Vector2) -> bool {
    let s = (v.x as i128) * (v.x as i128) + (v.y as i128) * (v.y as i128);
    let lo = ((SCALE - UNIT_TOLERANCE) as i128).pow(2);
    let hi = ((SCALE + UNIT_TOLERANCE) as i128).pow(2);
    lo <= s && s <= hi
}

#[test]
fn default_entities() {
    let p = Player::default();
    assert_eq!(p.position, Vector2::new(px(225), px(700)));
    assert_eq!(p.size, Vector2::new(px(45), px(20)));
    assert_eq!(p.speed, PLAYER_SPEED);
    let e = Enemy::default();
    assert_eq!(e.position, Vector2::new(px(225), px(100)));
    let b = Ball::default();
    assert_eq!(b.speed, BALL_SPEED);
    assert_eq!(b.radius, px(7));
    assert!(!b.active);
}

#[test]
fn colliders_are_centred() {
    let p = Player::default();
    assert_eq!(p.collider(), Rectangle { x: 202_500_000, y: px(690), width: px(45), height: px(20) });
    let b = ball_at(px(10), px(20), 0, 0);
    let c = b.collider();
    assert_eq!(c.center, Vector2::new(px(10), px(20)));
    assert_eq!(c.radius, px(7));
}

#[test]
fn player_moves_with_keys() {
    let mut p = Player::default();
    move_player(&mut p, &keys(true, false), 100_000);
    assert_eq!(p.position.x, px(195));
    move_player(&mut p, &keys(false, true), 100_000);
    assert_eq!(p.position.x, px(225));
    move_player(&mut p, &keys(true, true), 100_000);
    assert_eq!(p.position.x, px(225));
    assert_eq!(p.position.y, px(700));
}

#[test]
fn player_clamped_to_screen() {
    let mut p = Player::default();
    move_player(&mut p, &keys(false, true), 1_000_000);
    assert_eq!(p.position.x, 427_500_000);
    move_player(&mut p, &keys(true, false), 10_000_000);
    assert_eq!(p.position.x, 22_500_000);
    move_player(&mut p, &keys(true, false), u32::MAX);
    assert_eq!(p.position.x, 22_500_000);
}

#[test]
fn enemy_tracks_active_ball() {
    let mut e = Enemy::default();
    let ball = ball_at(px(100), px(300), 0, SCALE);
    move_enemy(&mut e, &ball, 100_000);
    assert_eq!(e.position.x, px(195));
    let right = ball_at(px(400), px(300), 0, SCALE);
    move_enemy(&mut e, &right, 100_000);
    assert_eq!(e.position.x, px(225));
    let parked = Ball { active: false, ..ball };
    move_enemy(&mut e, &parked, 100_000);
    assert_eq!(e.position.x, px(225));
}

#[test]
fn serve_positions() {
    let mut b = Ball::default();
    init_ball(&mut b, &Turn::Player);
    assert_eq!(b.position, Vector2::new(px(225), px(670)));
    assert_eq!(b.direction, Vector2::new(0, -SCALE));
    init_ball(&mut b, &Turn::Enemy);
    assert_eq!(b.position, Vector2::new(px(225), px(130)));
    assert_eq!(b.direction, Vector2::new(0, SCALE));
}

#[test]
fn ball_moves_only_when_active() {
    let mut b = ball_at(px(225), px(670), 0, -SCALE);
    move_ball(&mut b, 100_000);
    assert_eq!(b.position, Vector2::new(px(225), px(610)));
    let mut parked = Ball { active: false, ..b };
    move_ball(&mut parked, 100_000);
    assert_eq!(parked.position, Vector2::new(px(225), px(610)));
}

#[test]
fn score_check_enemy_scores_at_bottom() {
    let mut b = ball_at(px(225), px(793), 0, SCALE);
    assert_eq!(score_check(&mut b), Some(Turn::Enemy));
    assert!(!b.active);
}

#[test]
fn score_check_player_scores_at_top() {
    let mut b = ball_at(px(225), px(7), 0, -SCALE);
    assert_eq!(score_check(&mut b), Some(Turn::Player));
    assert!(!b.active);
    let mut mid = ball_at(px(225), px(400), 0, SCALE);
    assert_eq!(score_check(&mut mid), None);
    assert!(mid.active);
}

#[test]
fn wall_bounce_flips_horizontal_direction() {
    let mut b = ball_at(px(445), px(400), 600_000, 800_000);
    bounce_off_wall(&mut b);
    assert_eq!(b.direction, Vector2::new(-600_000, 800_000));
    assert!(is_unit(&b.direction));
    let mut mid = ball_at(px(200), px(400), 600_000, 800_000);
    bounce_off_wall(&mut mid);
    assert_eq!(mid.direction, Vector2::new(600_000, 800_000));
}

#[test]
fn walls_award_points_and_round() {
    let mut b = ball_at(px(225), px(5), 0, -SCALE);
    let mut p = Player::default();
    let mut e = Enemy::default();
    let mut turn = Turn::Enemy;
    assert_eq!(on_collision_ball_walls(&mut b, &mut p, &mut e, &mut turn), None);
    assert_eq!(p.point, 1);
    assert_eq!(e.point, 0);
    assert_eq!(turn, Turn::Player);
    assert!(!b.active);

    let mut b = ball_at(px(225), px(795), 0, SCALE);
    e.point = 6;
    assert_eq!(on_collision_ball_walls(&mut b, &mut p, &mut e, &mut turn), Some(Outcome::EnemyWin));
    assert_eq!(e.point, 7);
    assert_eq!(turn, Turn::Enemy);
}

#[test]
fn brick_scenario_single_hit() {
    let brick = Brick {
        position: Vector2::new(px(75), px(100)),
        size: Vector2::new(px(75), px(20)),
        color: Color::gray(),
        active: true,
    };
    let mut bricks = vec![brick, Brick { position: Vector2::new(px(80), px(100)), ..brick }];
    let mut b = ball_at(px(75), px(110), 0, SCALE);
    assert_eq!(on_collision_ball_bricks(&mut b, &mut bricks), Some(0));
    assert!(!bricks[0].active);
    assert!(bricks[1].active);
    assert_eq!(b.direction, Vector2::new(0, -SCALE));
}

#[test]
fn brick_skipped_when_knocked_out() {
    let brick = Brick {
        position: Vector2::new(px(75), px(100)),
        size: Vector2::new(px(75), px(20)),
        color: Color::gray(),
        active: false,
    };
    let mut bricks = vec![brick];
    let mut b = ball_at(px(75), px(110), 0, SCALE);
    assert_eq!(on_collision_ball_bricks(&mut b, &mut bricks), None);
    assert_eq!(b.direction, Vector2::new(0, SCALE));
    let mut far = ball_at(px(300), px(400), 0, SCALE);
    let mut standing = vec![Brick { active: true, ..brick }];
    assert_eq!(on_collision_ball_bricks(&mut far, &mut standing), None);
    assert!(standing[0].active);
}

#[test]
fn paddle_dead_centre_sends_ball_straight_back() {
    let paddle = Rectangle::from(&Vector2::new(px(225), px(700)), &Vector2::new(px(90), px(20)));
    let mut b = ball_at(px(225), px(688), 0, SCALE);
    let mut copy = b;
    assert!(collide_ball(&mut copy, &paddle));
    on_collision_ball_paddle(&mut b, &paddle);
    assert_eq!(b.direction, Vector2::new(0, -SCALE));
}

#[test]
fn paddle_edge_sends_ball_at_an_angle() {
    let paddle = Rectangle::from(&Vector2::new(px(225), px(700)), &Vector2::new(px(90), px(20)));
    let mut b = ball_at(px(270), px(688), 0, SCALE);
    on_collision_ball_paddle(&mut b, &paddle);
    assert!(is_unit(&b.direction));
    assert!(b.direction.x > 0 && b.direction.y < 0);
    assert_eq!(b.direction.x, 316_227);
    let mut miss = ball_at(px(100), px(400), 0, SCALE);
    on_collision_ball_paddle(&mut miss, &paddle);
    assert_eq!(miss.direction, Vector2::new(0, SCALE));
}
