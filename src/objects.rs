use vstd::prelude::*;
use crate::consts::{
    BALL_RADIUS, BALL_SPEED, FIELD_HEIGHT, FIELD_WIDTH, MAX_RADIUS, PADDLE_HEIGHT, PLAYER_SPEED,
    WORLD_LIMIT,
};
use crate::geometry::{clamp, collides, trunc_div, Circle, Rectangle, Vector2, SCALE, check_collision_circle_rec};
use crate::input::Input;
use crate::render::{box_op, draw_box, Color, DrawCommand, DrawOp};

verus! {

pub open spec fn in_world(v: int) -> bool {
    -WORLD_LIMIT <= v <= WORLD_LIMIT
}

pub open spec fn in_world_vec(v: Vector2) -> bool {
    in_world(v.x as int) && in_world(v.y as int)
}

/// A coordinate saturated at the edge of the world.
pub open spec fn clamp_world(v: int) -> int {
    clamp(v, -WORLD_LIMIT, WORLD_LIMIT as int)
}

/// Distance covered in `dt` microseconds at `speed` steps per second.
pub open spec fn travel(speed: int, dt: int) -> int {
    trunc_div(speed * dt, SCALE as int)
}

/// A size that fits in the world.
pub open spec fn valid_size(v: Vector2) -> bool {
    0 <= v.x <= WORLD_LIMIT && 0 <= v.y <= WORLD_LIMIT
}

/// Which side serves the ball next.
#[derive(Clone, Copy, PartialEq, Eq, Structural, Debug)]
pub enum Turn {
    Player,
    Enemy,
}

/// The paddle at the bottom of the field, moved by the keyboard.
#[derive(Clone, Copy, PartialEq, Eq, Structural, Debug)]
pub struct Player {
    pub position: Vector2,
    pub size: Vector2,
    pub point: i32,
    /// Steps per second.
    pub speed: i64,
}

impl Player {
    pub open spec fn wf(self) -> bool {
        in_world_vec(self.position) && valid_size(self.size)
    }

    pub open spec fn initial() -> Player {
        Player {
            position: Vector2 { x: (FIELD_WIDTH / 2) as i64, y: (FIELD_HEIGHT * 7 / 8) as i64 },
            size: Vector2 { x: (FIELD_WIDTH / 10) as i64, y: PADDLE_HEIGHT },
            point: 0,
            speed: PLAYER_SPEED,
        }
    }

    pub fn collider(&self) -> (r: Rectangle)
        requires
            self.wf(),
        ensures
            r == Rectangle::centered(self.position, self.size),
    {
        Rectangle::from(&self.position, &self.size)
    }
}

impl Default for Player {
    fn default() -> (r: Self)
        ensures
            r == Player::initial(),
    {
        Player {
            position: Vector2 { x: FIELD_WIDTH / 2, y: FIELD_HEIGHT * 7 / 8 },
            size: Vector2 { x: FIELD_WIDTH / 10, y: PADDLE_HEIGHT },
            point: 0,
            speed: PLAYER_SPEED,
        }
    }
}

/// Where the keyboard puts a paddle's centre: one step along the held arrow
/// (none when both or neither are held), then pulled back so that the paddle
/// stays on the field.
pub open spec fn steered_x(x: int, half: int, left: bool, right: bool, speed: int, dt: int) -> int {
    let dir: int = (if right { 1int } else { 0int }) - (if left { 1int } else { 0int });
    let p = x + travel(dir * speed, dt);
    let p1 = if p - half <= 0 { half } else { p };
    if p1 + half >= FIELD_WIDTH { FIELD_WIDTH - half } else { p1 }
}

/// The player's paddle after `move_player`.
pub open spec fn player_moved(p: Player, input: Input, dt: int) -> Player {
    Player {
        position: Vector2 {
            x: steered_x(
                p.position.x as int,
                trunc_div(p.size.x as int, 2),
                input.left,
                input.right,
                p.speed as int,
                dt,
            ) as i64,
            y: p.position.y,
        },
        ..p
    }
}

/// Moves the player's paddle along the held arrow keys for `delta_time`
/// microseconds, keeping it on the field.
pub fn move_player(player: &mut Player, input: &Input, delta_time: u32)
    requires
        old(player).wf(),
    ensures
        *final(player) == player_moved(*old(player), *input, delta_time as int),
        final(player).wf(),
        old(player).size.x <= FIELD_WIDTH ==> old(player).size.x / 2 <= final(player).position.x
            <= FIELD_WIDTH - old(player).size.x / 2,
{
    // A direction along one axis already has unit length.
    let dir: i128 = (if input.right { 1 } else { 0 }) - (if input.left { 1 } else { 0 });
    let speed = player.speed as i128;
    let dt = delta_time as i128;
    assert(-0x8000_0000_0000_0000 <= dir * speed <= 0x8000_0000_0000_0000) by (nonlinear_arith)
        requires
            -1 <= dir <= 1,
            i64::MIN <= speed <= i64::MAX,
    ;
    assert(-0x8000_0000_0000_0000_0000_0000 <= (dir * speed) * dt
        <= 0x8000_0000_0000_0000_0000_0000) by (nonlinear_arith)
        requires
            -0x8000_0000_0000_0000 <= dir * speed <= 0x8000_0000_0000_0000,
            0 <= dt <= u32::MAX,
    ;
    let step = (dir * speed) * dt / (SCALE as i128);
    let half = (player.size.x / 2) as i128;
    let mut p = player.position.x as i128 + step;
    if p - half <= 0 {
        p = half;
    }
    if p + half >= FIELD_WIDTH as i128 {
        p = FIELD_WIDTH as i128 - half;
    }
    player.position.x = p as i64;
}

/// The paddle at the top of the field, steered toward the ball.
#[derive(Clone, Copy, PartialEq, Eq, Structural, Debug)]
pub struct Enemy {
    pub position: Vector2,
    pub size: Vector2,
    pub point: i32,
    /// Steps per second.
    pub speed: i64,
}

impl Enemy {
    pub open spec fn wf(self) -> bool {
        in_world_vec(self.position) && valid_size(self.size)
    }

    pub open spec fn initial() -> Enemy {
        Enemy {
            position: Vector2 { x: (FIELD_WIDTH / 2) as i64, y: (FIELD_HEIGHT / 8) as i64 },
            size: Vector2 { x: (FIELD_WIDTH / 10) as i64, y: PADDLE_HEIGHT },
            point: 0,
            speed: PLAYER_SPEED,
        }
    }

    pub fn collider(&self) -> (r: Rectangle)
        requires
            self.wf(),
        ensures
            r == Rectangle::centered(self.position, self.size),
    {
        Rectangle::from(&self.position, &self.size)
    }
}

impl Default for Enemy {
    fn default() -> (r: Self)
        ensures
            r == Enemy::initial(),
    {
        Enemy {
            position: Vector2 { x: FIELD_WIDTH / 2, y: FIELD_HEIGHT / 8 },
            size: Vector2 { x: FIELD_WIDTH / 10, y: PADDLE_HEIGHT },
            point: 0,
            speed: PLAYER_SPEED,
        }
    }
}

/// Where the enemy's paddle centre goes: while the ball is in play, one step
/// toward the ball's column.
pub open spec fn chased_x(x: int, ball: Ball, speed: int, dt: int) -> int {
    if ball.active && ball.position.x < x {
        clamp_world(x - travel(speed, dt))
    } else if ball.active && ball.position.x > x {
        clamp_world(x + travel(speed, dt))
    } else {
        x
    }
}

/// The enemy's paddle after `move_enemy`.
pub open spec fn enemy_moved(e: Enemy, ball: Ball, dt: int) -> Enemy {
    Enemy {
        position: Vector2 {
            x: chased_x(e.position.x as int, ball, e.speed as int, dt) as i64,
            y: e.position.y,
        },
        ..e
    }
}

/// Moves the enemy's paddle one step of `delta_time` microseconds toward
/// the ball, if the ball is in play.
pub fn move_enemy(enemy: &mut Enemy, ball: &Ball, delta_time: u32)
    requires
        old(enemy).wf(),
    ensures
        *final(enemy) == enemy_moved(*old(enemy), *ball, delta_time as int),
        final(enemy).wf(),
{
    if ball.active {
        let speed = enemy.speed as i128;
        let dt = delta_time as i128;
        assert(-0x8000_0000_0000_0000_0000_0000 <= speed * dt <= 0x8000_0000_0000_0000_0000_0000)
            by (nonlinear_arith)
            requires
                i64::MIN <= speed <= i64::MAX,
                0 <= dt <= u32::MAX,
        ;
        let step = speed * dt / (SCALE as i128);
        let x = enemy.position.x as i128;
        if ball.position.x < enemy.position.x {
            enemy.position.x = clamp_to_world(x - step);
        } else if ball.position.x > enemy.position.x {
            enemy.position.x = clamp_to_world(x + step);
        }
    }
}

fn clamp_to_world(v: i128) -> (r: i64)
    ensures
        r == clamp_world(v as int),
{
    if v < -(WORLD_LIMIT as i128) {
        -WORLD_LIMIT
    } else if v > WORLD_LIMIT as i128 {
        WORLD_LIMIT
    } else {
        v as i64
    }
}

#[derive(Clone, Copy, PartialEq, Eq, Structural, Debug)]
pub struct Ball {
    pub position: Vector2,
    /// Of unit length (`SCALE`) while the ball is in play.
    pub direction: Vector2,
    /// Steps per second.
    pub speed: i64,
    pub radius: i64,
    pub active: bool,
}

pub open spec fn small_direction(d: Vector2) -> bool {
    -2 * SCALE <= d.x <= 2 * SCALE && -2 * SCALE <= d.y <= 2 * SCALE
}

impl Ball {
    pub open spec fn wf(self) -> bool {
        &&& in_world_vec(self.position)
        &&& small_direction(self.direction)
        &&& 0 <= self.radius <= MAX_RADIUS
    }

    pub open spec fn circle(self) -> Circle {
        Circle { center: self.position, radius: self.radius }
    }

    pub open spec fn initial() -> Ball {
        Ball {
            position: Vector2 { x: 0, y: 0 },
            direction: Vector2 { x: 0, y: 0 },
            speed: BALL_SPEED,
            radius: BALL_RADIUS,
            active: false,
        }
    }

    pub fn collider(&self) -> (r: Circle)
        ensures
            r == self.circle(),
    {
        Circle::from(&self.position, self.radius)
    }
}

impl Default for Ball {
    fn default() -> (r: Self)
        ensures
            r == Ball::initial(),
    {
        Ball {
            position: Vector2 { x: 0, y: 0 },
            direction: Vector2 { x: 0, y: 0 },
            speed: BALL_SPEED,
            radius: BALL_RADIUS,
            active: false,
        }
    }
}

/// Where the ball waits before a serve: just in front of the serving paddle.
pub open spec fn serve_position(turn: Turn) -> Vector2 {
    match turn {
        Turn::Player => Vector2 { x: (FIELD_WIDTH / 2) as i64, y: (FIELD_HEIGHT * 7 / 8 - 30 * SCALE) as i64 },
        Turn::Enemy => Vector2 { x: (FIELD_WIDTH / 2) as i64, y: (FIELD_HEIGHT / 8 + 30 * SCALE) as i64 },
    }
}

/// Straight up for the player's serve, straight down for the enemy's.
pub open spec fn serve_direction(turn: Turn) -> Vector2 {
    match turn {
        Turn::Player => Vector2 { x: 0, y: (-SCALE) as i64 },
        Turn::Enemy => Vector2 { x: 0, y: SCALE },
    }
}

/// Places the ball for a serve by `turn`.
pub fn init_ball(ball: &mut Ball, turn: &Turn)
    ensures
        final(ball).position == serve_position(*turn),
        final(ball).direction == serve_direction(*turn),
        final(ball).speed == old(ball).speed,
        final(ball).radius == old(ball).radius,
        final(ball).active == old(ball).active,
        old(ball).wf() ==> final(ball).wf(),
{
    ball.position = match turn {
        Turn::Player => Vector2 { x: FIELD_WIDTH / 2, y: FIELD_HEIGHT * 7 / 8 - 30 * SCALE },
        Turn::Enemy => Vector2 { x: FIELD_WIDTH / 2, y: FIELD_HEIGHT / 8 + 30 * SCALE },
    };
    ball.direction = match turn {
        Turn::Player => Vector2 { x: 0, y: -SCALE },
        Turn::Enemy => Vector2 { x: 0, y: SCALE },
    };
}

/// Whether the ball touches the rectangle.
pub fn collide_ball(ball: &mut Ball, rectangle: &Rectangle) -> (r: bool)
    requires
        old(ball).wf(),
    ensures
        r == collides(old(ball).circle(), *rectangle),
        *final(ball) == *old(ball),
{
    check_collision_circle_rec(&ball.collider(), rectangle)
}

/// One component of a move: `d * speed * dt`, scaled back to steps and
/// saturated at the edge of the world.
pub open spec fn advanced(p: int, d: int, speed: int, dt: int) -> int {
    clamp_world(p + trunc_div(d * speed * dt, SCALE * SCALE))
}

/// The ball after `move_ball`.
pub open spec fn ball_moved(b: Ball, dt: int) -> Ball {
    if b.active {
        Ball {
            position: Vector2 {
                x: advanced(b.position.x as int, b.direction.x as int, b.speed as int, dt) as i64,
                y: advanced(b.position.y as int, b.direction.y as int, b.speed as int, dt) as i64,
            },
            ..b
        }
    } else {
        b
    }
}

/// Moves the ball along its direction for `delta_time` microseconds, if it
/// is in play.
pub fn move_ball(ball: &mut Ball, delta_time: u32)
    requires
        old(ball).wf(),
    ensures
        *final(ball) == ball_moved(*old(ball), delta_time as int),
        final(ball).wf(),
{
    if ball.active {
        let x = advance_component(ball.position.x, ball.direction.x, ball.speed, delta_time);
        let y = advance_component(ball.position.y, ball.direction.y, ball.speed, delta_time);
        ball.position = Vector2 { x, y };
    }
}

fn advance_component(p: i64, d: i64, speed: i64, delta_time: u32) -> (r: i64)
    requires
        in_world(p as int),
        -2 * SCALE <= d <= 2 * SCALE,
    ensures
        r == advanced(p as int, d as int, speed as int, delta_time as int),
{
    let d = d as i128;
    let speed = speed as i128;
    let dt = delta_time as i128;
    assert(-0x20_0000_0000_0000_0000_0000 <= d * speed <= 0x20_0000_0000_0000_0000_0000)
        by (nonlinear_arith)
        requires
            -2_000_000 <= d <= 2_000_000,
            i64::MIN <= speed <= i64::MAX,
    ;
    assert(-0x20_0000_0000_0000_0000_0000_0000_0000 <= (d * speed) * dt
        <= 0x20_0000_0000_0000_0000_0000_0000_0000) by (nonlinear_arith)
        requires
            -0x20_0000_0000_0000_0000_0000 <= d * speed <= 0x20_0000_0000_0000_0000_0000,
            0 <= dt <= u32::MAX,
    ;
    let scale_sq: i128 = 1_000_000_000_000;
    assert(scale_sq == SCALE * SCALE);
    let step = (d * speed) * dt / scale_sq;
    clamp_to_world(p as i128 + step)
}

#[derive(Clone, Copy, PartialEq, Eq, Structural, Debug)]
pub struct Brick {
    pub position: Vector2,
    pub active: bool,
    pub color: Color,
    pub size: Vector2,
}

impl Brick {
    pub open spec fn wf(self) -> bool {
        in_world_vec(self.position) && valid_size(self.size)
    }

    pub fn collider(&self) -> (r: Rectangle)
        requires
            self.wf(),
        ensures
            r == Rectangle::centered(self.position, self.size),
    {
        Rectangle::from(&self.position, &self.size)
    }
}

pub fn draw_player(player: &Player) -> (r: DrawCommand)
    requires
        player.wf(),
    ensures
        r@ == box_op(player.position, player.size, Color::paddle_gray_spec()),
{
    draw_box(&player.position, &player.size, Color::paddle_gray())
}

pub fn draw_enemy(enemy: &Enemy) -> (r: DrawCommand)
    requires
        enemy.wf(),
    ensures
        r@ == box_op(enemy.position, enemy.size, Color::paddle_gray_spec()),
{
    draw_box(&enemy.position, &enemy.size, Color::paddle_gray())
}

pub fn draw_ball(ball: &Ball) -> (r: DrawCommand)
    ensures
        r@ == DrawOp::Circle(ball.position, ball.radius, Color::maroon_spec()),
{
    DrawCommand::Circle { center: ball.position, radius: ball.radius, color: Color::maroon() }
}

pub fn draw_brick(brick: &Brick) -> (r: DrawCommand)
    requires
        brick.wf(),
    ensures
        r@ == box_op(brick.position, brick.size, brick.color),
{
    draw_box(&brick.position, &brick.size, brick.color)
}

} // verus!
