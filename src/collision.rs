use vstd::prelude::*;
use crate::consts::{FIELD_HEIGHT, FIELD_WIDTH, MAX_RADIUS, WIN_POINTS};
use crate::geometry::{clamp, collides, lemma_normalized_unit, trunc_div, Rectangle, Vector2, SCALE, UNIT_TOLERANCE};
use crate::objects::{collide_ball, small_direction, Ball, Brick, Enemy, Player, Turn};

verus! {

/// Who has won a round.
#[derive(Clone, Copy, PartialEq, Eq, Structural, Debug)]
pub enum Outcome {
    PlayerWin,
    EnemyWin,
}

pub open spec fn hits_side_wall(b: Ball) -> bool {
    b.position.x + b.radius >= FIELD_WIDTH || b.position.x - b.radius <= 0
}

pub open spec fn flip_x(d: Vector2) -> Vector2 {
    Vector2 { x: (-d.x) as i64, y: d.y }
}

pub open spec fn flip_y(d: Vector2) -> Vector2 {
    Vector2 { x: d.x, y: (-d.y) as i64 }
}

/// The ball after `bounce_off_wall`.
pub open spec fn wall_bounced(b: Ball) -> Ball {
    if hits_side_wall(b) {
        Ball { direction: flip_x(b.direction), ..b }
    } else {
        b
    }
}

/// Turns the ball back horizontally when it reaches a side of the field.
pub fn bounce_off_wall(ball: &mut Ball)
    requires
        old(ball).wf(),
    ensures
        *final(ball) == wall_bounced(*old(ball)),
        final(ball).wf(),
{
    if ball.position.x + ball.radius >= FIELD_WIDTH || ball.position.x - ball.radius <= 0 {
        ball.direction.x = -ball.direction.x;
    }
}

/// Who scores with the ball where it is: the player when it reaches the top
/// of the field, the enemy when it reaches the bottom.
pub open spec fn scorer(b: Ball) -> Option<Turn> {
    if b.position.y - b.radius <= 0 {
        Some(Turn::Player)
    } else if b.position.y + b.radius >= FIELD_HEIGHT {
        Some(Turn::Enemy)
    } else {
        None
    }
}

/// Reports who scores, if anyone, and then takes the ball out of play.
pub fn score_check(ball: &mut Ball) -> (r: Option<Turn>)
    requires
        old(ball).wf(),
    ensures
        r == scorer(*old(ball)),
        r is Some ==> *final(ball) == (Ball { active: false, ..*old(ball) }),
        r is None ==> *final(ball) == *old(ball),
        final(ball).wf(),
{
    if ball.position.y - ball.radius <= 0 {
        ball.active = false;
        Some(Turn::Player)
    } else if ball.position.y + ball.radius >= FIELD_HEIGHT {
        ball.active = false;
        Some(Turn::Enemy)
    } else {
        None
    }
}

/// What `on_collision_ball_walls` leaves: the ball, the two paddles, the
/// next serve, and the round's outcome if it was decided.
pub open spec fn walls_settled(b0: Ball, p: Player, e: Enemy, t: Turn) -> (
    Ball,
    Player,
    Enemy,
    Turn,
    Option<Outcome>,
) {
    let b = wall_bounced(b0);
    match scorer(b) {
        Some(Turn::Player) => (
            Ball { active: false, ..b },
            Player { point: (p.point + 1) as i32, ..p },
            e,
            Turn::Player,
            if p.point + 1 >= WIN_POINTS {
                Some(Outcome::PlayerWin)
            } else {
                None
            },
        ),
        Some(Turn::Enemy) => (
            Ball { active: false, ..b },
            p,
            Enemy { point: (e.point + 1) as i32, ..e },
            Turn::Enemy,
            if e.point + 1 >= WIN_POINTS {
                Some(Outcome::EnemyWin)
            } else {
                None
            },
        ),
        None => (b, p, e, t, None),
    }
}

/// Bounces the ball off the side walls, then settles a point if the ball
/// left the field at the top or the bottom: the scorer gets the point and
/// the next serve, and a round is won at `WIN_POINTS` points.
pub fn on_collision_ball_walls(
    ball: &mut Ball,
    player: &mut Player,
    enemy: &mut Enemy,
    turn: &mut Turn,
) -> (r: Option<Outcome>)
    requires
        old(ball).wf(),
        old(player).point < i32::MAX,
        old(enemy).point < i32::MAX,
    ensures
        (*final(ball), *final(player), *final(enemy), *final(turn), r) == walls_settled(
            *old(ball),
            *old(player),
            *old(enemy),
            *old(turn),
        ),
        final(ball).wf(),
{
    bounce_off_wall(ball);
    match score_check(ball) {
        Some(Turn::Player) => {
            player.point = player.point + 1;
            *turn = Turn::Player;
            if player.point >= WIN_POINTS {
                Some(Outcome::PlayerWin)
            } else {
                None
            }
        },
        Some(Turn::Enemy) => {
            enemy.point = enemy.point + 1;
            *turn = Turn::Enemy;
            if enemy.point >= WIN_POINTS {
                Some(Outcome::EnemyWin)
            } else {
                None
            }
        },
        None => None,
    }
}

/// A paddle the ball can bounce off: wide enough to have a centre.
pub open spec fn valid_paddle(rect: Rectangle) -> bool {
    2 <= rect.width
}

/// The direction a paddle sends the ball back in, before it is normalized:
/// vertically reversed, and sideways by the offset from the paddle's centre
/// over half its width, divided by three.
pub open spec fn paddle_turned(b: Ball, rect: Rectangle) -> Vector2 {
    let half = trunc_div(rect.width as int, 2);
    let offset = b.position.x - (rect.x + half);
    Vector2 { x: trunc_div(offset * SCALE, 3 * half) as i64, y: (-b.direction.y) as i64 }
}

/// The ball after `on_collision_ball_paddle`.
pub open spec fn paddle_bounced(b: Ball, rect: Rectangle) -> Ball {
    if collides(b.circle(), rect) {
        Ball { direction: paddle_turned(b, rect).normalized(), ..b }
    } else {
        b
    }
}

/// The magnitude of the sideways part of a paddle bounce stays within
/// `MAX_RADIUS · SCALE + SCALE` when the ball touches the paddle.
proof fn lemma_paddle_offset_bounded(b: Ball, rect: Rectangle)
    requires
        b.wf(),
        valid_paddle(rect),
        collides(b.circle(), rect),
    ensures
        ({
            let half = trunc_div(rect.width as int, 2);
            let offset = b.position.x - (rect.x + half);
            let m = MAX_RADIUS * SCALE + SCALE;
            -m * (3 * half) <= offset * SCALE <= m * (3 * half)
        }),
{
    let half = trunc_div(rect.width as int, 2);
    let offset = b.position.x - (rect.x + half);
    let r = b.radius as int;
    let dx = b.position.x - clamp(b.position.x as int, rect.x as int, rect.x + rect.width);
    let dy = b.position.y - clamp(b.position.y as int, rect.y as int, rect.y + rect.height);
    assert(-r <= dx <= r) by (nonlinear_arith)
        requires
            dx * dx + dy * dy <= r * r,
            r >= 0,
    ;
    assert(-(r + 3 * half) <= offset <= r + 3 * half);
    let sc = SCALE as int;
    let m = MAX_RADIUS * SCALE + SCALE;
    assert(-m * (3 * half) <= offset * sc <= m * (3 * half)) by (nonlinear_arith)
        requires
            -(r + 3 * half) <= offset <= r + 3 * half,
            0 <= r <= MAX_RADIUS,
            half >= 1,
            sc == SCALE,
            m == MAX_RADIUS * SCALE + SCALE,
    ;
}

/// A vector of length within tolerance of `SCALE` has components of at most
/// twice `SCALE`.
proof fn lemma_unit_is_small(d: Vector2)
    requires
        d.is_unit(),
    ensures
        small_direction(d),
{
    let t = (SCALE + UNIT_TOLERANCE) * (SCALE + UNIT_TOLERANCE);
    assert(-2 * SCALE <= d.x <= 2 * SCALE && -2 * SCALE <= d.y <= 2 * SCALE) by (nonlinear_arith)
        requires
            d.x * d.x + d.y * d.y <= t,
            t == (SCALE + UNIT_TOLERANCE) * (SCALE + UNIT_TOLERANCE),
    ;
}

proof fn lemma_short_is_small(d: Vector2)
    requires
        d.is_short(),
    ensures
        small_direction(d),
{
    assert(-10 <= d.x <= 10 && -10 <= d.y <= 10) by (nonlinear_arith)
        requires
            d.x * d.x + d.y * d.y < 100,
    ;
}

/// Bounces the ball off a paddle it touches; the direction it leaves in
/// depends on where it struck.
pub fn on_collision_ball_paddle(ball: &mut Ball, paddle: &Rectangle)
    requires
        old(ball).wf(),
        valid_paddle(*paddle),
    ensures
        *final(ball) == paddle_bounced(*old(ball), *paddle),
        final(ball).wf(),
{
    if collide_ball(ball, paddle) {
        let half = paddle.width / 2;
        let offset = ball.position.x as i128 - (paddle.x as i128 + half as i128);
        proof {
            lemma_paddle_offset_bounded(*ball, *paddle);
        }
        let num = offset * (SCALE as i128);
        let den = 3 * (half as i128);
        let m: i128 = MAX_RADIUS as i128 * SCALE as i128 + SCALE as i128;
        let x = num / den;
        assert(-m <= x <= m) by (nonlinear_arith)
            requires
                -m * den <= num <= m * den,
                den > 0,
                m > 0,
                x == trunc_div(num as int, den as int),
        ;
        let mut direction = Vector2 { x: x as i64, y: -ball.direction.y };
        direction.normalize();
        proof {
            if !paddle_turned(*ball, *paddle).is_short() {
                lemma_unit_is_small(direction);
            } else {
                lemma_short_is_small(direction);
            }
        }
        ball.direction = direction;
    }
}

/// A brick the ball knocks out: one still standing that the ball touches.
pub open spec fn hits_brick(b: Ball, brick: Brick) -> bool {
    brick.active && collides(b.circle(), Rectangle::centered(brick.position, brick.size))
}

/// `i` is the first brick in the list that the ball knocks out.
pub open spec fn is_first_hit(b: Ball, bricks: Seq<Brick>, i: int) -> bool {
    &&& 0 <= i < bricks.len()
    &&& hits_brick(b, bricks[i])
    &&& forall|j: int| 0 <= j < i ==> !hits_brick(b, #[trigger] bricks[j])
}

pub open spec fn all_bricks_wf(bricks: Seq<Brick>) -> bool {
    forall|j: int| 0 <= j < bricks.len() ==> (#[trigger] bricks[j]).wf()
}

/// The index of the first brick in the list that the ball knocks out.
pub open spec fn first_hit(b: Ball, bricks: Seq<Brick>) -> Option<int> {
    if exists|i: int| is_first_hit(b, bricks, i) {
        Some(choose|i: int| is_first_hit(b, bricks, i))
    } else {
        None
    }
}

proof fn lemma_first_hit_unique(b: Ball, bricks: Seq<Brick>, i: int)
    requires
        is_first_hit(b, bricks, i),
    ensures
        first_hit(b, bricks) == Some(i),
{
    let k = choose|k: int| is_first_hit(b, bricks, k);
    assert(is_first_hit(b, bricks, k));
    if k < i {
        assert(!hits_brick(b, bricks[k]));
    } else if i < k {
        assert(!hits_brick(b, bricks[i]));
    }
}

/// The ball and the bricks after `on_collision_ball_bricks`.
pub open spec fn bricks_struck(b: Ball, bricks: Seq<Brick>) -> (Ball, Seq<Brick>) {
    match first_hit(b, bricks) {
        Some(i) => (
            Ball { direction: flip_y(b.direction), ..b },
            bricks.update(i, Brick { active: false, ..bricks[i] }),
        ),
        None => (b, bricks),
    }
}

/// Knocks out the first standing brick the ball touches, if any, and turns
/// the ball back vertically. At most one brick falls per call; its index is
/// returned.
pub fn on_collision_ball_bricks(ball: &mut Ball, bricks: &mut Vec<Brick>) -> (r: Option<usize>)
    requires
        old(ball).wf(),
        all_bricks_wf(old(bricks)@),
    ensures
        (*final(ball), final(bricks)@) == bricks_struck(*old(ball), old(bricks)@),
        match r {
            Some(i) => first_hit(*old(ball), old(bricks)@) == Some(i as int),
            None => first_hit(*old(ball), old(bricks)@) is None,
        },
        final(ball).wf(),
        all_bricks_wf(final(bricks)@),
{
    let mut i: usize = 0;
    while i < bricks.len()
        invariant
            *ball == *old(ball),
            *bricks == *old(bricks),
            ball.wf(),
            all_bricks_wf(bricks@),
            0 <= i <= bricks@.len(),
            forall|j: int| 0 <= j < i ==> !hits_brick(*ball, #[trigger] bricks@[j]),
        decreases bricks.len() - i,
    {
        let brick = bricks[i];
        if brick.active && collide_ball(ball, &brick.collider()) {
            proof {
                lemma_first_hit_unique(*ball, bricks@, i as int);
            }
            bricks.set(i, Brick { active: false, ..brick });
            ball.direction.y = -ball.direction.y;
            return Some(i);
        }
        i = i + 1;
    }
    proof {
        if exists|k: int| is_first_hit(*ball, bricks@, k) {
            let k = choose|k: int| is_first_hit(*ball, bricks@, k);
            assert(!hits_brick(*ball, bricks@[k]));
        }
    }
    None
}

/// Every bounce keeps a unit direction of unit length: the walls and the
/// bricks only reverse one component, and a paddle normalizes the direction
/// it sends the ball in, unless that direction came out shorter than
/// `NORMALIZE_EPSILON`.
pub proof fn lemma_bounces_keep_unit_direction(b: Ball, rect: Rectangle)
    requires
        b.direction.is_unit(),
        !paddle_turned(b, rect).is_short(),
    ensures
        wall_bounced(b).direction.is_unit(),
        flip_y(b.direction).is_unit(),
        paddle_bounced(b, rect).direction.is_unit(),
{
    let d = b.direction;
    lemma_unit_is_small(d);
    assert(flip_x(d).norm_sq() == d.norm_sq()) by (nonlinear_arith)
        requires
            flip_x(d).x == -d.x,
            flip_x(d).y == d.y,
    ;
    assert(flip_y(d).norm_sq() == d.norm_sq()) by (nonlinear_arith)
        requires
            flip_y(d).y == -d.y,
            flip_y(d).x == d.x,
    ;
    lemma_normalized_unit(paddle_turned(b, rect));
}

} // verus!
