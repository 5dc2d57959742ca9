use vstd::prelude::*;
use crate::collision::{
    all_bricks_wf, bricks_struck, on_collision_ball_bricks, on_collision_ball_paddle,
    on_collision_ball_walls, paddle_bounced, walls_settled, Outcome,
};
use crate::consts::{
    BRICKS_PER_LINE, BRICK_HEIGHT, FIELD_HEIGHT, SCREEN_HEIGHT, SCREEN_WIDTH, WIN_POINTS,
};
use crate::geometry::{Rectangle, Vector2, SCALE};
use crate::input::Input;
use crate::objects::{
    ball_moved, draw_ball, draw_brick, draw_enemy, draw_player, enemy_moved, in_world, init_ball,
    move_ball, move_enemy, move_player, player_moved, serve_direction, serve_position, Ball, Brick,
    Enemy, Player, Turn,
};
use crate::render::{box_op, draw_point, point_op, views, Color, DrawCommand, DrawOp};
use crate::scene::SceneResult;

verus! {

/// Where a round stands.
#[derive(Clone, Copy, PartialEq, Eq, Structural, Debug)]
pub enum Phase {
    /// Waiting for Enter before the first round.
    NotStarted,
    Playing,
    Paused,
    /// Waiting for Enter to start a new round.
    Finished(Outcome),
}

/// The paddle-and-bricks game: the player at the bottom, the enemy at the
/// top, a line of bricks along each end.
pub struct Level0 {
    pub player: Player,
    pub enemy: Enemy,
    pub ball: Ball,
    pub bricks: Vec<Brick>,
    /// Who serves next.
    pub turn: Turn,
    pub phase: Phase,
}

/// A `Level0` with its bricks as a sequence.
pub struct Level0State {
    pub player: Player,
    pub enemy: Enemy,
    pub ball: Ball,
    pub bricks: Seq<Brick>,
    pub turn: Turn,
    pub phase: Phase,
}

impl View for Level0 {
    type V = Level0State;

    open spec fn view(&self) -> Level0State {
        Level0State {
            player: self.player,
            enemy: self.enemy,
            ball: self.ball,
            bricks: self.bricks@,
            turn: self.turn,
            phase: self.phase,
        }
    }
}

/// Width (in steps) of each of `n` bricks that share the screen's width.
pub open spec fn brick_width(n: int) -> int {
    ((SCREEN_WIDTH as int) / n) * SCALE
}

/// A line of `n` standing bricks centred at height `y`, side by side from the
/// left edge, coloured by cycling through `colors`.
pub open spec fn brick_line(y: i64, n: int, colors: Seq<Color>) -> Seq<Brick> {
    let w = brick_width(n);
    Seq::new(
        n as nat,
        |i: int|
            Brick {
                position: Vector2 { x: (i * w + w / 2) as i64, y },
                size: Vector2 { x: w as i64, y: BRICK_HEIGHT },
                color: colors[i % (colors.len() as int)],
                active: true,
            },
    )
}

/// The bricks of a new round: a line along the top and one along the bottom.
pub open spec fn initial_bricks() -> Seq<Brick> {
    brick_line(
        (BRICK_HEIGHT / 2) as i64,
        BRICKS_PER_LINE as int,
        seq![Color::gray_spec(), Color::dark_gray_spec()],
    ) + brick_line(
        (FIELD_HEIGHT - BRICK_HEIGHT / 2) as i64,
        BRICKS_PER_LINE as int,
        seq![Color::dark_gray_spec(), Color::gray_spec()],
    )
}

impl Level0State {
    pub open spec fn wf(self) -> bool {
        &&& self.player.wf()
        &&& self.enemy.wf()
        &&& self.player.size.x >= 2
        &&& self.enemy.size.x >= 2
        &&& self.ball.wf()
        &&& all_bricks_wf(self.bricks)
        &&& (self.phase is Playing || self.phase is Paused) ==> self.player.point < WIN_POINTS
            && self.enemy.point < WIN_POINTS
    }

    /// The state `Level0::new` gives: nothing started yet.
    pub open spec fn fresh() -> Level0State {
        Level0State {
            player: Player::initial(),
            enemy: Enemy::initial(),
            ball: Ball::initial(),
            bricks: Seq::empty(),
            turn: Turn::Player,
            phase: Phase::NotStarted,
        }
    }

    /// The state `Level0::init` gives: a new round, the player to serve.
    pub open spec fn initial() -> Level0State {
        Level0State {
            player: Player::initial(),
            enemy: Enemy::initial(),
            ball: Ball::initial(),
            bricks: initial_bricks(),
            turn: Turn::Player,
            phase: Phase::Playing,
        }
    }
}

/// One frame of a round in play: the player's paddle moves; unless the ball
/// waits for a serve that does not come, the ball and the enemy move, and
/// the ball meets the walls, the two paddles and the bricks, in that order.
pub open spec fn played(s: Level0State, input: Input, dt: int) -> Level0State {
    let player = player_moved(s.player, input, dt);
    if !s.ball.active && !input.serve {
        Level0State { player, ..s }
    } else {
        let served = if s.ball.active {
            s.ball
        } else {
            Ball {
                active: true,
                position: serve_position(s.turn),
                direction: serve_direction(s.turn),
                ..s.ball
            }
        };
        let b1 = ball_moved(served, dt);
        let enemy = enemy_moved(s.enemy, b1, dt);
        let (b2, player2, enemy2, turn, outcome) = walls_settled(b1, player, enemy, s.turn);
        let b3 = paddle_bounced(b2, Rectangle::centered(player2.position, player2.size));
        let b4 = paddle_bounced(b3, Rectangle::centered(enemy2.position, enemy2.size));
        let (b5, bricks) = bricks_struck(b4, s.bricks);
        Level0State {
            player: player2,
            enemy: enemy2,
            ball: b5,
            bricks,
            turn,
            phase: match outcome {
                Some(o) => Phase::Finished(o),
                None => Phase::Playing,
            },
        }
    }
}

/// One frame of `Level0`: Enter starts a round when none is under way; P
/// pauses and resumes a round; a round that is not paused is played.
pub open spec fn level0_step(s: Level0State, input: Input, dt: int) -> Level0State {
    match s.phase {
        Phase::NotStarted => if input.enter {
            Level0State::initial()
        } else {
            s
        },
        Phase::Finished(_) => if input.enter {
            Level0State::initial()
        } else {
            s
        },
        _ => {
            let paused = (s.phase is Paused) != input.pause;
            if paused {
                Level0State { phase: Phase::Paused, ..s }
            } else {
                played(Level0State { phase: Phase::Playing, ..s }, input, dt)
            }
        },
    }
}

/// The draw operations for the standing bricks, in list order.
pub open spec fn brick_ops(bricks: Seq<Brick>) -> Seq<DrawOp>
    decreases bricks.len(),
{
    if bricks.len() == 0 {
        Seq::empty()
    } else {
        let last = bricks.last();
        brick_ops(bricks.drop_last()) + if last.active {
            seq![box_op(last.position, last.size, last.color)]
        } else {
            Seq::empty()
        }
    }
}

/// What is drawn over a finished or paused round.
pub open spec fn overlay_ops(phase: Phase) -> Seq<DrawOp> {
    match phase {
        Phase::Finished(Outcome::PlayerWin) => seq![
            DrawOp::Rectangle(0, 0, SCREEN_WIDTH, SCREEN_HEIGHT, Color { r: 0, g: 0, b: 128, a: 200 }),
            DrawOp::CenteredText("You Win!"@, 40, Color::maroon_spec()),
        ],
        Phase::Finished(Outcome::EnemyWin) => seq![
            DrawOp::Rectangle(0, 0, SCREEN_WIDTH, SCREEN_HEIGHT, Color { r: 0, g: 0, b: 128, a: 200 }),
            DrawOp::CenteredText("Enemy Win!"@, 40, Color::maroon_spec()),
        ],
        Phase::Paused => seq![DrawOp::CenteredText("PAUSE"@, 40, Color::maroon_spec())],
        _ => Seq::empty(),
    }
}

/// The frame `Level0::draw` describes: the background, then either the
/// invitation to start or the scores, the paddles, the ball while in play,
/// the standing bricks and the overlay.
pub open spec fn picture(s: Level0State) -> Seq<DrawOp> {
    seq![DrawOp::Clear(Color::elegant_black_spec())] + if s.phase is NotStarted {
        seq![DrawOp::CenteredText("Press [ENTER] to Play"@, 20, Color::maroon_spec())]
    } else {
        seq![
            point_op(s.player.point, 20, 450),
            point_op(s.enemy.point, 400, 300),
            box_op(s.player.position, s.player.size, Color::paddle_gray_spec()),
            box_op(s.enemy.position, s.enemy.size, Color::paddle_gray_spec()),
        ] + (if s.ball.active {
            seq![DrawOp::Circle(s.ball.position, s.ball.radius, Color::maroon_spec())]
        } else {
            Seq::empty()
        }) + brick_ops(s.bricks) + overlay_ops(s.phase)
    }
}

fn push_command(out: &mut Vec<DrawCommand>, c: DrawCommand)
    ensures
        views(final(out)@) == views(old(out)@).push(c@),
{
    out.push(c);
    assert(views(out@) =~= views(old(out)@).push(c@));
}

/// Draws the bricks that still stand.
fn draw_bricks(out: &mut Vec<DrawCommand>, bricks: &Vec<Brick>)
    requires
        all_bricks_wf(bricks@),
    ensures
        views(final(out)@) == views(old(out)@) + brick_ops(bricks@),
{
    let mut i: usize = 0;
    while i < bricks.len()
        invariant
            0 <= i <= bricks@.len(),
            all_bricks_wf(bricks@),
            views(out@) == views(old(out)@) + brick_ops(bricks@.take(i as int)),
        decreases bricks.len() - i,
    {
        let ghost before = views(out@);
        let brick = &bricks[i];
        assert(bricks@.take(i as int + 1).drop_last() =~= bricks@.take(i as int));
        if brick.active {
            push_command(out, draw_brick(brick));
            assert(views(out@) =~= views(old(out)@) + brick_ops(bricks@.take(i as int + 1)));
        } else {
            assert(views(out@) =~= views(old(out)@) + brick_ops(bricks@.take(i as int + 1)));
        }
        i = i + 1;
    }
    assert(bricks@.take(i as int) =~= bricks@);
}

/// Appends a line of `bricks_per_line` standing bricks at height `y`.
fn init_brick_line(bricks: &mut Vec<Brick>, y: i64, bricks_per_line: i32, colors: &[Color])
    requires
        bricks_per_line > 0,
        colors@.len() > 0,
        in_world(y as int),
        all_bricks_wf(old(bricks)@),
    ensures
        final(bricks)@ == old(bricks)@ + brick_line(y, bricks_per_line as int, colors@),
        all_bricks_wf(final(bricks)@),
{
    let n = bricks_per_line;
    let w: i64 = ((SCREEN_WIDTH / n) as i64) * SCALE;
    let ghost line = brick_line(y, n as int, colors@);
    let mut i: i32 = 0;
    while i < n
        invariant
            0 <= i <= n,
            n == bricks_per_line,
            n > 0,
            colors@.len() > 0,
            in_world(y as int),
            w == brick_width(n as int),
            line == brick_line(y, n as int, colors@),
            bricks@ == old(bricks)@ + line.take(i as int),
            all_bricks_wf(bricks@),
        decreases n - i,
    {
        assert(0 <= (i as int) * w + w / 2 <= 450 * SCALE) by (nonlinear_arith)
            requires
                0 <= i < n,
                w == (450int / (n as int)) * SCALE,
                n > 0,
        ;
        let brick = Brick {
            position: Vector2 { x: (i as i64) * w + w / 2, y },
            size: Vector2 { x: w, y: BRICK_HEIGHT },
            color: colors[(i as usize) % colors.len()],
            active: true,
        };
        assert(brick == line[i as int]);
        bricks.push(brick);
        assert(line.take(i as int + 1) =~= line.take(i as int).push(brick));
        i = i + 1;
    }
    assert(line.take(n as int) =~= line);
}

impl Level0 {
    pub fn new() -> (r: Self)
        ensures
            r@ == Level0State::fresh(),
            r@.wf(),
    {
        Level0 {
            player: Player::default(),
            enemy: Enemy::default(),
            ball: Ball::default(),
            bricks: Vec::new(),
            turn: Turn::Player,
            phase: Phase::NotStarted,
        }
    }

    /// Starts a new round; the state it leaves does not depend on the one
    /// before.
    pub fn init(&mut self)
        ensures
            final(self)@ == Level0State::initial(),
            final(self)@.wf(),
    {
        self.player = Player::default();
        self.enemy = Enemy::default();
        self.ball = Ball::default();
        self.bricks = Vec::new();
        self.turn = Turn::Player;
        self.phase = Phase::Playing;
        let top = [Color::gray(), Color::dark_gray()];
        let bottom = [Color::dark_gray(), Color::gray()];
        init_brick_line(&mut self.bricks, BRICK_HEIGHT / 2, BRICKS_PER_LINE, &top);
        init_brick_line(
            &mut self.bricks,
            FIELD_HEIGHT - BRICK_HEIGHT / 2,
            BRICKS_PER_LINE,
            &bottom,
        );
        assert(top@ =~= seq![Color::gray_spec(), Color::dark_gray_spec()]);
        assert(bottom@ =~= seq![Color::dark_gray_spec(), Color::gray_spec()]);
        assert(self.bricks@ =~= initial_bricks());
    }

    /// Runs one frame of the game on this frame's keys.
    pub fn update(&mut self, input: &Input, delta_time: u32)
        requires
            old(self)@.wf(),
        ensures
            final(self)@ == level0_step(old(self)@, *input, delta_time as int),
            final(self)@.wf(),
    {
        match self.phase {
            Phase::NotStarted | Phase::Finished(_) => {
                if input.enter {
                    self.init();
                }
                return ;
            },
            _ => {},
        }
        if input.pause {
            self.phase = if self.phase == Phase::Paused {
                Phase::Playing
            } else {
                Phase::Paused
            };
        }
        if self.phase == Phase::Paused {
            return ;
        }
        move_player(&mut self.player, input, delta_time);
        if !self.ball.active {
            if input.serve {
                self.ball.active = true;
                init_ball(&mut self.ball, &self.turn);
            } else {
                return ;
            }
        }
        move_ball(&mut self.ball, delta_time);
        move_enemy(&mut self.enemy, &self.ball, delta_time);
        if let Some(outcome) = on_collision_ball_walls(
            &mut self.ball,
            &mut self.player,
            &mut self.enemy,
            &mut self.turn,
        ) {
            self.phase = Phase::Finished(outcome);
        }
        let player_rect = self.player.collider();
        on_collision_ball_paddle(&mut self.ball, &player_rect);
        let enemy_rect = self.enemy.collider();
        on_collision_ball_paddle(&mut self.ball, &enemy_rect);
        on_collision_ball_bricks(&mut self.ball, &mut self.bricks);
    }

    /// Describes the frame for the window.
    pub fn draw(&self) -> (r: Vec<DrawCommand>)
        requires
            self@.wf(),
        ensures
            views(r@) == picture(self@),
    {
        let mut out: Vec<DrawCommand> = Vec::new();
        push_command(&mut out, DrawCommand::Clear { color: Color::elegant_black() });
        if self.phase == Phase::NotStarted {
            push_command(
                &mut out,
                DrawCommand::CenteredText {
                    text: "Press [ENTER] to Play".to_string(),
                    font_size: 20,
                    color: Color::maroon(),
                },
            );
            assert(views(out@) =~= picture(self@));
            return out;
        }
        push_command(&mut out, draw_point(self.player.point, 20, 450));
        push_command(&mut out, draw_point(self.enemy.point, 400, 300));
        push_command(&mut out, draw_player(&self.player));
        push_command(&mut out, draw_enemy(&self.enemy));
        if self.ball.active {
            push_command(&mut out, draw_ball(&self.ball));
        }
        let ghost head = views(out@);
        draw_bricks(&mut out, &self.bricks);
        let ghost with_bricks = views(out@);
        match self.phase {
            Phase::Finished(outcome) => {
                push_command(
                    &mut out,
                    DrawCommand::Rectangle {
                        x: 0,
                        y: 0,
                        width: SCREEN_WIDTH,
                        height: SCREEN_HEIGHT,
                        color: Color { r: 0, g: 0, b: 128, a: 200 },
                    },
                );
                let text = match outcome {
                    Outcome::PlayerWin => "You Win!".to_string(),
                    Outcome::EnemyWin => "Enemy Win!".to_string(),
                };
                push_command(
                    &mut out,
                    DrawCommand::CenteredText { text, font_size: 40, color: Color::maroon() },
                );
            },
            Phase::Paused => {
                push_command(
                    &mut out,
                    DrawCommand::CenteredText {
                        text: "PAUSE".to_string(),
                        font_size: 40,
                        color: Color::maroon(),
                    },
                );
            },
            _ => {},
        }
        assert(views(out@) =~= with_bricks + overlay_ops(self.phase));
        assert(views(out@) =~= picture(self@));
        out
    }

    /// Runs one frame: the update, then the drawing.
    pub fn frame(&mut self, input: &Input, delta_time: u32) -> (r: (SceneResult, Vec<DrawCommand>))
        requires
            old(self)@.wf(),
        ensures
            final(self)@ == level0_step(old(self)@, *input, delta_time as int),
            final(self)@.wf(),
            r.0 == SceneResult::OnGoing,
            views(r.1@) == picture(final(self)@),
    {
        self.update(input, delta_time);
        let cmds = self.draw();
        (SceneResult::OnGoing, cmds)
    }
}

} // verus!
