//! The game: two paddles and a ball, and the rules of one fixed-rate tick.
use vstd::prelude::*;

use crate::entity::{Entity, EntityView, MOTION_LIMIT};
use crate::geometry::{Vec2, SUBPIXELS_PER_PIXEL};

verus! {

/// Width of the playing field, in subpixels (640 pixels).
pub const SCREEN_WIDTH: i64 = 640 * SUBPIXELS_PER_PIXEL;

/// Height of the playing field, in subpixels (480 pixels).
pub const SCREEN_HEIGHT: i64 = 480 * SUBPIXELS_PER_PIXEL;

/// Distance a paddle moves in one tick while its key is held (8 pixels).
pub const PADDLE_SPEED: i64 = 8 * SUBPIXELS_PER_PIXEL;

/// Horizontal speed of the ball at the start (5 pixels per tick).
pub const BALL_SPEED: i64 = 5 * SUBPIXELS_PER_PIXEL;

/// Vertical speed added per unit of offset from a paddle's centre (4 pixels per tick).
pub const PADDLE_SPIN: i64 = 4 * SUBPIXELS_PER_PIXEL;

/// Horizontal speed gained on each paddle hit (0.05 pixels per tick).
pub const BALL_ACC: i64 = 50;

/// Gap between each paddle and its side of the field (16 pixels).
pub const PADDLE_INSET: i64 = 16 * SUBPIXELS_PER_PIXEL;

/// A bound on positions and velocities in the middle of a tick, whose
/// inputs lie within `MOTION_LIMIT`.
const MOTION_BOUND: i64 = 2 * MOTION_LIMIT + PADDLE_SPEED;

/// The keys held during one tick.
#[derive(Clone, Copy, Debug, Default, PartialEq, Eq, Structural)]
pub struct Input {
    pub player1_up: bool,
    pub player1_down: bool,
    pub player2_up: bool,
    pub player2_down: bool,
}

/// What a tick leaves the game in.
#[derive(Clone, Copy, Debug, PartialEq, Eq, Structural)]
pub enum Outcome {
    /// The ball is still on the field.
    Playing,
    /// The ball left the field on the right.
    Player1Wins,
    /// The ball left the field on the left.
    Player2Wins,
}

impl Outcome {
    /// Whether the game has ended.
    pub fn is_over(&self) -> (r: bool)
        ensures
            r == !(*self is Playing),
    {
        !matches!(self, Outcome::Playing)
    }
}

/// Pixel dimensions of a texture.
#[derive(Clone, Copy, Debug, PartialEq, Eq, Structural)]
pub struct TextureSize {
    pub width: u32,
    pub height: u32,
}

/// The mathematical state of the game.
pub struct GameView {
    pub player1: EntityView,
    pub player2: EntityView,
    pub ball: EntityView,
}

impl GameView {
    /// Every entity is small enough for one tick.
    pub open spec fn in_limits(self) -> bool {
        self.player1.in_limits() && self.player2.in_limits() && self.ball.in_limits()
    }
}

/// The vertical position of a paddle after one tick of input: up first, then
/// down, each guarded by the paddle's position at that moment.
pub open spec fn paddle_step(paddle: EntityView, up: bool, down: bool) -> int {
    let raised = if up && paddle.y > 0 {
        paddle.y - PADDLE_SPEED
    } else {
        paddle.y
    };
    if down && raised < SCREEN_HEIGHT - paddle.height {
        raised + PADDLE_SPEED
    } else {
        raised
    }
}

/// The sign of a horizontal speed, with zero counted as positive.
pub open spec fn sign(v: int) -> int {
    if v < 0 {
        -1
    } else {
        1
    }
}

/// Horizontal speed after a paddle hit: reversed and `BALL_ACC` faster.
pub open spec fn bounce_vx(vx: int) -> int {
    -(vx + BALL_ACC * sign(vx))
}

/// Division rounded toward zero, for a positive divisor.
pub open spec fn div_toward_zero(a: int, b: int) -> int {
    if a >= 0 {
        a / b
    } else {
        -((-a) / b)
    }
}

/// Vertical speed added by a paddle hit: `PADDLE_SPIN` times the negated
/// offset `(paddle_centre_y - ball_centre_y) / paddle_height`, rounded toward zero.
pub open spec fn spin(paddle_centre_y: int, ball_centre_y: int, paddle_height: int) -> int {
    div_toward_zero(PADDLE_SPIN * (ball_centre_y - paddle_centre_y), paddle_height)
}

/// The paddle that a ball overlaps, player 1 taking precedence.
pub open spec fn struck_paddle(player1: EntityView, player2: EntityView, ball: EntityView) -> Option<EntityView> {
    if ball.bounds().overlaps(player1.bounds()) {
        Some(player1)
    } else if ball.bounds().overlaps(player2.bounds()) {
        Some(player2)
    } else {
        None
    }
}

/// The ball after striking `paddle`.
pub open spec fn deflected(ball: EntityView, paddle: EntityView) -> EntityView {
    ball.with_velocity(bounce_vx(ball.vx), ball.vy + spin(paddle.centre_y(), ball.centre_y(), paddle.height))
}

/// The ball touches or crosses the top or the bottom of the field.
pub open spec fn hits_wall(ball: EntityView) -> bool {
    ball.y <= 0 || ball.y + ball.height >= SCREEN_HEIGHT
}

/// The ball after the wall check: vertical speed reversed at a wall.
pub open spec fn wall_checked(ball: EntityView) -> EntityView {
    if hits_wall(ball) {
        ball.with_velocity(ball.vx, -ball.vy)
    } else {
        ball
    }
}

/// The ball after motion and the paddle check of a tick, given the paddles
/// in their new positions.
pub open spec fn ball_after_paddles(player1: EntityView, player2: EntityView, ball: EntityView) -> EntityView {
    let moved = ball.moved();
    match struck_paddle(player1, player2, moved) {
        Some(paddle) => deflected(moved, paddle),
        None => moved,
    }
}

/// One tick: paddle input, ball motion, paddle hits, then the walls.
pub open spec fn tick(g: GameView, input: Input) -> GameView {
    let player1 = g.player1.with_y(paddle_step(g.player1, input.player1_up, input.player1_down));
    let player2 = g.player2.with_y(paddle_step(g.player2, input.player2_up, input.player2_down));
    GameView { player1, player2, ball: wall_checked(ball_after_paddles(player1, player2, g.ball)) }
}

/// Who has won, given the ball's horizontal position.
pub open spec fn outcome_for(ball_x: int) -> Outcome {
    if ball_x < 0 {
        Outcome::Player2Wins
    } else if ball_x > SCREEN_WIDTH {
        Outcome::Player1Wins
    } else {
        Outcome::Playing
    }
}

/// The two paddles and the ball.
#[derive(Clone, Copy, Debug, PartialEq, Eq, Structural)]
pub struct GameState {
    pub player1: Entity,
    pub player2: Entity,
    pub ball: Entity,
}

impl View for GameState {
    type V = GameView;

    open spec fn view(&self) -> GameView {
        GameView { player1: self.player1@, player2: self.player2@, ball: self.ball@ }
    }
}

impl GameState {
    /// Every entity has a texture of positive extent.
    pub open spec fn wf(self) -> bool {
        self.player1.wf() && self.player2.wf() && self.ball.wf()
    }

    /// The starting layout: paddles centred vertically, `PADDLE_INSET` from
    /// their sides; the ball centred, moving left at `BALL_SPEED`.
    pub fn new(player1: TextureSize, player2: TextureSize, ball: TextureSize) -> (r: GameState)
        requires
            player1.width > 0,
            player1.height > 0,
            player2.width > 0,
            player2.height > 0,
            ball.width > 0,
            ball.height > 0,
        ensures
            r.wf(),
            r@.in_limits(),
            r.player1.texture_width == player1.width,
            r.player1.texture_height == player1.height,
            r.player2.texture_width == player2.width,
            r.player2.texture_height == player2.height,
            r.ball.texture_width == ball.width,
            r.ball.texture_height == ball.height,
            r@.player1.x == PADDLE_INSET,
            r@.player1.y == SCREEN_HEIGHT / 2 - r@.player1.height / 2,
            r@.player2.x == SCREEN_WIDTH - PADDLE_INSET - r@.player2.width,
            r@.player2.y == SCREEN_HEIGHT / 2 - r@.player2.height / 2,
            r@.ball.x == SCREEN_WIDTH / 2 - r@.ball.width / 2,
            r@.ball.y == SCREEN_HEIGHT / 2 - r@.ball.height / 2,
            r@.player1.vx == 0 && r@.player1.vy == 0,
            r@.player2.vx == 0 && r@.player2.vy == 0,
            r@.ball.vx == -BALL_SPEED && r@.ball.vy == 0,
    {
        let half: i64 = SUBPIXELS_PER_PIXEL / 2;
        let player1_position = Vec2 {
            x: PADDLE_INSET,
            y: SCREEN_HEIGHT / 2 - player1.height as i64 * half,
        };
        let player2_position = Vec2 {
            x: SCREEN_WIDTH - PADDLE_INSET - player2.width as i64 * SUBPIXELS_PER_PIXEL,
            y: SCREEN_HEIGHT / 2 - player2.height as i64 * half,
        };
        let ball_position = Vec2 {
            x: SCREEN_WIDTH / 2 - ball.width as i64 * half,
            y: SCREEN_HEIGHT / 2 - ball.height as i64 * half,
        };
        GameState {
            player1: Entity::new(player1.width, player1.height, player1_position),
            player2: Entity::new(player2.width, player2.height, player2_position),
            ball: Entity::with_velocity(ball.width, ball.height, ball_position, Vec2 { x: -BALL_SPEED, y: 0 }),
        }
    }

    /// Whether `update` may be called: every texture has a positive extent
    /// and every position and velocity is within `MOTION_LIMIT`.
    pub fn ready_for_tick(&self) -> (r: bool)
        ensures
            r == (self.wf() && self@.in_limits()),
    {
        self.player1.texture_width > 0 && self.player1.texture_height > 0
            && self.player2.texture_width > 0 && self.player2.texture_height > 0
            && self.ball.texture_width > 0 && self.ball.texture_height > 0
            && self.player1.within_limits() && self.player2.within_limits()
            && self.ball.within_limits()
    }

    /// Advances the game by one tick and reports whether a player has won.
    pub fn update(&mut self, input: Input) -> (r: Outcome)
        requires
            old(self).wf(),
            old(self)@.in_limits(),
        ensures
            final(self).wf(),
            final(self)@ == tick(old(self)@, input),
            r == outcome_for(final(self)@.ball.x),
    {
        steer(&mut self.player1, input.player1_up, input.player1_down);
        steer(&mut self.player2, input.player2_up, input.player2_down);

        self.ball.position.x = self.ball.position.x + self.ball.velocity.x;
        self.ball.position.y = self.ball.position.y + self.ball.velocity.y;

        let player1_bounds = self.player1.bounds();
        let player2_bounds = self.player2.bounds();
        let ball_bounds = self.ball.bounds();
        if ball_bounds.intersects(&player1_bounds) {
            deflect(&mut self.ball, &self.player1);
        } else if ball_bounds.intersects(&player2_bounds) {
            deflect(&mut self.ball, &self.player2);
        }

        if self.ball.position.y <= 0 || self.ball.position.y + self.ball.height() >= SCREEN_HEIGHT {
            self.ball.velocity.y = -self.ball.velocity.y;
        }

        if self.ball.position.x < 0 {
            Outcome::Player2Wins
        } else if self.ball.position.x > SCREEN_WIDTH {
            Outcome::Player1Wins
        } else {
            Outcome::Playing
        }
    }
}

/// Moves a paddle by the keys held for it.
fn steer(paddle: &mut Entity, up: bool, down: bool)
    requires
        old(paddle)@.in_limits(),
    ensures
        final(paddle)@ == old(paddle)@.with_y(paddle_step(old(paddle)@, up, down)),
        final(paddle).texture_width == old(paddle).texture_width,
        final(paddle).texture_height == old(paddle).texture_height,
        -MOTION_BOUND <= final(paddle).position.y <= MOTION_BOUND,
        final(paddle).position.x == old(paddle).position.x,
{
    if up && paddle.position.y > 0 {
        paddle.position.y = paddle.position.y - PADDLE_SPEED;
    }
    if down && paddle.position.y < SCREEN_HEIGHT - paddle.height() {
        paddle.position.y = paddle.position.y + PADDLE_SPEED;
    }
}

/// Bounces the ball off `paddle`: reverses and quickens its horizontal speed
/// and adds spin by where it struck.
fn deflect(ball: &mut Entity, paddle: &Entity)
    requires
        paddle.wf(),
        -MOTION_BOUND <= old(ball).position.x <= MOTION_BOUND,
        -MOTION_BOUND <= old(ball).position.y <= MOTION_BOUND,
        -MOTION_BOUND <= old(ball).velocity.x <= MOTION_BOUND,
        -MOTION_BOUND <= old(ball).velocity.y <= MOTION_BOUND,
        -MOTION_BOUND <= paddle.position.x <= MOTION_BOUND,
        -MOTION_BOUND <= paddle.position.y <= MOTION_BOUND,
    ensures
        final(ball)@ == deflected(old(ball)@, paddle@),
        final(ball).texture_width == old(ball).texture_width,
        final(ball).texture_height == old(ball).texture_height,
        final(ball).position == old(ball).position,
{
    let direction: i64 = if ball.velocity.x < 0 {
        -1
    } else {
        1
    };
    ball.velocity.x = -(ball.velocity.x + BALL_ACC * direction);

    let paddle_height = paddle.height();
    let lever = PADDLE_SPIN * (ball.centre().y - paddle.centre().y);
    let added: i64 = if lever >= 0 {
        lever / paddle_height
    } else {
        -((-lever) / paddle_height)
    };
    proof {
        let (l, h) = (lever as int, paddle_height as int);
        assert(l >= 0 ==> 0 <= l / h <= l) by (nonlinear_arith)
            requires h >= 1;
        assert(l < 0 ==> 0 <= (-l) / h <= -l) by (nonlinear_arith)
            requires h >= 1;
    }
    ball.velocity.y = ball.velocity.y + added;
}

} // verus!
