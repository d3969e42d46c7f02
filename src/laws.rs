//! Properties of the tick that hold for every state, proved over the model.
use vstd::prelude::*;

use crate::entity::EntityView;
use crate::game::{
    ball_after_paddles, deflected, hits_wall, outcome_for, struck_paddle, tick, wall_checked,
    GameView, Input, Outcome, BALL_ACC, PADDLE_SPEED, SCREEN_HEIGHT, SCREEN_WIDTH,
};

verus! {

/// The state after a sequence of ticks, one per input.
pub open spec fn run(g: GameView, inputs: Seq<Input>) -> GameView
    decreases inputs.len(),
{
    if inputs.len() == 0 {
        g
    } else {
        run(tick(g, inputs[0]), inputs.drop_first())
    }
}

/// The paddle lies inside the field.
pub open spec fn paddle_in_field(p: EntityView) -> bool {
    0 <= p.y <= SCREEN_HEIGHT - p.height
}

/// The paddle lies inside the field, and both its position and its lowest
/// allowed position are whole multiples of `PADDLE_SPEED`, so that no step
/// of the paddle can overshoot an edge.
pub open spec fn paddle_on_track(p: EntityView) -> bool {
    &&& paddle_in_field(p)
    &&& p.y % (PADDLE_SPEED as int) == 0
    &&& (SCREEN_HEIGHT - p.height) % (PADDLE_SPEED as int) == 0
}

/// Absolute value.
pub open spec fn abs(v: int) -> int {
    if v < 0 {
        -v
    } else {
        v
    }
}

/// One tick keeps a paddle on its track.
proof fn tick_keeps_paddles_on_track(g: GameView, input: Input)
    requires
        paddle_on_track(g.player1),
        paddle_on_track(g.player2),
    ensures
        paddle_on_track(tick(g, input).player1),
        paddle_on_track(tick(g, input).player2),
        tick(g, input).player1.height == g.player1.height,
        tick(g, input).player2.height == g.player2.height,
{
}

/// Whatever keys are held, tick after tick, each paddle stays inside the
/// field: its top never goes above the top edge and its bottom never below
/// the bottom edge. This holds for paddles whose position and lowest allowed
/// position are multiples of the paddle speed.
pub proof fn paddles_stay_in_field(g: GameView, inputs: Seq<Input>)
    requires
        paddle_on_track(g.player1),
        paddle_on_track(g.player2),
    ensures
        paddle_in_field(run(g, inputs).player1),
        paddle_in_field(run(g, inputs).player2),
    decreases inputs.len(),
{
    if inputs.len() > 0 {
        tick_keeps_paddles_on_track(g, inputs[0]);
        paddles_stay_in_field(tick(g, inputs[0]), inputs.drop_first());
    }
}

/// When the ball reaches or crosses the top or the bottom wall at the wall
/// check, the tick ends with the vertical speed that entered the check
/// negated; where no paddle was struck in that tick, that is the vertical
/// speed the ball had before the tick.
pub proof fn wall_reverses_vertical_speed(g: GameView, input: Input)
    requires
        hits_wall(g.ball.moved()),
    ensures
        ({
            let t = tick(g, input);
            &&& t.ball.vy == -ball_after_paddles(t.player1, t.player2, g.ball).vy
            &&& struck_paddle(t.player1, t.player2, g.ball.moved()) is None ==> t.ball.vy == -g.ball.vy
        }),
{
}

/// When a paddle is struck in a tick, the ball leaves the tick with its
/// horizontal speed `BALL_ACC` greater in magnitude and of the opposite sign.
pub proof fn paddle_hit_reverses_and_quickens(g: GameView, input: Input)
    requires
        ({
            let t = tick(g, input);
            struck_paddle(t.player1, t.player2, g.ball.moved()) is Some
        }),
    ensures
        abs(tick(g, input).ball.vx) == abs(g.ball.vx) + BALL_ACC,
        g.ball.vx < 0 ==> tick(g, input).ball.vx > 0,
        g.ball.vx > 0 ==> tick(g, input).ball.vx < 0,
{
}

/// The ball cannot be beyond both sides at once, and the outcome names
/// exactly the one player whose opponent's side the ball has left.
pub proof fn one_winner_at_most(ball_x: int)
    ensures
        !(ball_x < 0 && ball_x > SCREEN_WIDTH),
        outcome_for(ball_x) == Outcome::Player2Wins <==> ball_x < 0,
        outcome_for(ball_x) == Outcome::Player1Wins <==> ball_x > SCREEN_WIDTH,
        outcome_for(ball_x) != Outcome::Playing <==> (ball_x < 0 || ball_x > SCREEN_WIDTH),
{
}

/// When the ball overlaps both paddles in the same tick, it bounces off
/// player 1's paddle alone.
pub proof fn player1_takes_precedence(g: GameView, input: Input)
    requires
        ({
            let t = tick(g, input);
            &&& g.ball.moved().bounds().overlaps(t.player1.bounds())
            &&& g.ball.moved().bounds().overlaps(t.player2.bounds())
        }),
    ensures
        ({
            let t = tick(g, input);
            &&& struck_paddle(t.player1, t.player2, g.ball.moved()) == Some(t.player1)
            &&& t.ball == wall_checked(deflected(g.ball.moved(), t.player1))
        }),
{
}

} // verus!
