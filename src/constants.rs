use vstd::prelude::*;

verus! {

/// Thickness of the top and bottom walls and of the scoring zones.
pub const WALL_THICKNESS: i32 = 10;

/// Room kept above the top wall for the scoreboard.
pub const TOP_BUFFER: i32 = 100;

pub const PADDLE_WIDTH: i32 = 10;

pub const PADDLE_HEIGHT: i32 = 100;

/// Half the paddle's height: the hit offset at which a bounce is steepest.
pub const PADDLE_HALF_HEIGHT: i32 = 50;

/// Distance between a paddle and its side of the board.
pub const PADDLE_BUFFER: i32 = 40;

/// How far the human paddle moves in one fixed tick while a key is held.
pub const PADDLE_SPEED: i32 = 6;

pub const BALL_RADIUS: i32 = 10;

pub const INITIAL_VELOCITY_X: i32 = 200;

pub const INITIAL_VELOCITY_Y: i32 = 100;

/// The vertical speed-up on a collision is the fraction `NUM / DEN`.
pub const SPEED_INCREASE_NUM: u32 = 11;

pub const SPEED_INCREASE_DEN: u32 = 10;

/// The longest the ball's velocity may become.
pub const MAX_BALL_SPEED: u32 = 1000;

/// The steepest bounce off a paddle's edge, in degrees from the horizontal.
pub const MAX_DEFLECTION_DEGREES: i32 = 90;

/// Sines are given in thousandths.
pub const SINE_SCALE: i64 = 1000;

} // verus!
