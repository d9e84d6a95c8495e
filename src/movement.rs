use vstd::prelude::*;

use crate::constants::PADDLE_SPEED;
use crate::difficulty::Difficulty;
use crate::geometry::Vec2;

verus! {

/// `a` clamped to `[-cap, cap]`.
pub open spec fn clamp_sym(a: int, cap: int) -> int {
    if a > cap {
        cap
    } else if a < -cap {
        -cap
    } else {
        a
    }
}

/// The sign of the held direction: up counts one, down minus one.
pub open spec fn input_direction(up: bool, down: bool) -> int {
    (if up {
        1int
    } else {
        0int
    }) - (if down {
        1int
    } else {
        0int
    })
}

/// The signed sum of the held Up and Down actions.
pub fn get_input_direction(up: bool, down: bool) -> (r: i32)
    ensures
        r == input_direction(up, down),
{
    let mut direction: i32 = 0;
    if up {
        direction = direction + 1;
    }
    if down {
        direction = direction - 1;
    }
    direction
}

/// The human paddle's translation for one fixed tick.
pub fn handle_player_input(up: bool, down: bool) -> (r: Vec2)
    ensures
        r.x == 0,
        r.y == input_direction(up, down) * PADDLE_SPEED,
{
    let d = get_input_direction(up, down);
    Vec2 { x: 0, y: d * PADDLE_SPEED }
}

/// The computer paddle's translation for one fixed tick: straight toward the
/// ball's height, no longer than the difficulty's speed cap.
pub fn handle_computer_movement(paddle: Vec2, ball: Vec2, difficulty: Difficulty) -> (r: Vec2)
    ensures
        r.x == 0,
        r.y == clamp_sym(ball.y - paddle.y, difficulty.spec_speed()),
        r.len2() <= difficulty.spec_speed() * difficulty.spec_speed(),
{
    let cap: i64 = difficulty.speed() as i64;
    let dy: i64 = ball.y as i64 - paddle.y as i64;
    let y: i64 = if dy > cap {
        cap
    } else if dy < -cap {
        -cap
    } else {
        dy
    };
    assert(y * y <= cap * cap) by (nonlinear_arith)
        requires
            -cap <= y <= cap,
    ;
    Vec2 { x: 0, y: y as i32 }
}

} // verus!
