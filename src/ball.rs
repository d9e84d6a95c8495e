use vstd::prelude::*;

use crate::constants::{MAX_DEFLECTION_DEGREES, PADDLE_HALF_HEIGHT, SINE_SCALE};
use crate::geometry::{
    clamp_len, clamp_length, floor_sqrt, isqrt, lemma_floor_sqrt, lemma_floor_sqrt_unique, mul_div,
    trunc_div, Vec2,
};

verus! {

/// The velocity after the vertical speed-up by `num / den`.
pub open spec fn sped_up(v: Vec2, num: int, den: int) -> (int, int) {
    (v.x as int, trunc_div(v.y * num, den))
}

/// The velocity after a collision: sped up vertically, then clamped to `max`.
pub open spec fn adjusted(v: Vec2, num: int, den: int, max: int) -> (int, int) {
    clamp_len(sped_up(v, num, den).0, sped_up(v, num, den).1, max)
}

/// Speeds the ball up on a collision: its vertical component is multiplied by
/// `num / den`, then the whole velocity is clamped to the length `max`.
pub fn adjust_velocity(v: Vec2, num: u32, den: u32, max: u32) -> (r: Vec2)
    requires
        den > 0,
        max <= i32::MAX,
    ensures
        r.x == adjusted(v, num as int, den as int, max as int).0,
        r.y == adjusted(v, num as int, den as int, max as int).1,
        r.len2() <= max * max,
{
    assert(-0x8000_0000_0000_0000 < v.y * num < 0x8000_0000_0000_0000) by (nonlinear_arith)
        requires
            -0x8000_0000 <= v.y < 0x8000_0000,
            0 <= num < 0x1_0000_0000,
    ;
    let y: i128 = mul_div(v.y as i128, num as u128, den as u128);
    let (x2, y2) = clamp_length(v.x as i64, y as i64, max);
    Vec2 { x: x2 as i32, y: y2 as i32 }
}

/// Bhaskara's rational approximation of the sine of `d` degrees, in thousandths,
/// for `0 <= d <= 180`: exact at 0, 30, 90, 150 and 180 degrees.
pub open spec fn sine_milli(d: int) -> int {
    (4 * SINE_SCALE * d * (180 - d)) / (40500 - d * (180 - d))
}

pub fn sin_milli(d: i32) -> (r: i64)
    requires
        0 <= d <= 90,
    ensures
        r == sine_milli(d as int),
        0 <= r <= SINE_SCALE,
{
    let d = d as i64;
    assert(0 <= d * (180 - d) <= 8100) by (nonlinear_arith)
        requires
            0 <= d <= 90,
    ;
    let p: i64 = d * (180 - d);
    assert(0 <= p <= 8100) by (nonlinear_arith)
        requires
            0 <= d <= 90,
            p == d * (180 - d),
    ;
    let num: i64 = 4 * SINE_SCALE * p;
    let den: i64 = 40500 - p;
    assert(4 * SINE_SCALE * d * (180 - d) == num) by (nonlinear_arith)
        requires
            p == d * (180 - d),
            num == 4 * SINE_SCALE * p,
    ;
    assert(num / den <= SINE_SCALE) by (nonlinear_arith)
        requires
            num == 4000 * p,
            den == 40500 - p,
            0 <= p <= 8100,
            SINE_SCALE == 1000,
    ;
    num / den
}

/// Where the ball met the paddle, from its centre, clamped to half the paddle height.
pub open spec fn hit_offset(ball_y: int, paddle_y: int) -> int {
    let o = ball_y - paddle_y;
    if o > PADDLE_HALF_HEIGHT {
        PADDLE_HALF_HEIGHT as int
    } else if o < -PADDLE_HALF_HEIGHT {
        -PADDLE_HALF_HEIGHT
    } else {
        o
    }
}

/// The bounce angle in whole degrees, from the horizontal, upward positive.
pub open spec fn deflection(ball_y: int, paddle_y: int) -> int {
    trunc_div(hit_offset(ball_y, paddle_y) * MAX_DEFLECTION_DEGREES, PADDLE_HALF_HEIGHT as int)
}

pub open spec fn abs(a: int) -> int {
    if a < 0 {
        -a
    } else {
        a
    }
}

/// The ball's speed, rounded down.
pub open spec fn speed_of(v: Vec2) -> int {
    floor_sqrt(v.len2() as nat) as int
}

/// The vertical part of the bounce: the speed times the sine of the bounce
/// angle, rounded down, signed like the hit offset.
pub open spec fn bounce_across(ball_y: int, paddle_y: int, v: Vec2) -> int {
    (speed_of(v) * sine_milli(abs(deflection(ball_y, paddle_y)))) / SINE_SCALE as int
}

/// The ball's velocity after it bounced off a paddle centred at `paddle_y`: the
/// vertical part follows the sine of the bounce angle, and the horizontal part
/// renormalises the vector to the incoming speed (rounded down) and points back
/// the other way.
pub open spec fn bounced(ball_y: int, paddle_y: int, v: Vec2) -> (int, int) {
    let s = speed_of(v);
    let across = bounce_across(ball_y, paddle_y, v);
    let along = floor_sqrt((s * s - across * across) as nat) as int;
    (if v.x > 0 {
        -along
    } else {
        along
    }, if deflection(ball_y, paddle_y) < 0 {
        -across
    } else {
        across
    })
}

/// Below a right angle the sine stays under one.
proof fn lemma_sine_below_one(d: int)
    requires
        0 <= d < 90,
    ensures
        0 <= sine_milli(d) < SINE_SCALE,
{
    let p = d * (180 - d);
    assert(0 <= p < 8100) by (nonlinear_arith)
        requires
            0 <= d < 90,
            p == d * (180 - d),
    ;
    assert(4 * SINE_SCALE * d * (180 - d) == 4000 * p) by (nonlinear_arith)
        requires
            p == d * (180 - d),
            SINE_SCALE == 1000,
    ;
    assert((4000 * p) / (40500 - p) < 1000) by (nonlinear_arith)
        requires
            0 <= p < 8100,
    ;
}

/// Reflects the ball off a paddle. The bounce angle follows the sine of the hit
/// offset: level at the centre, a right angle at the edges. Short of the edges
/// the horizontal direction always turns back, and the speed is kept to within
/// one unit: never faster, never more than one unit slower.
pub fn paddle_collision(ball_y: i32, paddle_y: i32, v: Vec2) -> (r: Vec2)
    requires
        v.len2() <= i32::MAX * i32::MAX,
    ensures
        r.x == bounced(ball_y as int, paddle_y as int, v).0,
        r.y == bounced(ball_y as int, paddle_y as int, v).1,
        r.len2() <= speed_of(v) * speed_of(v),
        speed_of(v) > 0 ==> (speed_of(v) - 1) * (speed_of(v) - 1) <= r.len2(),
        speed_of(v) * speed_of(v) <= v.len2(),
        v.len2() < (speed_of(v) + 1) * (speed_of(v) + 1),
        v.x != 0 && abs(ball_y - paddle_y) < PADDLE_HALF_HEIGHT ==> (v.x > 0 ==> r.x < 0) && (v.x
            < 0 ==> r.x > 0),
        ball_y == paddle_y ==> r.y == 0 && r.x == (if v.x > 0 {
            -speed_of(v)
        } else {
            speed_of(v)
        }),
        abs(ball_y - paddle_y) >= PADDLE_HALF_HEIGHT ==> r.x == 0 && r.y == (if ball_y > paddle_y {
            speed_of(v)
        } else {
            -speed_of(v)
        }),
{
    let off64: i64 = ball_y as i64 - paddle_y as i64;
    let off: i64 = if off64 > PADDLE_HALF_HEIGHT as i64 {
        PADDLE_HALF_HEIGHT as i64
    } else if off64 < -(PADDLE_HALF_HEIGHT as i64) {
        -(PADDLE_HALF_HEIGHT as i64)
    } else {
        off64
    };
    let a: i128 = mul_div(off as i128, MAX_DEFLECTION_DEGREES as u128, PADDLE_HALF_HEIGHT as u128);
    assert(-90 <= a <= 90) by (nonlinear_arith)
        requires
            -50 <= off <= 50,
            off * 90 >= 0 ==> 0 <= a <= off * 90 / 50,
            off * 90 < 0 ==> -((-(off * 90)) / 50) <= a <= 0,
            a == trunc_div(off * 90, 50),
    ;
    assert(-50 < off < 50 ==> -90 < a < 90) by (nonlinear_arith)
        requires
            off * 90 >= 0 ==> 0 <= a <= off * 90 / 50,
            off * 90 < 0 ==> -((-(off * 90)) / 50) <= a <= 0,
    ;
    let abs_a: i32 = if a < 0 {
        (-a) as i32
    } else {
        a as i32
    };
    let vx: i128 = v.x as i128;
    let vy: i128 = v.y as i128;
    assert(0 <= vx * vx <= 0x4000_0000_0000_0000 && 0 <= vy * vy <= 0x4000_0000_0000_0000)
        by (nonlinear_arith)
        requires
            -0x8000_0000 <= vx < 0x8000_0000,
            -0x8000_0000 <= vy < 0x8000_0000,
    ;
    let n: u128 = (vx * vx + vy * vy) as u128;
    let s: u64 = isqrt(n);
    proof {
        lemma_floor_sqrt(n as nat);
    }
    assert(s <= i32::MAX) by (nonlinear_arith)
        requires
            s * s <= n,
            n <= i32::MAX * i32::MAX,
    ;
    let s: i64 = s as i64;
    let sin_across = sin_milli(abs_a);
    assert(0 <= s * sin_across <= s * SINE_SCALE) by (nonlinear_arith)
        requires
            0 <= s <= i32::MAX,
            0 <= sin_across <= SINE_SCALE,
    ;
    let across: i64 = s * sin_across / SINE_SCALE;
    assert(0 <= across <= s) by (nonlinear_arith)
        requires
            across == s * sin_across / 1000,
            0 <= s * sin_across <= s * 1000,
    ;
    assert(0 <= across * across <= s * s) by (nonlinear_arith)
        requires
            0 <= across <= s,
    ;
    assert(s * s <= 0x4000_0000_0000_0000) by (nonlinear_arith)
        requires
            0 <= s <= i32::MAX,
    ;
    let rest: u128 = (s * s - across * across) as u128;
    let along_u: u64 = isqrt(rest);
    proof {
        lemma_floor_sqrt(rest as nat);
        assert(along_u <= s) by (nonlinear_arith)
            requires
                along_u * along_u <= rest,
                rest <= s * s,
                s >= 0,
        ;
    }
    let along: i64 = along_u as i64;
    proof {
        // The length lies between (s - 1)^2 and s^2.
        assert(across * across + along * along <= s * s);
        if s > 0 {
            if across == 0 {
                assert(along == s) by (nonlinear_arith)
                    requires
                        along * along <= rest,
                        rest < (along + 1) * (along + 1),
                        rest == s * s - across * across,
                        across == 0,
                        along >= 0,
                        s > 0,
                ;
                assert((s - 1) * (s - 1) <= along * along) by (nonlinear_arith)
                    requires
                        along == s,
                        s > 0,
                ;
            } else {
                assert(across * across >= 1) by (nonlinear_arith)
                    requires
                        across >= 1,
                ;
                assert(along * along < s * s);
                assert(along <= s - 1) by (nonlinear_arith)
                    requires
                        along * along < s * s,
                        along >= 0,
                        s > 0,
                ;
                assert((s - 1) * (s - 1) <= across * across + along * along) by (nonlinear_arith)
                    requires
                        rest == s * s - across * across,
                        rest < (along + 1) * (along + 1),
                        0 <= along <= s - 1,
                ;
            }
        }
        // Short of the edges the horizontal part is at least one.
        if v.x != 0 && abs_a < 90 {
            assert(n >= 1) by (nonlinear_arith)
                requires
                    vx != 0,
                    n == vx * vx + vy * vy,
            ;
            assert(s >= 1) by (nonlinear_arith)
                requires
                    n < (s + 1) * (s + 1),
                    n >= 1,
                    s >= 0,
            ;
            lemma_sine_below_one(abs_a as int);
            assert(across < s) by (nonlinear_arith)
                requires
                    across == s * sin_across / 1000,
                    0 <= sin_across < 1000,
                    s >= 1,
            ;
            assert(rest >= 1) by (nonlinear_arith)
                requires
                    rest == s * s - across * across,
                    0 <= across < s,
            ;
            assert(along >= 1) by (nonlinear_arith)
                requires
                    rest < (along + 1) * (along + 1),
                    rest >= 1,
                    along >= 0,
            ;
        }
        assert(sine_milli(0) == 0);
        assert(90 * (180 - 90) == 8100);
        assert(4 * SINE_SCALE * 90 * (180 - 90) == 32400000);
        assert(32400000int / 32400int == 1000);
        assert(sine_milli(90) == SINE_SCALE);
        if abs_a == 0 {
            assert(across == 0) by (nonlinear_arith)
                requires
                    across == s * sin_across / 1000,
                    sin_across == 0,
            ;
            lemma_floor_sqrt_unique((s * s) as nat, s as nat);
        }
        if abs_a == 90 {
            assert(across == s) by (nonlinear_arith)
                requires
                    across == s * sin_across / 1000,
                    sin_across == 1000,
            ;
            assert(along == 0) by (nonlinear_arith)
                requires
                    along * along <= rest,
                    rest == 0,
                    along >= 0,
            ;
        }
    }
    let x: i64 = if v.x > 0 {
        -along
    } else {
        along
    };
    let y: i64 = if a < 0 {
        -across
    } else {
        across
    };
    assert(x * x + y * y == along * along + across * across) by (nonlinear_arith)
        requires
            x == along || x == -along,
            y == across || y == -across,
    ;
    Vec2 { x: x as i32, y: y as i32 }
}

/// Bounces are symmetric about the paddle's centre: a hit as far below the
/// centre as another is above it sends the ball back as fast, with the
/// vertical part reversed.
pub proof fn lemma_bounce_symmetric(ball_y: int, paddle_y: int, v: Vec2)
    ensures
        bounced(2 * paddle_y - ball_y, paddle_y, v).0 == bounced(ball_y, paddle_y, v).0,
        bounced(2 * paddle_y - ball_y, paddle_y, v).1 == -bounced(ball_y, paddle_y, v).1,
{
    let o = hit_offset(ball_y, paddle_y);
    assert(hit_offset(2 * paddle_y - ball_y, paddle_y) == -o);
    assert(trunc_div(-o * MAX_DEFLECTION_DEGREES, PADDLE_HALF_HEIGHT as int) == -trunc_div(
        o * MAX_DEFLECTION_DEGREES,
        PADDLE_HALF_HEIGHT as int,
    ));
    let a = deflection(ball_y, paddle_y);
    assert(deflection(2 * paddle_y - ball_y, paddle_y) == -a);
    assert(abs(-a) == abs(a));
    if a == 0 {
        assert(sine_milli(0) == 0);
        assert(bounce_across(ball_y, paddle_y, v) == 0) by (nonlinear_arith)
            requires
                bounce_across(ball_y, paddle_y, v) == (speed_of(v) * sine_milli(abs(a))) / 1000,
                sine_milli(abs(a)) == 0,
        ;
    }
}

} // verus!
