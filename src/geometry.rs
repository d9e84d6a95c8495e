use vstd::arithmetic::div_mod::{lemma_fundamental_div_mod, lemma_mod_pos_bound};
use vstd::prelude::*;

verus! {

/// A position, velocity or translation on the board, in whole world units.
#[derive(Clone, Copy, Debug, PartialEq, Eq, Structural)]
pub struct Vec2 {
    pub x: i32,
    pub y: i32,
}

impl Vec2 {
    /// The squared length of the vector.
    pub open spec fn len2(self) -> int {
        self.x * self.x + self.y * self.y
    }

    pub fn new(x: i32, y: i32) -> (r: Vec2)
        ensures
            r.x == x,
            r.y == y,
    {
        Vec2 { x, y }
    }
}

/// `a / b` rounded toward zero, for a positive `b`.
pub open spec fn trunc_div(a: int, b: int) -> int {
    if a >= 0 {
        a / b
    } else {
        -((-a) / b)
    }
}

/// The largest `r` with `r * r <= n`.
pub open spec fn floor_sqrt(n: nat) -> nat
    decreases n,
{
    if n == 0 {
        0
    } else {
        let r = floor_sqrt((n - 1) as nat);
        if (r + 1) * (r + 1) <= n {
            (r + 1) as nat
        } else {
            r
        }
    }
}

/// The smallest `l` with `n <= l * l`.
pub open spec fn ceil_sqrt(n: nat) -> nat {
    let r = floor_sqrt(n);
    if r * r == n {
        r
    } else {
        (r + 1) as nat
    }
}

/// The vector `(x, y)` shortened, if it is longer than `max`, to about `max`
/// along the same direction; each component is rounded toward zero.
pub open spec fn clamp_len(x: int, y: int, max: int) -> (int, int) {
    if x * x + y * y <= max * max {
        (x, y)
    } else {
        let l = ceil_sqrt((x * x + y * y) as nat) as int;
        (trunc_div(x * max, l), trunc_div(y * max, l))
    }
}

pub proof fn lemma_floor_sqrt(n: nat)
    ensures
        floor_sqrt(n) * floor_sqrt(n) <= n,
        n < (floor_sqrt(n) + 1) * (floor_sqrt(n) + 1),
    decreases n,
{
    if n == 0 {
        let f = floor_sqrt(n);
        assert(f == 0);
        assert((f + 1) * (f + 1) == 1) by (nonlinear_arith)
            requires
                f == 0,
        ;
    } else {
        lemma_floor_sqrt((n - 1) as nat);
        let r = floor_sqrt((n - 1) as nat);
        if (r + 1) * (r + 1) > n {
            assert(floor_sqrt(n) == r);
            assert(r * r <= n);
            assert(n < (r + 1) * (r + 1));
            assert(n < (floor_sqrt(n) + 1) * (floor_sqrt(n) + 1));
        } else {
            assert(floor_sqrt(n) == r + 1);
            assert((r + 1) * (r + 1) == n);
            assert(n < (r + 2) * (r + 2)) by (nonlinear_arith)
                requires
                    (r + 1) * (r + 1) == n,
                    r >= 0,
            ;
            let f = floor_sqrt(n);
            assert((f + 1) * (f + 1) == (r + 2) * (r + 2));
            assert(n < (floor_sqrt(n) + 1) * (floor_sqrt(n) + 1));
        }
    }
}

/// The floor square root is the only `r` that lies between the squares.
pub proof fn lemma_floor_sqrt_unique(n: nat, r: nat)
    requires
        r * r <= n,
        n < (r + 1) * (r + 1),
    ensures
        r == floor_sqrt(n),
{
    lemma_floor_sqrt(n);
    let f = floor_sqrt(n);
    if r < f {
        assert((r + 1) * (r + 1) <= f * f) by (nonlinear_arith)
            requires
                r + 1 <= f,
        ;
    } else if r > f {
        assert((f + 1) * (f + 1) <= r * r) by (nonlinear_arith)
            requires
                f + 1 <= r,
        ;
    }
}

pub proof fn lemma_ceil_sqrt(n: nat)
    ensures
        n <= ceil_sqrt(n) * ceil_sqrt(n),
        n > 0 ==> ceil_sqrt(n) > 0,
{
    lemma_floor_sqrt(n);
}

/// The largest `r` with `r * r <= n`.
pub fn isqrt(n: u128) -> (r: u64)
    ensures
        r == floor_sqrt(n as nat),
{
    let mut lo: u128 = 0;
    let mut hi: u128 = 0x1_0000_0000_0000_0000;
    while hi - lo > 1
        invariant
            lo < hi <= 0x1_0000_0000_0000_0000,
            lo * lo <= n,
            n < hi * hi,
        decreases hi - lo,
    {
        let mid: u128 = lo + (hi - lo) / 2;
        assert(mid * mid < 0x1_0000_0000_0000_0000 * 0x1_0000_0000_0000_0000) by (nonlinear_arith)
            requires
                mid < 0x1_0000_0000_0000_0000,
        ;
        if mid * mid <= n {
            lo = mid;
        } else {
            hi = mid;
        }
    }
    proof {
        lemma_floor_sqrt_unique(n as nat, lo as nat);
    }
    lo as u64
}

/// The smallest `l` with `n <= l * l`.
pub fn ceil_isqrt(n: u128) -> (l: u128)
    ensures
        l == ceil_sqrt(n as nat),
{
    let r = isqrt(n) as u128;
    proof {
        lemma_floor_sqrt(n as nat);
    }
    if r * r == n {
        r
    } else {
        r + 1
    }
}

/// `a * num / den`, rounded toward zero.
pub fn mul_div(a: i128, num: u128, den: u128) -> (r: i128)
    requires
        den > 0,
        a > i128::MIN,
        -i128::MAX <= a * num <= i128::MAX,
    ensures
        r == trunc_div(a * num, den as int),
        a * num >= 0 ==> 0 <= r <= a * num,
        a * num < 0 ==> a * num <= r <= 0,
{
    if a >= 0 {
        let m: u128 = a as u128;
        let q: u128 = m * num / den;
        assert(q <= m * num) by (nonlinear_arith)
            requires
                den > 0,
                q == (m * num) / (den as int),
                m * num >= 0,
        ;
        q as i128
    } else {
        let m: u128 = (-a) as u128;
        assert(m * num == -(a * num)) by (nonlinear_arith)
            requires
                m == -a,
        ;
        let q: u128 = m * num / den;
        assert(q <= m * num) by (nonlinear_arith)
            requires
                den > 0,
                q == (m * num) / (den as int),
                m * num >= 0,
        ;
        -(q as i128)
    }
}

/// Rounding a quotient toward zero never lengthens it: `|a * m / l| * l <= |a * m|`.
proof fn lemma_trunc_div_sq(a: int, m: int, l: int)
    requires
        l > 0,
    ensures
        trunc_div(a * m, l) * trunc_div(a * m, l) * (l * l) <= (a * m) * (a * m),
{
    let p = a * m;
    let q = if p >= 0 { p } else { -p };
    let t = q / l;
    lemma_fundamental_div_mod(q, l);
    lemma_mod_pos_bound(q, l);
    assert(0 <= t * l <= q) by (nonlinear_arith)
        requires
            q == l * t + q % l,
            0 <= q % l < l,
            q >= 0,
            l > 0,
    ;
    assert(t * t * (l * l) <= q * q) by (nonlinear_arith)
        requires
            0 <= t * l <= q,
    ;
    assert(q * q == p * p) by (nonlinear_arith)
        requires
            q == p || q == -p,
    ;
    if p < 0 {
        assert(trunc_div(p, l) == -t);
        assert((-t) * (-t) == t * t) by (nonlinear_arith);
    }
}

/// A clamped vector is never longer than the limit.
pub proof fn lemma_clamp_len_bound(x: int, y: int, max: int)
    requires
        max >= 0,
    ensures
        clamp_len(x, y, max).0 * clamp_len(x, y, max).0 + clamp_len(x, y, max).1 * clamp_len(
            x,
            y,
            max,
        ).1 <= max * max,
{
    let n = x * x + y * y;
    if n > max * max {
        assert(n >= 0) by (nonlinear_arith)
            requires
                n == x * x + y * y,
        ;
        lemma_ceil_sqrt(n as nat);
        let l = ceil_sqrt(n as nat) as int;
        let tx = trunc_div(x * max, l);
        let ty = trunc_div(y * max, l);
        lemma_trunc_div_sq(x, max, l);
        lemma_trunc_div_sq(y, max, l);
        let s = tx * tx + ty * ty;
        let ll = l * l;
        assert((x * max) * (x * max) + (y * max) * (y * max) == n * (max * max)) by (nonlinear_arith)
            requires
                n == x * x + y * y,
        ;
        assert(n * (max * max) <= ll * (max * max)) by (nonlinear_arith)
            requires
                n <= ll,
                max >= 0,
        ;
        assert(s * ll <= (max * max) * ll) by (nonlinear_arith)
            requires
                tx * tx * ll <= (x * max) * (x * max),
                ty * ty * ll <= (y * max) * (y * max),
                (x * max) * (x * max) + (y * max) * (y * max) <= ll * (max * max),
                s == tx * tx + ty * ty,
        ;
        assert(ll > 0) by (nonlinear_arith)
            requires
                l > 0,
                ll == l * l,
        ;
        assert(s <= max * max) by (nonlinear_arith)
            requires
                s * ll <= (max * max) * ll,
                ll > 0,
        ;
    }
}

/// The vector `(x, y)` clamped to length `max`.
pub fn clamp_length(x: i64, y: i64, max: u32) -> (r: (i64, i64))
    requires
        x > i64::MIN,
        y > i64::MIN,
    ensures
        r.0 == clamp_len(x as int, y as int, max as int).0,
        r.1 == clamp_len(x as int, y as int, max as int).1,
        r.0 * r.0 + r.1 * r.1 <= max * max,
        -(max as int) <= r.0 <= max,
        -(max as int) <= r.1 <= max,
{
    proof {
        lemma_clamp_len_bound(x as int, y as int, max as int);
    }
    let ax: u128 = if x >= 0 { x as u128 } else { (-x) as u128 };
    let ay: u128 = if y >= 0 { y as u128 } else { (-y) as u128 };
    assert(ax * ax <= 0x4000_0000_0000_0000_0000_0000_0000_0000) by (nonlinear_arith)
        requires
            ax <= 0x8000_0000_0000_0000,
    ;
    assert(ay * ay <= 0x4000_0000_0000_0000_0000_0000_0000_0000) by (nonlinear_arith)
        requires
            ay <= 0x8000_0000_0000_0000,
    ;
    let n: u128 = ax * ax + ay * ay;
    let m: u128 = max as u128;
    assert(n == x * x + y * y) by (nonlinear_arith)
        requires
            ax == x || ax == -x,
            ay == y || ay == -y,
            n == ax * ax + ay * ay,
    ;
    assert(m * m < 0x1_0000_0000_0000_0000) by (nonlinear_arith)
        requires
            m < 0x1_0000_0000,
    ;
    if n <= m * m {
        assert(-(max as int) <= x <= max && -(max as int) <= y <= max) by (nonlinear_arith)
            requires
                n == x * x + y * y,
                n <= max * max,
                max >= 0,
        ;
        (x, y)
    } else {
        let l = ceil_isqrt(n);
        proof {
            lemma_ceil_sqrt(n as nat);
        }
        assert(-i128::MAX <= (x as i128) * m <= i128::MAX) by (nonlinear_arith)
            requires
                -0x8000_0000_0000_0000 < x < 0x8000_0000_0000_0000,
                0 <= m < 0x1_0000_0000,
        ;
        assert(-i128::MAX <= (y as i128) * m <= i128::MAX) by (nonlinear_arith)
            requires
                -0x8000_0000_0000_0000 < y < 0x8000_0000_0000_0000,
                0 <= m < 0x1_0000_0000,
        ;
        let tx = mul_div(x as i128, m, l);
        let ty = mul_div(y as i128, m, l);
        assert(-(max as int) <= tx <= max && -(max as int) <= ty <= max) by (nonlinear_arith)
            requires
                tx * tx + ty * ty <= max * max,
                max >= 0,
        ;
        (tx as i64, ty as i64)
    }
}

} // verus!
