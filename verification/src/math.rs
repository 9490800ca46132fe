//! Integer square roots and the aiming of shots.

use vstd::prelude::*;
use crate::components::Velocity;
use crate::geometry::Position;

verus! {

/// `r` is the square root of `n`, rounded down.
pub open spec fn is_floor_sqrt(n: nat, r: nat) -> bool {
    r * r <= n < (r + 1) * (r + 1)
}

/// The square root of `n`, rounded down.
pub open spec fn floor_sqrt(n: nat) -> nat {
    choose|r: nat| is_floor_sqrt(n, r)
}

/// Squaring keeps the order of natural numbers.
pub proof fn square_is_monotonic(a: nat, b: nat)
    requires
        a <= b,
    ensures
        a * a <= b * b,
{
    assert(a * a <= b * b) by (nonlinear_arith)
        requires
            a <= b,
    ;
}

/// There is only one rounded-down square root.
pub proof fn floor_sqrt_is_unique(n: nat, a: nat, b: nat)
    requires
        is_floor_sqrt(n, a),
        is_floor_sqrt(n, b),
    ensures
        a == b,
{
    if a < b {
        square_is_monotonic(a + 1, b);
    } else if b < a {
        square_is_monotonic(b + 1, a);
    }
}

/// Computes the square root of `n`, rounded down.
pub fn integer_sqrt(n: u128) -> (r: u64)
    ensures
        is_floor_sqrt(n as nat, r as nat),
        r == floor_sqrt(n as nat),
{
    let mut lo: u128 = 0;
    let mut hi: u128 = 0x1_0000_0000_0000_0000;
    assert(n < hi * hi) by (nonlinear_arith)
        requires
            hi == 0x1_0000_0000_0000_0000,
            n <= u128::MAX,
    ;
    while hi - lo > 1
        invariant
            lo < hi <= 0x1_0000_0000_0000_0000,
            lo * lo <= n,
            n < hi * hi,
        decreases hi - lo,
    {
        let mid: u128 = lo + (hi - lo) / 2;
        assert(mid * mid <= u128::MAX) by (nonlinear_arith)
            requires
                mid < 0x1_0000_0000_0000_0000,
        ;
        if mid * mid <= n {
            lo = mid;
        } else {
            hi = mid;
        }
    }
    proof {
        assert(hi == lo + 1);
        let found = floor_sqrt(n as nat);
        assert(is_floor_sqrt(n as nat, lo as nat));
        floor_sqrt_is_unique(n as nat, lo as nat, found);
    }
    lo as u64
}

/// One component of a velocity of size `speed` along a direction: the share
/// `d / len` of the speed, rounded towards zero; zero where the direction
/// has no length.
pub open spec fn scaled_component(speed: int, d: int, len: int) -> int {
    if len <= 0 {
        0
    } else if d >= 0 {
        (speed * d) / len
    } else {
        -((speed * (-d)) / len)
    }
}

/// The length of the step from `from` to `to`, rounded down.
pub open spec fn distance(from: Position, to: Position) -> nat {
    floor_sqrt(((to.0 - from.0) * (to.0 - from.0) + (to.1 - from.1) * (to.1 - from.1)) as nat)
}

/// The velocity of size `speed` that leads from `from` towards `to`. Where
/// the two points are the same it is zero.
pub open spec fn aimed_velocity(from: Position, to: Position, speed: int) -> (int, int) {
    let len = distance(from, to) as int;
    (
        scaled_component(speed, to.0 - from.0, len),
        scaled_component(speed, to.1 - from.1, len),
    )
}

/// Whether both coordinates of `p` are small enough for distances from it
/// to be computed.
pub open spec fn within_reach(p: Position) -> bool {
    &&& -0x2000_0000_0000_0000 <= p.0 <= 0x2000_0000_0000_0000
    &&& -0x2000_0000_0000_0000 <= p.1 <= 0x2000_0000_0000_0000
}

/// The magnitude of `d`, and whether `d` is negative.
fn magnitude(d: i128) -> (r: (u128, bool))
    requires
        -0x4000_0000_0000_0000 <= d <= 0x4000_0000_0000_0000,
    ensures
        r.1 == (d < 0),
        r.0 == (if d < 0 {
            -d
        } else {
            d as int
        }),
{
    if d < 0 {
        ((-d) as u128, true)
    } else {
        (d as u128, false)
    }
}

/// One component of the aimed velocity.
fn scale_component(speed: u16, size: u128, negative: bool, len: u64) -> (r: i32)
    requires
        size <= 0x4000_0000_0000_0000,
        len > 0 ==> size <= len,
    ensures
        r == scaled_component(
            speed as int,
            if negative {
                -(size as int)
            } else {
                size as int
            },
            len as int,
        ),
        -(speed as int) <= r <= speed as int,
{
    if len == 0 {
        0
    } else {
        assert(speed * size <= 0xffff * 0x4000_0000_0000_0000) by (nonlinear_arith)
            requires
                speed <= 0xffff,
                size <= 0x4000_0000_0000_0000,
        ;
        let product: u128 = (speed as u128) * size;
        let q: u128 = product / (len as u128);
        assert(q <= speed) by (nonlinear_arith)
            requires
                q == (speed * size) / (len as int),
                size <= len,
                len > 0,
                speed >= 0,
                size >= 0,
        ;
        if negative {
            -(q as i32)
        } else {
            q as i32
        }
    }
}

/// Computes the velocity of size `speed` that leads from `from` towards
/// `to`.
pub fn aim(from: Position, to: Position, speed: u16) -> (v: Velocity)
    requires
        within_reach(from),
        within_reach(to),
    ensures
        (v.x as int, v.y as int) == aimed_velocity(from, to, speed as int),
        -(speed as int) <= v.x <= speed as int,
        -(speed as int) <= v.y <= speed as int,
{
    let dx: i128 = to.0 as i128 - from.0 as i128;
    let dy: i128 = to.1 as i128 - from.1 as i128;
    let (ax, nx) = magnitude(dx);
    let (ay, ny) = magnitude(dy);
    assert(ax * ax <= 0x4000_0000_0000_0000 * 0x4000_0000_0000_0000) by (nonlinear_arith)
        requires
            ax <= 0x4000_0000_0000_0000,
    ;
    assert(ay * ay <= 0x4000_0000_0000_0000 * 0x4000_0000_0000_0000) by (nonlinear_arith)
        requires
            ay <= 0x4000_0000_0000_0000,
    ;
    assert(ax * ax == dx * dx) by (nonlinear_arith)
        requires
            ax == dx || ax == -dx,
    ;
    assert(ay * ay == dy * dy) by (nonlinear_arith)
        requires
            ay == dy || ay == -dy,
    ;
    let sum: u128 = ax * ax + ay * ay;
    let len = integer_sqrt(sum);
    proof {
        assert(sum == ((to.0 - from.0) * (to.0 - from.0) + (to.1 - from.1) * (to.1 - from.1)) as nat);
        assert(len == distance(from, to));
        if len > 0 {
            if ax > len {
                square_is_monotonic((len + 1) as nat, ax as nat);
            }
            if ay > len {
                square_is_monotonic((len + 1) as nat, ay as nat);
            }
        }
    }
    let x = scale_component(speed, ax, nx, len);
    let y = scale_component(speed, ay, ny, len);
    Velocity { x, y }
}

} // verus!
