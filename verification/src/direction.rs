//! Directions of the compass as fixed-point numbers.

use vstd::prelude::*;

verus! {

/// The sines of the whole degrees from 0 to 90, in thousandths.
pub const QUARTER_SINES: [i32; 91] = [
    0, 17, 35, 52, 70, 87, 105, 122, 139, 156, 174, 191, 208,
    225, 242, 259, 276, 292, 309, 326, 342, 358, 375, 391, 407, 423,
    438, 454, 469, 485, 500, 515, 530, 545, 559, 574, 588, 602, 616,
    629, 643, 656, 669, 682, 695, 707, 719, 731, 743, 755, 766, 777,
    788, 799, 809, 819, 829, 839, 848, 857, 866, 875, 883, 891, 899,
    906, 914, 921, 927, 934, 940, 946, 951, 956, 961, 966, 970, 974,
    978, 982, 985, 988, 990, 993, 995, 996, 998, 999, 999, 1000, 1000,
];

/// The sine of `degrees` whole degrees, in thousandths, for a direction
/// from 0 up to, but not including, 360.
pub open spec fn sine_thousandths(degrees: int) -> int {
    if degrees <= 90 {
        QUARTER_SINES[degrees] as int
    } else if degrees <= 180 {
        QUARTER_SINES[180 - degrees] as int
    } else if degrees <= 270 {
        -(QUARTER_SINES[degrees - 180] as int)
    } else {
        -(QUARTER_SINES[360 - degrees] as int)
    }
}

/// The cosine of `degrees` whole degrees, in thousandths: the sine a
/// quarter turn further on.
pub open spec fn cosine_thousandths(degrees: int) -> int {
    sine_thousandths(
        if degrees + 90 >= 360 {
            degrees - 270
        } else {
            degrees + 90
        },
    )
}

/// `a / b` rounded towards zero, for a positive `b`.
pub open spec fn quotient_toward_zero(a: int, b: int) -> int {
    if a >= 0 {
        a / b
    } else {
        -((-a) / b)
    }
}

/// Every entry of the table is a share of one thousand.
pub proof fn quarter_sines_are_shares(d: int)
    requires
        0 <= d <= 90,
    ensures
        0 <= QUARTER_SINES[d] <= 1000,
{
}

/// Computes the sine of `degrees` whole degrees, in thousandths.
pub fn sine(degrees: u16) -> (r: i32)
    requires
        degrees < 360,
    ensures
        r == sine_thousandths(degrees as int),
        -1000 <= r <= 1000,
{
    if degrees <= 90 {
        proof {
            quarter_sines_are_shares(degrees as int);
        }
        QUARTER_SINES[degrees as usize]
    } else if degrees <= 180 {
        proof {
            quarter_sines_are_shares(180 - degrees);
        }
        QUARTER_SINES[(180 - degrees) as usize]
    } else if degrees <= 270 {
        proof {
            quarter_sines_are_shares(degrees - 180);
        }
        -QUARTER_SINES[(degrees - 180) as usize]
    } else {
        proof {
            quarter_sines_are_shares(360 - degrees);
        }
        -QUARTER_SINES[(360 - degrees) as usize]
    }
}

/// Computes the cosine of `degrees` whole degrees, in thousandths.
pub fn cosine(degrees: u16) -> (r: i32)
    requires
        degrees < 360,
    ensures
        r == cosine_thousandths(degrees as int),
        -1000 <= r <= 1000,
{
    if degrees >= 270 {
        sine(degrees - 270)
    } else {
        sine(degrees + 90)
    }
}

/// The share `thousandths / 1000` of `speed`, rounded towards zero.
pub fn share_of_speed(speed: i32, thousandths: i32) -> (r: i32)
    requires
        0 <= speed,
        -1000 <= thousandths <= 1000,
    ensures
        r == quotient_toward_zero(speed * thousandths, 1000),
        -speed <= r <= speed,
{
    let s: i64 = speed as i64;
    if thousandths >= 0 {
        let t: i64 = thousandths as i64;
        assert(0 <= s * t <= s * 1000) by (nonlinear_arith)
            requires
                0 <= s,
                0 <= t <= 1000,
        ;
        ((s * t) / 1000) as i32
    } else {
        let t: i64 = -(thousandths as i64);
        assert(0 <= s * t <= s * 1000) by (nonlinear_arith)
            requires
                0 <= s,
                0 <= t <= 1000,
        ;
        assert(speed * thousandths == -(s * t)) by (nonlinear_arith)
            requires
                s == speed,
                t == -thousandths,
        ;
        (-((s * t) / 1000)) as i32
    }
}

} // verus!
