//! Integer trigonometry: a piecewise-linear sine/cosine on milli-degrees and
//! an octant-based bearing, the library's deterministic replacement for the
//! floating-point trigonometry a renderer would use.
use vstd::prelude::*;

use crate::geom::absi;

verus! {

/// Milli-degrees in a full turn.
pub const FULL_TURN_MDEG: i64 = 360_000;

/// Piecewise-linear sine: 0 at 0, 1000 at 90 degrees, 0 at 180 degrees,
/// -1000 at 270 degrees, linear in between. Argument in milli-degrees,
/// meaningful on `[0, 360000)`.
#[verifier::opaque]
pub open spec fn spec_sin_milli(t: int) -> int {
    if t <= 90_000 {
        t / 90
    } else if t <= 180_000 {
        (180_000 - t) / 90
    } else if t <= 270_000 {
        -((t - 180_000) / 90)
    } else {
        -((360_000 - t) / 90)
    }
}

/// Cosine as the sine shifted a quarter turn.
#[verifier::opaque]
pub open spec fn spec_cos_milli(t: int) -> int {
    spec_sin_milli((t + 90_000) % 360_000)
}

/// Wraps an angle in milli-degrees into `[0, 360000)`.
pub fn normalize_mdeg(t: i64) -> (r: i64)
    requires
        -4_000_000 <= t <= 4_000_000,
    ensures
        0 <= r < 360_000,
        r as int == (t as int) % 360_000,
{
    let mut r = t;
    while r >= FULL_TURN_MDEG
        invariant
            -4_000_000 <= r <= 4_000_000,
            (r as int) % 360_000 == (t as int) % 360_000,
        decreases r as int,
    {
        r = r - FULL_TURN_MDEG;
    }
    while r < 0
        invariant
            -4_000_000 <= r < 360_000,
            (r as int) % 360_000 == (t as int) % 360_000,
        decreases (if r < 0 {
            -(r as int)
        } else {
            0int
        }),
    {
        r = r + FULL_TURN_MDEG;
    }
    r
}

/// Wraps an angle in whole degrees into `[0, 360)`.
pub fn normalize_deg(t: i64) -> (r: i64)
    requires
        -4_000 <= t <= 4_000,
    ensures
        0 <= r < 360,
        r as int == (t as int) % 360,
{
    let mut r = t;
    while r >= 360
        invariant
            -4_000 <= r <= 4_000,
            (r as int) % 360 == (t as int) % 360,
        decreases r as int,
    {
        r = r - 360;
    }
    while r < 0
        invariant
            -4_000 <= r < 360,
            (r as int) % 360 == (t as int) % 360,
        decreases (if r < 0 {
            -(r as int)
        } else {
            0int
        }),
    {
        r = r + 360;
    }
    r
}

pub fn sin_milli(t: i64) -> (r: i64)
    requires
        0 <= t < 360_000,
    ensures
        r == spec_sin_milli(t as int),
        -1000 <= r <= 1000,
{
    proof {
        reveal(spec_sin_milli);
    }
    if t <= 90_000 {
        ((t as u64) / 90) as i64
    } else if t <= 180_000 {
        (((180_000 - t) as u64) / 90) as i64
    } else if t <= 270_000 {
        let m = ((t - 180_000) as u64) / 90;
        -(m as i64)
    } else {
        let m = ((360_000 - t) as u64) / 90;
        -(m as i64)
    }
}

pub fn cos_milli(t: i64) -> (r: i64)
    requires
        0 <= t < 360_000,
    ensures
        r == spec_cos_milli(t as int),
        -1000 <= r <= 1000,
{
    let u = if t >= 270_000 {
        t - 270_000
    } else {
        t + 90_000
    };
    proof {
        reveal(spec_cos_milli);
        assert(u as int == (t as int + 90_000) % 360_000);
    }
    sin_milli(u)
}

/// Integer bearing of the direction `(x, z-ish)` pair `(x, y)`, in whole
/// degrees `[0, 360)`: 0 along positive x with y = 0, growing toward
/// positive y, linear within each octant.
#[verifier::opaque]
pub open spec fn spec_bearing(y: int, x: int) -> int {
    if x == 0 && y == 0 {
        0
    } else {
        let ax = absi(x);
        let ay = absi(y);
        let base = if ax >= ay {
            (45 * ay) / ax
        } else {
            90 - (45 * ax) / ay
        };
        if x >= 0 && y >= 0 {
            base
        } else if x < 0 && y >= 0 {
            180 - base
        } else if x < 0 {
            180 + base
        } else if base == 0 {
            0
        } else {
            360 - base
        }
    }
}

pub fn bearing_deg(y: i64, x: i64) -> (r: i64)
    requires
        -4_000_000 <= y <= 4_000_000,
        -4_000_000 <= x <= 4_000_000,
    ensures
        r == spec_bearing(y as int, x as int),
        0 <= r < 360,
{
    proof {
        reveal(spec_bearing);
    }
    if x == 0 && y == 0 {
        return 0;
    }
    let ax = if x >= 0 {
        x
    } else {
        -x
    };
    let ay = if y >= 0 {
        y
    } else {
        -y
    };
    let base = if ax >= ay {
        (((45 * (ay as u64)) / (ax as u64))) as i64
    } else {
        90 - (((45 * (ax as u64)) / (ay as u64)) as i64)
    };
    proof {
        if ax >= ay {
            assert((45 * ay as int) / ax as int <= 45) by (nonlinear_arith)
                requires
                    0 < ax <= 4_000_000 && 0 <= ay <= ax,
            ;
        } else {
            assert((45 * ax as int) / ay as int <= 45) by (nonlinear_arith)
                requires
                    0 < ay <= 4_000_000 && 0 <= ax <= ay,
            ;
        }
    }
    if x >= 0 && y >= 0 {
        base
    } else if x < 0 && y >= 0 {
        180 - base
    } else if x < 0 {
        180 + base
    } else if base == 0 {
        0
    } else {
        360 - base
    }
}

} // verus!
