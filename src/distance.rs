use vstd::prelude::*;
use crate::error::{AppError, PlatformError};
use crate::platform::{get_monitor_for_point, is_located, MonitorInfo, MonitorRegistry, DEFAULT_PPI_MILLI};

verus! {

/// Square of (micro-inches per inch) times (milli-PPI per PPI): `(10^6 * 10^3)^2`.
pub const DISTANCE_SCALE_SQ: u128 = 1_000_000_000_000_000_000;

/// `r` is the largest integer whose square does not exceed `n`.
pub open spec fn is_isqrt(r: int, n: int) -> bool {
    r >= 0 && r * r <= n < (r + 1) * (r + 1)
}

/// `r` micro-inches is the travel of a `d2`-square-pixel displacement at `ppi_milli`,
/// rounded down: `r <= sqrt(d2) / (ppi_milli / 1000) * 10^6 < r + 1`.
pub open spec fn is_travel_micro_in(r: int, d2: int, ppi_milli: int) -> bool {
    &&& r >= 0
    &&& r * r * (ppi_milli * ppi_milli) <= d2 * DISTANCE_SCALE_SQ
    &&& d2 * DISTANCE_SCALE_SQ < (r + 1) * (r + 1) * (ppi_milli * ppi_milli)
}

/// Squared Euclidean pixel distance between two points.
pub open spec fn squared_pixels(x1: i32, y1: i32, x2: i32, y2: i32) -> int {
    (x2 - x1) * (x2 - x1) + (y2 - y1) * (y2 - y1)
}

/// The density used for a monitor: its own, or the default when it reports none.
pub open spec fn effective_ppi_milli(m: MonitorInfo) -> int {
    if m.ppi_milli > 0 { m.ppi_milli as int } else { DEFAULT_PPI_MILLI as int }
}

/// What measuring the move from `(x1, y1)` to `(x2, y2)` yields.
pub open spec fn distance_outcome(registry: MonitorRegistry, x1: i32, y1: i32, x2: i32, y2: i32, r: Result<u64, AppError>) -> bool {
    if x1 == x2 && y1 == y2 {
        r == Ok::<u64, AppError>(0)
    } else {
        match registry.discovered() {
            None => r == Err::<u64, AppError>(AppError::Platform(PlatformError::CacheInit)),
            Some(ms) => if ms.len() == 0 {
                r == Err::<u64, AppError>(AppError::Platform(PlatformError::MonitorNotFound))
            } else {
                r is Ok && exists|i: int| #[trigger] is_located(ms, x1, y1, i) && is_travel_micro_in(
                    r.unwrap() as int, squared_pixels(x1, y1, x2, y2), effective_ppi_milli(ms[i]))
            },
        }
    }
}

/// Integer square root, rounded down.
pub fn isqrt(n: u128) -> (r: u64)
    ensures
        is_isqrt(r as int, n as int),
{
    let mut lo: u128 = 0;
    let mut hi: u128 = 0x1_0000_0000_0000_0000;
    assert(hi * hi > n) by (nonlinear_arith)
        requires hi == 0x1_0000_0000_0000_0000u128, n <= u128::MAX;
    while hi - lo > 1
        invariant
            lo < hi <= 0x1_0000_0000_0000_0000,
            lo * lo <= n,
            n < hi * hi,
        decreases hi - lo,
    {
        let mid = lo + (hi - lo) / 2;
        assert(mid * mid <= 0xffff_ffff_ffff_ffff * 0xffff_ffff_ffff_ffff) by (nonlinear_arith)
            requires mid < 0x1_0000_0000_0000_0000;
        if mid * mid <= n {
            lo = mid;
        } else {
            hi = mid;
        }
    }
    assert(hi == lo + 1);
    lo as u64
}

fn abs_diff(a: i32, b: i32) -> (r: u64)
    ensures
        r as int == if a >= b { a - b } else { b - a },
{
    if a >= b {
        (a as i64 - b as i64) as u64
    } else {
        (b as i64 - a as i64) as u64
    }
}

/// Travel in micro-inches of a displacement of `d2` square pixels at `ppi_milli`.
pub fn travel_micro_in(d2: u128, ppi_milli: u64) -> (r: u64)
    requires
        d2 <= 0x2_0000_0000_0000_0000,
        ppi_milli > 0,
    ensures
        is_travel_micro_in(r as int, d2 as int, ppi_milli as int),
{
    assert(d2 * DISTANCE_SCALE_SQ <= 0x2_0000_0000_0000_0000 * DISTANCE_SCALE_SQ) by (nonlinear_arith)
        requires d2 <= 0x2_0000_0000_0000_0000;
    let n = d2 * DISTANCE_SCALE_SQ;
    let p = ppi_milli as u128;
    assert(1 <= p * p <= 0xffff_ffff_ffff_ffff * 0xffff_ffff_ffff_ffff) by (nonlinear_arith)
        requires 1 <= p <= 0xffff_ffff_ffff_ffff;
    let m = p * p;
    let q = n / m;
    let r = isqrt(q);
    proof {
        let ri = r as int;
        let ni = n as int;
        let mi = m as int;
        let qi = q as int;
        vstd::arithmetic::div_mod::lemma_fundamental_div_mod(ni, mi);
        assert(0 <= ni % mi < mi) by {
            vstd::arithmetic::div_mod::lemma_mod_bound(ni, mi);
        }
        assert(ri * ri * mi <= ni) by (nonlinear_arith)
            requires ri * ri <= qi, ni == mi * qi + ni % mi, 0 <= ni % mi, mi >= 1;
        assert(ni < (ri + 1) * (ri + 1) * mi) by (nonlinear_arith)
            requires qi < (ri + 1) * (ri + 1), ni == mi * qi + ni % mi, ni % mi < mi, mi >= 1;
    }
    r
}

/// Distance moved in micro-inches between two points, at the pixel density of the
/// monitor of the starting point. Zero for a point to itself, without consulting the
/// registry. A move across monitors is measured at the starting monitor's density.
pub fn calculate_distance_inches(registry: &MonitorRegistry, x1: i32, y1: i32, x2: i32, y2: i32) -> (r: Result<u64, AppError>)
    ensures
        distance_outcome(*registry, x1, y1, x2, y2, r),
{
    if x1 == x2 && y1 == y2 {
        return Ok(0);
    }
    let monitor1 = match get_monitor_for_point(registry, x1, y1) {
        Ok(m) => m,
        Err(e) => return Err(e),
    };
    let ppi = if monitor1.ppi_milli > 0 { monitor1.ppi_milli } else { DEFAULT_PPI_MILLI };
    let dx = abs_diff(x1, x2) as u128;
    let dy = abs_diff(y1, y2) as u128;
    assert(dx * dx <= 0xffff_ffff * 0xffff_ffff && dy * dy <= 0xffff_ffff * 0xffff_ffff) by (nonlinear_arith)
        requires dx <= 0xffff_ffff, dy <= 0xffff_ffff;
    let d2 = dx * dx + dy * dy;
    assert(d2 == squared_pixels(x1, y1, x2, y2)) by (nonlinear_arith)
        requires
            dx == (if x1 >= x2 { x1 - x2 } else { x2 - x1 }),
            dy == (if y1 >= y2 { y1 - y2 } else { y2 - y1 }),
            d2 == dx * dx + dy * dy;
    Ok(travel_micro_in(d2, ppi))
}

} // verus!
