use vstd::prelude::*;
use vstd::string::{StringExecFns, StringSliceAdditionalSpecFns};
use vstd::utf8::encode_utf8;
use crate::error::{AppError, PlatformError};

verus! {

/// Pixel density assumed when a monitor reports no physical size, in milli-PPI.
pub const DEFAULT_PPI_MILLI: u64 = 96000;

/// One discovered monitor. `ppi_milli` is the pixel density in thousandths of a pixel per inch.
#[derive(Clone, Debug, PartialEq, Eq)]
pub struct MonitorInfo {
    pub id_hash: u64,
    pub name: String,
    pub x: i32,
    pub y: i32,
    pub width_px: u32,
    pub height_px: u32,
    pub width_mm: u32,
    pub height_mm: u32,
    pub ppi_milli: u64,
}

/// Pixel density in milli-PPI: the mean of the horizontal and vertical densities,
/// each pixels over inches (25.4 mm), rounded down; the default when a size is not positive.
/// With `w_in = wmm / 25.4`, `(wpx / w_in + hpx / h_in) / 2 * 1000` is
/// `12700 * (wpx * hmm + hpx * wmm) / (wmm * hmm)`.
pub open spec fn ppi_milli_of(wpx: int, hpx: int, wmm: int, hmm: int) -> int {
    if wmm > 0 && hmm > 0 {
        (12700 * (wpx * hmm + hpx * wmm)) / (wmm * hmm)
    } else {
        DEFAULT_PPI_MILLI as int
    }
}

/// Decimal digits of a natural number, most significant first.
pub open spec fn decimal_digits(n: nat) -> Seq<char>
    decreases n,
{
    if n < 10 {
        seq![digit_char(n)]
    } else {
        decimal_digits(n / 10) + seq![digit_char(n % 10)]
    }
}

pub open spec fn digit_char(d: nat) -> char {
    if d == 0 { '0' } else if d == 1 { '1' } else if d == 2 { '2' } else if d == 3 { '3' }
    else if d == 4 { '4' } else if d == 5 { '5' } else if d == 6 { '6' } else if d == 7 { '7' }
    else if d == 8 { '8' } else { '9' }
}

/// Relies on std's `Display` for `usize` through `to_string`: plain decimal digits.
#[verifier::external_body]
fn decimal_string(n: usize) -> (r: String)
    ensures
        r@ == decimal_digits(n as nat),
{
    n.to_string()
}

/// The xxHash64 digest of `data` with `seed`.
pub uninterp spec fn xxhash64_of(seed: u64, data: Seq<u8>) -> u64;

/// Relies on twox_hash::XxHash64::oneshot: the digest depends on the seed and bytes alone.
#[verifier::external_body]
fn xxhash64_oneshot(seed: u64, data: &[u8]) -> (r: u64)
    ensures
        r == xxhash64_of(seed, data@),
{
    twox_hash::XxHash64::oneshot(seed, data)
}

/// Seed of the monitor identity hash.
pub const MONITOR_HASH_SEED: u64 = 42;

/// Stable identity of a monitor, derived from its name.
pub fn hash_name_xxhash64(name: &str) -> (r: u64)
    ensures
        r == xxhash64_of(MONITOR_HASH_SEED, encode_utf8(name@)),
{
    xxhash64_oneshot(MONITOR_HASH_SEED, name.as_bytes())
}

/// Pixel density of a monitor in milli-PPI from its resolution and physical size.
pub fn compute_ppi_milli(width_px: u32, height_px: u32, width_mm: i32, height_mm: i32) -> (r: u64)
    ensures
        r as int == ppi_milli_of(width_px as int, height_px as int, width_mm as int, height_mm as int),
{
    if width_mm > 0 && height_mm > 0 {
        let wpx = width_px as u128;
        let hpx = height_px as u128;
        let wmm = width_mm as u128;
        let hmm = height_mm as u128;
        assert(wpx * hmm <= 0xffff_ffff * 0x7fff_ffff) by (nonlinear_arith)
            requires wpx <= 0xffff_ffff, hmm <= 0x7fff_ffff;
        assert(hpx * wmm <= 0xffff_ffff * 0x7fff_ffff) by (nonlinear_arith)
            requires hpx <= 0xffff_ffff, wmm <= 0x7fff_ffff;
        assert(1 <= wmm * hmm <= 0x7fff_ffff * 0x7fff_ffff) by (nonlinear_arith)
            requires 1 <= wmm <= 0x7fff_ffff, 1 <= hmm <= 0x7fff_ffff;
        let num = 12700 * (wpx * hmm + hpx * wmm);
        let den = wmm * hmm;
        let q = num / den;
        assert(q <= 12700 * (wpx + hpx)) by (nonlinear_arith)
            requires
                q == num / den,
                num == 12700 * (wpx * hmm + hpx * wmm),
                den == wmm * hmm,
                wmm >= 1,
                hmm >= 1,
        {
            assert(wpx * hmm + hpx * wmm <= (wpx + hpx) * (wmm * hmm));
            assert(num <= (12700 * (wpx + hpx)) * den);
            vstd::arithmetic::div_mod::lemma_div_is_ordered(
                num as int, ((12700 * (wpx + hpx)) * den) as int, den as int);
            vstd::arithmetic::div_mod::lemma_div_by_multiple((12700 * (wpx + hpx)) as int, den as int);
        }
        q as u64
    } else {
        DEFAULT_PPI_MILLI
    }
}

/// Describes one monitor from what the windowing library reports of it: `mode` is its
/// video mode (width and height in pixels), absent when the monitor reports none, which
/// leaves the monitor out. A missing name becomes "Monitor <index>".
pub fn get_info_for_monitor(
    name: Option<String>,
    index: usize,
    mode: Option<(u32, u32)>,
    physical_size_mm: (i32, i32),
    position: (i32, i32),
) -> (r: Option<MonitorInfo>)
    ensures
        mode.is_none() ==> r.is_none(),
        mode.is_some() ==> r.is_some() && ({
            let info = r.unwrap();
            let (w, h) = mode.unwrap();
            let (wmm, hmm) = physical_size_mm;
            &&& info.name@ == (match name {
                Some(n) => n@,
                None => "Monitor "@ + decimal_digits(index as nat),
            })
            &&& info.id_hash == xxhash64_of(MONITOR_HASH_SEED, encode_utf8(info.name@))
            &&& info.x == position.0 && info.y == position.1
            &&& info.width_px == w && info.height_px == h
            &&& info.width_mm == (if wmm > 0 { wmm as u32 } else { 0u32 })
            &&& info.height_mm == (if hmm > 0 { hmm as u32 } else { 0u32 })
            &&& info.ppi_milli as int == ppi_milli_of(w as int, h as int, wmm as int, hmm as int)
        }),
{
    match mode {
        None => None,
        Some((w, h)) => {
            let (wmm, hmm) = physical_size_mm;
            let label = match name {
                Some(n) => n,
                None => {
                    let digits = decimal_string(index);
                    String::from_str("Monitor ").concat(digits.as_str())
                },
            };
            let ppi = compute_ppi_milli(w, h, wmm, hmm);
            let id_hash = hash_name_xxhash64(label.as_str());
            Some(MonitorInfo {
                id_hash,
                name: label,
                x: position.0,
                y: position.1,
                width_px: w,
                height_px: h,
                width_mm: if wmm > 0 { wmm as u32 } else { 0 },
                height_mm: if hmm > 0 { hmm as u32 } else { 0 },
                ppi_milli: ppi,
            })
        },
    }
}

/// The point lies inside the monitor's rectangle (left and top edges included).
pub open spec fn contains_point(m: MonitorInfo, x: i32, y: i32) -> bool {
    &&& m.x <= x && x < m.x + m.width_px
    &&& m.y <= y && y < m.y + m.height_px
}

/// `i` is the monitor that a point resolves to: the first one containing it, or the
/// first monitor when none does.
pub open spec fn is_located(ms: Seq<MonitorInfo>, x: i32, y: i32, i: int) -> bool {
    ||| 0 <= i < ms.len() && contains_point(ms[i], x, y)
        && forall|j: int| 0 <= j < i ==> !contains_point(#[trigger] ms[j], x, y)
    ||| i == 0 && ms.len() > 0 && forall|j: int| 0 <= j < ms.len() ==> !contains_point(#[trigger] ms[j], x, y)
}

/// The monitors found at startup, frozen once discovery has run.
pub struct MonitorRegistry {
    monitors: Option<Vec<MonitorInfo>>,
}

impl MonitorRegistry {
    /// The discovered monitors, or `None` before discovery.
    pub closed spec fn discovered(&self) -> Option<Seq<MonitorInfo>> {
        match self.monitors {
            Some(v) => Some(v@),
            None => None,
        }
    }

    /// A registry that discovery has not filled yet.
    pub fn uninitialized() -> (r: MonitorRegistry)
        ensures
            r.discovered().is_none(),
    {
        MonitorRegistry { monitors: None }
    }

    /// A registry holding the monitors that discovery found.
    pub fn initialized(monitors: Vec<MonitorInfo>) -> (r: MonitorRegistry)
        ensures
            r.discovered() == Some(monitors@),
    {
        MonitorRegistry { monitors: Some(monitors) }
    }
}

/// The discovered monitors; fails with `CacheInit` before discovery.
pub fn get_cached_monitor_info(registry: &MonitorRegistry) -> (r: Result<&Vec<MonitorInfo>, AppError>)
    ensures
        match registry.discovered() {
            Some(ms) => r.is_ok() && r.unwrap()@ == ms,
            None => r == Err::<&Vec<MonitorInfo>, AppError>(AppError::Platform(PlatformError::CacheInit)),
        },
{
    match &registry.monitors {
        Some(v) => Ok(v),
        None => Err(AppError::Platform(PlatformError::CacheInit)),
    }
}

fn monitor_contains(m: &MonitorInfo, x: i32, y: i32) -> (r: bool)
    ensures
        r == contains_point(*m, x, y),
{
    let xi = x as i64;
    let yi = y as i64;
    let left = m.x as i64;
    let top = m.y as i64;
    left <= xi && xi < left + m.width_px as i64 && top <= yi && yi < top + m.height_px as i64
}

/// Finds the monitor containing the given screen coordinates; falls back to the first
/// monitor when the point is outside every known monitor.
pub fn get_monitor_for_point(registry: &MonitorRegistry, x: i32, y: i32) -> (r: Result<&MonitorInfo, AppError>)
    ensures
        match registry.discovered() {
            None => r == Err::<&MonitorInfo, AppError>(AppError::Platform(PlatformError::CacheInit)),
            Some(ms) => if ms.len() == 0 {
                r == Err::<&MonitorInfo, AppError>(AppError::Platform(PlatformError::MonitorNotFound))
            } else {
                r.is_ok() && exists|i: int| is_located(ms, x, y, i) && *r.unwrap() == ms[i]
            },
        },
{
    let monitors = match get_cached_monitor_info(registry) {
        Ok(v) => v,
        Err(e) => return Err(e),
    };
    if monitors.len() == 0 {
        return Err(AppError::Platform(PlatformError::MonitorNotFound));
    }
    let mut i: usize = 0;
    while i < monitors.len()
        invariant
            0 <= i <= monitors@.len(),
            registry.discovered() == Some(monitors@),
            forall|j: int| 0 <= j < i ==> !contains_point(#[trigger] monitors@[j], x, y),
        decreases monitors@.len() - i,
    {
        if monitor_contains(&monitors[i], x, y) {
            let found = &monitors[i];
            assert(is_located(monitors@, x, y, i as int) && *found == monitors@[i as int]);
            return Ok(found);
        }
        i = i + 1;
    }
    assert(is_located(monitors@, x, y, 0));
    Ok(&monitors[0])
}

} // verus!
