use vstd::prelude::*;

verus! {

/// The four intermediate values of the HSV to RGB conversion: with `f` the fractional
/// part of the sector position, `V = v`, `P = v * (1 - s)`, `Q = v * (1 - f * s)` and
/// `T = v * (1 - (1 - f) * s)`.
#[derive(Clone, Copy, Debug, PartialEq, Eq, Structural)]
pub enum HsvTerm {
    V,
    P,
    Q,
    T,
}

/// Which intermediate value becomes the red, the green and the blue channel in each of
/// the six hue sectors; a sector outside `0..=4` is treated as the last one.
pub open spec fn spec_sector_terms(sector: i32) -> (HsvTerm, HsvTerm, HsvTerm) {
    if sector == 0 {
        (HsvTerm::V, HsvTerm::T, HsvTerm::P)
    } else if sector == 1 {
        (HsvTerm::Q, HsvTerm::V, HsvTerm::P)
    } else if sector == 2 {
        (HsvTerm::P, HsvTerm::V, HsvTerm::T)
    } else if sector == 3 {
        (HsvTerm::P, HsvTerm::Q, HsvTerm::V)
    } else if sector == 4 {
        (HsvTerm::T, HsvTerm::P, HsvTerm::V)
    } else {
        (HsvTerm::V, HsvTerm::P, HsvTerm::Q)
    }
}

/// The (red, green, blue) layout of the intermediate values for a hue sector.
pub fn hsv_sector_terms(sector: i32) -> (terms: (HsvTerm, HsvTerm, HsvTerm))
    ensures
        terms == spec_sector_terms(sector),
{
    match sector {
        0 => (HsvTerm::V, HsvTerm::T, HsvTerm::P),
        1 => (HsvTerm::Q, HsvTerm::V, HsvTerm::P),
        2 => (HsvTerm::P, HsvTerm::V, HsvTerm::T),
        3 => (HsvTerm::P, HsvTerm::Q, HsvTerm::V),
        4 => (HsvTerm::T, HsvTerm::P, HsvTerm::V),
        _ => (HsvTerm::V, HsvTerm::P, HsvTerm::Q),
    }
}

/// The six hue sectors, red to magenta: red is full in sectors 0 and 5, green in 1 and
/// 2, blue in 3 and 4; every sector number outside `0..=4` takes the layout of sector 5.
pub proof fn sector_layouts(sector: i32)
    ensures
        spec_sector_terms(0) == (HsvTerm::V, HsvTerm::T, HsvTerm::P),
        spec_sector_terms(1) == (HsvTerm::Q, HsvTerm::V, HsvTerm::P),
        spec_sector_terms(2) == (HsvTerm::P, HsvTerm::V, HsvTerm::T),
        spec_sector_terms(3) == (HsvTerm::P, HsvTerm::Q, HsvTerm::V),
        spec_sector_terms(4) == (HsvTerm::T, HsvTerm::P, HsvTerm::V),
        !(0 <= sector <= 4) ==> spec_sector_terms(sector) == (HsvTerm::V, HsvTerm::P, HsvTerm::Q),
{
}

/// In every sector one channel carries the full value `V`, one the floor `P`, and the
/// third the rising (`T`) or falling (`Q`) ramp, each exactly once.
pub proof fn each_sector_has_value_floor_and_ramp(sector: i32)
    ensures
        ({
            let (r, g, b) = spec_sector_terms(sector);
            &&& (r == HsvTerm::V) as int + (g == HsvTerm::V) as int + (b == HsvTerm::V) as int == 1
            &&& (r == HsvTerm::P) as int + (g == HsvTerm::P) as int + (b == HsvTerm::P) as int == 1
            &&& r != g && g != b && r != b
        }),
{
}

} // verus!
