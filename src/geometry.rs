use vstd::prelude::*;

verus! {

/// Points (1/72 inch) in one inch.
pub const POINTS_PER_INCH: u64 = 72;

/// A length in points, held exactly as the fraction `numer / denom`.
#[derive(Clone, Copy, Debug, PartialEq, Eq, Structural)]
pub struct Points {
    pub numer: u64,
    pub denom: u64,
}

/// The physical size of one page.
#[derive(Clone, Copy, Debug, PartialEq, Eq, Structural)]
pub struct PageGeometry {
    pub width: Points,
    pub height: Points,
}

/// `px` pixels printed at `dpi` dots per inch, in points: `px * 72 / dpi`.
pub open spec fn points_of(px: nat, dpi: nat) -> Points {
    Points { numer: (px * POINTS_PER_INCH) as u64, denom: dpi as u64 }
}

/// The page that fits an image of `width_px` by `height_px` pixels at `dpi`.
pub open spec fn geometry_of(width_px: nat, height_px: nat, dpi: nat) -> PageGeometry {
    PageGeometry { width: points_of(width_px, dpi), height: points_of(height_px, dpi) }
}

impl Points {
    /// The length as a whole number of points, where the fraction divides out.
    pub fn whole(&self) -> (r: Option<u64>)
        ensures
            self.denom == 0 ==> r is None,
            self.denom > 0 ==> r == (if self.numer % self.denom == 0 {
                Some((self.numer / self.denom) as u64)
            } else {
                None
            }),
    {
        if self.denom == 0 || self.numer % self.denom != 0 {
            None
        } else {
            Some(self.numer / self.denom)
        }
    }

    /// Whether two lengths are the same number of points, whatever their denominators.
    pub fn same_length(&self, other: &Points) -> (r: bool)
        ensures
            r == (self.numer as int * other.denom as int == other.numer as int * self.denom as int),
    {
        let a: u128 = self.numer as u128;
        let b: u128 = other.denom as u128;
        let c: u128 = other.numer as u128;
        let d: u128 = self.denom as u128;
        assert(a * b <= u64::MAX * u64::MAX) by (nonlinear_arith)
            requires a <= u64::MAX, b <= u64::MAX;
        assert(c * d <= u64::MAX * u64::MAX) by (nonlinear_arith)
            requires c <= u64::MAX, d <= u64::MAX;
        a * b == c * d
    }
}

/// Page size in points for an image of `width_px` by `height_px` pixels
/// printed at `dpi` dots per inch: each side is `pixels * 72 / dpi`, exactly.
pub fn page_geometry(width_px: u32, height_px: u32, dpi: u64) -> (r: PageGeometry)
    requires
        dpi > 0,
    ensures
        r == geometry_of(width_px as nat, height_px as nat, dpi as nat),
        r.width.numer == width_px * 72,
        r.height.numer == height_px * 72,
        r.width.denom == dpi,
        r.height.denom == dpi,
{
    let w: u64 = width_px as u64 * POINTS_PER_INCH;
    let h: u64 = height_px as u64 * POINTS_PER_INCH;
    PageGeometry { width: Points { numer: w, denom: dpi }, height: Points { numer: h, denom: dpi } }
}

} // verus!
