use vstd::prelude::*;

verus! {

/// The side of a sprite sheet's square cells.
#[derive(Debug, Clone, Copy, PartialEq, Eq, Structural)]
pub enum CellSize {
    Eight,
    Sixteen,
    TwentyFour,
}

/// The side of a cell in pixels.
pub open spec fn spec_pixels(size: CellSize) -> u64 {
    match size {
        CellSize::Eight => 8,
        CellSize::Sixteen => 16,
        CellSize::TwentyFour => 24,
    }
}

impl CellSize {
    /// The side of a cell in pixels.
    pub fn pixels(self) -> (p: u64)
        ensures
            p == spec_pixels(self),
    {
        match self {
            CellSize::Eight => 8,
            CellSize::Sixteen => 16,
            CellSize::TwentyFour => 24,
        }
    }
}

/// A rectangle of a sprite sheet in pixels, from `min` (inclusive) to `max` (exclusive).
#[derive(Debug, Clone, Copy, PartialEq, Eq, Structural)]
pub struct PixelRect {
    pub min_x: u64,
    pub min_y: u64,
    pub max_x: u64,
    pub max_y: u64,
}

/// The pixels of the cell in column `x` and row `y` of a sheet with cells of `size`.
pub fn cell_rect(size: CellSize, x: u32, y: u32) -> (r: PixelRect)
    ensures
        r.min_x == x * spec_pixels(size),
        r.min_y == y * spec_pixels(size),
        r.max_x == (x + 1) * spec_pixels(size),
        r.max_y == (y + 1) * spec_pixels(size),
{
    let p = size.pixels();
    let x = x as u64;
    let y = y as u64;
    assert(x * p <= 0xffff_ffffu64 * 24) by (nonlinear_arith)
        requires x <= 0xffff_ffffu64, p <= 24;
    assert(y * p <= 0xffff_ffffu64 * 24) by (nonlinear_arith)
        requires y <= 0xffff_ffffu64, p <= 24;
    assert((x + 1) * p <= 0x1_0000_0000u64 * 24) by (nonlinear_arith)
        requires x <= 0xffff_ffffu64, p <= 24;
    assert((y + 1) * p <= 0x1_0000_0000u64 * 24) by (nonlinear_arith)
        requires y <= 0xffff_ffffu64, p <= 24;
    PixelRect { min_x: x * p, min_y: y * p, max_x: (x + 1) * p, max_y: (y + 1) * p }
}

/// Every cell is a square of the cell size.
pub proof fn law_cell_is_square(size: CellSize, x: u32, y: u32)
    ensures
        (x + 1) * spec_pixels(size) - x * spec_pixels(size) == spec_pixels(size),
        (y + 1) * spec_pixels(size) - y * spec_pixels(size) == spec_pixels(size),
{
    let p = spec_pixels(size) as int;
    assert((x + 1) * p - x * p == p) by (nonlinear_arith);
    assert((y + 1) * p - y * p == p) by (nonlinear_arith);
}

/// Which way a sprite leans while moving sideways.
#[derive(Debug, Clone, Copy, PartialEq, Eq, Structural)]
pub enum Tilt {
    Left,
    Center,
    Right,
}

/// A cell of a sprite sheet: its column and row.
#[derive(Debug, Clone, Copy, PartialEq, Eq, Structural)]
pub struct Cell {
    pub x: u32,
    pub y: u32,
}

/// A sprite with one cell for each lean.
#[derive(Debug, Clone, Copy, PartialEq, Eq, Structural)]
pub struct TiltSprite {
    pub size: CellSize,
    pub left: Cell,
    pub center: Cell,
    pub right: Cell,
}

impl TiltSprite {
    /// The cell for a lean.
    pub open spec fn spec_cell(self, tilt: Tilt) -> Cell {
        match tilt {
            Tilt::Left => self.left,
            Tilt::Center => self.center,
            Tilt::Right => self.right,
        }
    }

    /// The pixels shown for a lean.
    pub fn rect(&self, tilt: Tilt) -> (r: PixelRect)
        ensures
            ({
                let c = self.spec_cell(tilt);
                &&& r.min_x == c.x * spec_pixels(self.size)
                &&& r.min_y == c.y * spec_pixels(self.size)
                &&& r.max_x == (c.x + 1) * spec_pixels(self.size)
                &&& r.max_y == (c.y + 1) * spec_pixels(self.size)
            }),
            tilt == Tilt::Left ==> r.min_x == self.left.x * spec_pixels(self.size) && r.min_y
                == self.left.y * spec_pixels(self.size),
            tilt == Tilt::Center ==> r.min_x == self.center.x * spec_pixels(self.size) && r.min_y
                == self.center.y * spec_pixels(self.size),
            tilt == Tilt::Right ==> r.min_x == self.right.x * spec_pixels(self.size) && r.min_y
                == self.right.y * spec_pixels(self.size),
    {
        let c = match tilt {
            Tilt::Left => self.left,
            Tilt::Center => self.center,
            Tilt::Right => self.right,
        };
        cell_rect(self.size, c.x, c.y)
    }
}

/// Each lean shows its own cell: leaning left shows the left cell, upright the centre cell,
/// leaning right the right cell.
pub proof fn law_each_lean_shows_its_own_cell(s: TiltSprite)
    ensures
        s.spec_cell(Tilt::Left) == s.left,
        s.spec_cell(Tilt::Center) == s.center,
        s.spec_cell(Tilt::Right) == s.right,
{
}

/// Distinct cells give distinct pixels: two leans whose cells differ show rectangles with
/// different corners.
pub proof fn law_distinct_leans_show_distinct_pixels(s: TiltSprite, a: Tilt, b: Tilt)
    requires
        s.spec_cell(a) != s.spec_cell(b),
    ensures
        s.spec_cell(a).x * spec_pixels(s.size) != s.spec_cell(b).x * spec_pixels(s.size)
            || s.spec_cell(a).y * spec_pixels(s.size) != s.spec_cell(b).y * spec_pixels(s.size),
{
    let p = spec_pixels(s.size) as int;
    let (ca, cb) = (s.spec_cell(a), s.spec_cell(b));
    assert(p > 0);
    if ca.x != cb.x {
        assert(ca.x * p != cb.x * p) by (nonlinear_arith)
            requires ca.x != cb.x, p > 0;
    } else {
        assert(ca.y * p != cb.y * p) by (nonlinear_arith)
            requires ca.y != cb.y, p > 0;
    }
}

} // verus!
