use vstd::prelude::*;

verus! {

/// Which pixels of an image are not fully transparent, row by row (rows top to bottom,
/// pixels left to right).
pub struct AlphaMask {
    pub rows: Vec<Vec<bool>>,
}

/// The part of an image searched for opaque pixels: columns `min_x..max_x`, rows
/// `min_y..max_y`.
#[derive(Debug, Clone, Copy, PartialEq, Eq, Structural)]
pub struct SearchRect {
    pub min_x: u32,
    pub min_y: u32,
    pub max_x: u32,
    pub max_y: u32,
}

/// The box of a collider around the opaque pixels, relative to the search rectangle's corner:
/// `x` grows rightwards and `y` upwards.
#[derive(Debug, Clone, Copy, PartialEq, Eq, Structural)]
pub struct ColliderBounds {
    pub min_x: i64,
    pub min_y: i64,
    pub max_x: i64,
    pub max_y: i64,
}

impl AlphaMask {
    /// Whether the pixel at column `x`, row `y` is opaque; pixels outside the image are not.
    pub open spec fn spec_opaque(self, x: int, y: int) -> bool {
        0 <= y < self.rows@.len() && 0 <= x < self.rows@[y]@.len() && self.rows@[y]@[x]
    }

    /// Whether the pixel at column `x`, row `y` is opaque; pixels outside the image are not.
    pub fn is_opaque(&self, x: u32, y: u32) -> (r: bool)
        ensures
            r == self.spec_opaque(x as int, y as int),
    {
        let y = y as usize;
        let x = x as usize;
        if y < self.rows.len() && x < self.rows[y].len() {
            self.rows[y][x]
        } else {
            false
        }
    }

    fn column_has(&self, x: u32, y0: u32, y1: u32) -> (r: bool)
        ensures
            r == column_has(*self, x as int, y0 as int, y1 as int),
    {
        let mut y = y0;
        while y < y1
            invariant
                y0 <= y,
                y0 <= y1 ==> y <= y1,
                forall|k: int| y0 <= k < y ==> !#[trigger] self.spec_opaque(x as int, k),
            decreases y1 - y,
        {
            if self.is_opaque(x, y) {
                assert(self.spec_opaque(x as int, y as int));
                return true;
            }
            y += 1;
        }
        false
    }

    fn row_has(&self, y: u32, x0: u32, x1: u32) -> (r: bool)
        ensures
            r == row_has(*self, y as int, x0 as int, x1 as int),
    {
        let mut x = x0;
        while x < x1
            invariant
                x0 <= x1 ==> x <= x1,
                x1 < x0 ==> x == x0,
                x0 <= x,
                forall|k: int| x0 <= k < x ==> !#[trigger] self.spec_opaque(k, y as int),
            decreases x1 - x,
        {
            if self.is_opaque(x, y) {
                assert(self.spec_opaque(x as int, y as int));
                return true;
            }
            x += 1;
        }
        false
    }
}

/// Some pixel of column `x` in rows `y0..y1` is opaque.
pub open spec fn column_has(m: AlphaMask, x: int, y0: int, y1: int) -> bool {
    exists|y: int| y0 <= y < y1 && #[trigger] m.spec_opaque(x, y)
}

/// Some pixel of row `y` in columns `x0..x1` is opaque.
pub open spec fn row_has(m: AlphaMask, y: int, x0: int, x1: int) -> bool {
    exists|x: int| x0 <= x < x1 && #[trigger] m.spec_opaque(x, y)
}

/// The first column from `x` up to `x1` with an opaque pixel in rows `y0..y1`.
pub open spec fn first_column(m: AlphaMask, x: int, x1: int, y0: int, y1: int) -> Option<int>
    decreases x1 - x,
{
    if x < x1 {
        if column_has(m, x, y0, y1) { Some(x) } else { first_column(m, x + 1, x1, y0, y1) }
    } else {
        None
    }
}

/// The last column below `x` and from `x0` with an opaque pixel in rows `y0..y1`.
pub open spec fn last_column(m: AlphaMask, x0: int, x: int, y0: int, y1: int) -> Option<int>
    decreases x - x0,
{
    if x0 < x {
        if column_has(m, x - 1, y0, y1) { Some(x - 1) } else { last_column(m, x0, x - 1, y0, y1) }
    } else {
        None
    }
}

/// The first row from `y` up to `y1` with an opaque pixel in columns `x0..x1`.
pub open spec fn first_row(m: AlphaMask, y: int, y1: int, x0: int, x1: int) -> Option<int>
    decreases y1 - y,
{
    if y < y1 {
        if row_has(m, y, x0, x1) { Some(y) } else { first_row(m, y + 1, y1, x0, x1) }
    } else {
        None
    }
}

/// The last row below `y` and from `y0` with an opaque pixel in columns `x0..x1`.
pub open spec fn last_row(m: AlphaMask, y0: int, y: int, x0: int, x1: int) -> Option<int>
    decreases y - y0,
{
    if y0 < y {
        if row_has(m, y - 1, x0, x1) { Some(y - 1) } else { last_row(m, y0, y - 1, x0, x1) }
    } else {
        None
    }
}

/// An offset from `origin`, or 0 when nothing was found.
pub open spec fn offset_or_zero(found: Option<int>, origin: int) -> int {
    match found {
        Some(v) => v - origin,
        None => 0,
    }
}

/// The collider box around the opaque pixels of `r`, before any flip: the leftmost and
/// rightmost opaque columns give `min_x` and `max_x`, the topmost opaque row gives `max_y` and
/// the bottommost gives `min_y` (negated, as image rows grow downwards). A side with no
/// opaque pixel stays at 0.
pub open spec fn spec_bounds(m: AlphaMask, r: SearchRect) -> ColliderBounds {
    let (x0, y0, x1, y1) = (r.min_x as int, r.min_y as int, r.max_x as int, r.max_y as int);
    ColliderBounds {
        min_x: offset_or_zero(first_column(m, x0, x1, y0, y1), x0) as i64,
        max_x: offset_or_zero(last_column(m, x0, x1, y0, y1), x0) as i64,
        max_y: offset_or_zero(first_row(m, y0, y1, x0, x1), y0) as i64,
        min_y: (-offset_or_zero(last_row(m, y0, y1, x0, x1), y0)) as i64,
    }
}

/// The collider box, mirrored for a sprite drawn flipped: a horizontal flip swaps `min_x` and
/// `max_x`, a vertical one swaps `min_y` and `max_y`.
pub open spec fn spec_flipped(b: ColliderBounds, flip_x: bool, flip_y: bool) -> ColliderBounds {
    ColliderBounds {
        min_x: if flip_x { b.max_x } else { b.min_x },
        max_x: if flip_x { b.min_x } else { b.max_x },
        min_y: if flip_y { b.max_y } else { b.min_y },
        max_y: if flip_y { b.min_y } else { b.max_y },
    }
}

proof fn lemma_first_column_range(m: AlphaMask, x: int, x1: int, y0: int, y1: int)
    ensures
        first_column(m, x, x1, y0, y1) matches Some(c) ==> x <= c < x1 && column_has(m, c, y0, y1),
    decreases x1 - x,
{
    if x < x1 && !column_has(m, x, y0, y1) {
        lemma_first_column_range(m, x + 1, x1, y0, y1);
    }
}

proof fn lemma_last_column_range(m: AlphaMask, x0: int, x: int, y0: int, y1: int)
    ensures
        last_column(m, x0, x, y0, y1) matches Some(c) ==> x0 <= c < x && column_has(m, c, y0, y1),
    decreases x - x0,
{
    if x0 < x && !column_has(m, x - 1, y0, y1) {
        lemma_last_column_range(m, x0, x - 1, y0, y1);
    }
}

proof fn lemma_first_row_range(m: AlphaMask, y: int, y1: int, x0: int, x1: int)
    ensures
        first_row(m, y, y1, x0, x1) matches Some(c) ==> y <= c < y1 && row_has(m, c, x0, x1),
    decreases y1 - y,
{
    if y < y1 && !row_has(m, y, x0, x1) {
        lemma_first_row_range(m, y + 1, y1, x0, x1);
    }
}

proof fn lemma_last_row_range(m: AlphaMask, y0: int, y: int, x0: int, x1: int)
    ensures
        last_row(m, y0, y, x0, x1) matches Some(c) ==> y0 <= c < y && row_has(m, c, x0, x1),
    decreases y - y0,
{
    if y0 < y && !row_has(m, y - 1, x0, x1) {
        lemma_last_row_range(m, y0, y - 1, x0, x1);
    }
}

fn scan_first_column(mask: &AlphaMask, x0: u32, x1: u32, y0: u32, y1: u32) -> (c: Option<u32>)
    ensures
        c matches Some(v) ==> first_column(*mask, x0 as int, x1 as int, y0 as int, y1 as int) == Some(v as int),
        c is None ==> first_column(*mask, x0 as int, x1 as int, y0 as int, y1 as int) is None,
{
    let mut x = x0;
    while x < x1
        invariant
            x0 <= x,
            x0 <= x1 ==> x <= x1,
            x1 < x0 ==> x == x0,
            first_column(*mask, x0 as int, x1 as int, y0 as int, y1 as int) == first_column(*mask, x as int, x1 as int, y0 as int, y1 as int),
        decreases x1 - x,
    {
        if mask.column_has(x, y0, y1) {
            return Some(x);
        }
        x += 1;
    }
    None
}

fn scan_last_column(mask: &AlphaMask, x0: u32, x1: u32, y0: u32, y1: u32) -> (c: Option<u32>)
    ensures
        c matches Some(v) ==> last_column(*mask, x0 as int, x1 as int, y0 as int, y1 as int) == Some(v as int),
        c is None ==> last_column(*mask, x0 as int, x1 as int, y0 as int, y1 as int) is None,
{
    let mut x = x1;
    while x0 < x
        invariant
            x <= x1,
            last_column(*mask, x0 as int, x1 as int, y0 as int, y1 as int) == last_column(*mask, x0 as int, x as int, y0 as int, y1 as int),
        decreases x,
    {
        if mask.column_has(x - 1, y0, y1) {
            return Some(x - 1);
        }
        x -= 1;
    }
    None
}

fn scan_first_row(mask: &AlphaMask, y0: u32, y1: u32, x0: u32, x1: u32) -> (c: Option<u32>)
    ensures
        c matches Some(v) ==> first_row(*mask, y0 as int, y1 as int, x0 as int, x1 as int) == Some(v as int),
        c is None ==> first_row(*mask, y0 as int, y1 as int, x0 as int, x1 as int) is None,
{
    let mut y = y0;
    while y < y1
        invariant
            y0 <= y,
            y0 <= y1 ==> y <= y1,
            y1 < y0 ==> y == y0,
            first_row(*mask, y0 as int, y1 as int, x0 as int, x1 as int) == first_row(*mask, y as int, y1 as int, x0 as int, x1 as int),
        decreases y1 - y,
    {
        if mask.row_has(y, x0, x1) {
            return Some(y);
        }
        y += 1;
    }
    None
}

fn scan_last_row(mask: &AlphaMask, y0: u32, y1: u32, x0: u32, x1: u32) -> (c: Option<u32>)
    ensures
        c matches Some(v) ==> last_row(*mask, y0 as int, y1 as int, x0 as int, x1 as int) == Some(v as int),
        c is None ==> last_row(*mask, y0 as int, y1 as int, x0 as int, x1 as int) is None,
{
    let mut y = y1;
    while y0 < y
        invariant
            y <= y1,
            last_row(*mask, y0 as int, y1 as int, x0 as int, x1 as int) == last_row(*mask, y0 as int, y as int, x0 as int, x1 as int),
        decreases y,
    {
        if mask.row_has(y - 1, x0, x1) {
            return Some(y - 1);
        }
        y -= 1;
    }
    None
}

/// Finds the box of a collider around the opaque pixels of `mask` within `r`, relative to the
/// corner of `r`, mirrored as the sprite is drawn.
pub fn collider_bounds(mask: &AlphaMask, r: SearchRect, flip_x: bool, flip_y: bool) -> (b: ColliderBounds)
    ensures
        b == spec_flipped(spec_bounds(*mask, r), flip_x, flip_y),
{
    let (x0, y0, x1, y1) = (r.min_x, r.min_y, r.max_x, r.max_y);
    proof {
        lemma_first_column_range(*mask, x0 as int, x1 as int, y0 as int, y1 as int);
        lemma_last_column_range(*mask, x0 as int, x1 as int, y0 as int, y1 as int);
        lemma_first_row_range(*mask, y0 as int, y1 as int, x0 as int, x1 as int);
        lemma_last_row_range(*mask, y0 as int, y1 as int, x0 as int, x1 as int);
    }
    let mut min_x: i64 = match scan_first_column(mask, x0, x1, y0, y1) {
        Some(c) => (c - x0) as i64,
        None => 0,
    };
    let mut max_x: i64 = match scan_last_column(mask, x0, x1, y0, y1) {
        Some(c) => (c - x0) as i64,
        None => 0,
    };
    let mut max_y: i64 = match scan_first_row(mask, y0, y1, x0, x1) {
        Some(c) => (c - y0) as i64,
        None => 0,
    };
    let mut min_y: i64 = match scan_last_row(mask, y0, y1, x0, x1) {
        Some(c) => -((c - y0) as i64),
        None => 0,
    };
    if flip_y {
        let t = min_y;
        min_y = max_y;
        max_y = t;
    }
    if flip_x {
        let t = min_x;
        min_x = max_x;
        max_x = t;
    }
    ColliderBounds { min_x, min_y, max_x, max_y }
}

proof fn lemma_first_column_le(m: AlphaMask, s: int, x1: int, y0: int, y1: int, x: int)
    requires
        s <= x < x1,
        column_has(m, x, y0, y1),
    ensures
        first_column(m, s, x1, y0, y1) matches Some(c) && c <= x,
    decreases x - s,
{
    if !column_has(m, s, y0, y1) {
        lemma_first_column_le(m, s + 1, x1, y0, y1, x);
    }
}

proof fn lemma_last_column_ge(m: AlphaMask, x0: int, e: int, y0: int, y1: int, x: int)
    requires
        x0 <= x < e,
        column_has(m, x, y0, y1),
    ensures
        last_column(m, x0, e, y0, y1) matches Some(c) && c >= x,
    decreases e - x,
{
    if !column_has(m, e - 1, y0, y1) {
        lemma_last_column_ge(m, x0, e - 1, y0, y1, x);
    }
}

proof fn lemma_first_row_le(m: AlphaMask, s: int, y1: int, x0: int, x1: int, y: int)
    requires
        s <= y < y1,
        row_has(m, y, x0, x1),
    ensures
        first_row(m, s, y1, x0, x1) matches Some(c) && c <= y,
    decreases y - s,
{
    if !row_has(m, s, x0, x1) {
        lemma_first_row_le(m, s + 1, y1, x0, x1, y);
    }
}

proof fn lemma_last_row_ge(m: AlphaMask, y0: int, e: int, x0: int, x1: int, y: int)
    requires
        y0 <= y < e,
        row_has(m, y, x0, x1),
    ensures
        last_row(m, y0, e, x0, x1) matches Some(c) && c >= y,
    decreases e - y,
{
    if !row_has(m, e - 1, x0, x1) {
        lemma_last_row_ge(m, y0, e - 1, x0, x1, y);
    }
}

/// The collider box encloses every opaque pixel of the searched part of the image: its column
/// lies between `min_x` and `max_x`, and its row (counted downwards) between `max_y` and
/// `-min_y`.
pub proof fn law_box_encloses_opaque_pixels(m: AlphaMask, r: SearchRect, x: int, y: int)
    requires
        r.min_x <= x < r.max_x,
        r.min_y <= y < r.max_y,
        m.spec_opaque(x, y),
    ensures
        spec_bounds(m, r).min_x <= x - r.min_x <= spec_bounds(m, r).max_x,
        spec_bounds(m, r).max_y <= y - r.min_y <= -spec_bounds(m, r).min_y,
{
    let (x0, y0, x1, y1) = (r.min_x as int, r.min_y as int, r.max_x as int, r.max_y as int);
    assert(column_has(m, x, y0, y1));
    assert(row_has(m, y, x0, x1));
    lemma_first_column_le(m, x0, x1, y0, y1, x);
    lemma_last_column_ge(m, x0, x1, y0, y1, x);
    lemma_first_row_le(m, y0, y1, x0, x1, y);
    lemma_last_row_ge(m, y0, y1, x0, x1, y);
    lemma_first_column_range(m, x0, x1, y0, y1);
    lemma_last_column_range(m, x0, x1, y0, y1);
    lemma_first_row_range(m, y0, y1, x0, x1);
    lemma_last_row_range(m, y0, y1, x0, x1);
}

/// The collider box is tight around the opaque pixels of the searched part of the image and
/// looks at nothing outside it: when that part holds an opaque pixel, each side of the box
/// touches one of its opaque pixels. Its leftmost and rightmost columns and its topmost and
/// bottommost rows each hold an opaque pixel inside the search rectangle.
pub proof fn law_box_is_tight(m: AlphaMask, r: SearchRect, x: int, y: int)
    requires
        r.min_x <= x < r.max_x,
        r.min_y <= y < r.max_y,
        m.spec_opaque(x, y),
    ensures
        exists|v: int| r.min_y <= v < r.max_y && #[trigger] m.spec_opaque(r.min_x + spec_bounds(m, r).min_x, v),
        exists|v: int| r.min_y <= v < r.max_y && #[trigger] m.spec_opaque(r.min_x + spec_bounds(m, r).max_x, v),
        exists|u: int| r.min_x <= u < r.max_x && #[trigger] m.spec_opaque(u, r.min_y + spec_bounds(m, r).max_y),
        exists|u: int| r.min_x <= u < r.max_x && #[trigger] m.spec_opaque(u, r.min_y - spec_bounds(m, r).min_y),
{
    let (x0, y0, x1, y1) = (r.min_x as int, r.min_y as int, r.max_x as int, r.max_y as int);
    assert(column_has(m, x, y0, y1));
    assert(row_has(m, y, x0, x1));
    lemma_first_column_le(m, x0, x1, y0, y1, x);
    lemma_last_column_ge(m, x0, x1, y0, y1, x);
    lemma_first_row_le(m, y0, y1, x0, x1, y);
    lemma_last_row_ge(m, y0, y1, x0, x1, y);
    lemma_first_column_range(m, x0, x1, y0, y1);
    lemma_last_column_range(m, x0, x1, y0, y1);
    lemma_first_row_range(m, y0, y1, x0, x1);
    lemma_last_row_range(m, y0, y1, x0, x1);
    let b = spec_bounds(m, r);
    assert(x0 + b.min_x == first_column(m, x0, x1, y0, y1)->0);
    assert(x0 + b.max_x == last_column(m, x0, x1, y0, y1)->0);
    assert(y0 + b.max_y == first_row(m, y0, y1, x0, x1)->0);
    assert(y0 - b.min_y == last_row(m, y0, y1, x0, x1)->0);
}

impl ColliderBounds {
    /// The width and height of the box, whichever way its corners lie.
    pub fn size(&self) -> (s: (u64, u64))
        requires
            -0x1_0000_0000 < self.min_x < 0x1_0000_0000,
            -0x1_0000_0000 < self.max_x < 0x1_0000_0000,
            -0x1_0000_0000 < self.min_y < 0x1_0000_0000,
            -0x1_0000_0000 < self.max_y < 0x1_0000_0000,
        ensures
            s.0 == if self.max_x >= self.min_x { self.max_x - self.min_x } else { self.min_x - self.max_x },
            s.1 == if self.max_y >= self.min_y { self.max_y - self.min_y } else { self.min_y - self.max_y },
    {
        let w = if self.max_x >= self.min_x { self.max_x - self.min_x } else { self.min_x - self.max_x };
        let h = if self.max_y >= self.min_y { self.max_y - self.min_y } else { self.min_y - self.max_y };
        (w as u64, h as u64)
    }
}

} // verus!
