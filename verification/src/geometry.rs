//! Integer screen geometry: positions, sizes, and axis-aligned
//! rectangle containment used for window hit-testing.

use vstd::prelude::*;

verus! {

/// Greatest magnitude a stored coordinate may take; drags clamp to it.
pub const MAX_COORD: i64 = 0x100_0000_0000;

/// Greatest magnitude the pointer and scroll inputs may take.
pub const MOUSE_BOUND: i64 = 0x8000_0000;

/// A point or translation in screen space, in whole pixels.
#[derive(Clone, Copy, PartialEq, Eq, Structural, Debug)]
pub struct Pos {
    pub x: i64,
    pub y: i64,
}

/// A width and height in whole pixels.
#[derive(Clone, Copy, PartialEq, Eq, Structural, Debug)]
pub struct Dims {
    pub w: u32,
    pub h: u32,
}

/// Mathematical image of a `Pos`.
pub struct PosV {
    pub x: int,
    pub y: int,
}

/// Mathematical image of a `Dims`.
pub struct DimsV {
    pub w: int,
    pub h: int,
}

impl View for Pos {
    type V = PosV;

    open spec fn view(&self) -> PosV {
        PosV { x: self.x as int, y: self.y as int }
    }
}

impl View for Dims {
    type V = DimsV;

    open spec fn view(&self) -> DimsV {
        DimsV { w: self.w as int, h: self.h as int }
    }
}

impl PosV {
    /// The coordinates lie within the range the registry maintains.
    pub open spec fn in_range(self) -> bool {
        -(MAX_COORD as int) <= self.x <= MAX_COORD as int
            && -(MAX_COORD as int) <= self.y <= MAX_COORD as int
    }

    /// The coordinates lie within the range allowed for device input.
    pub open spec fn mouse_in_range(self) -> bool {
        -(MOUSE_BOUND as int) <= self.x <= MOUSE_BOUND as int
            && -(MOUSE_BOUND as int) <= self.y <= MOUSE_BOUND as int
    }
}

/// Clamps a coordinate back into the stored range.
pub open spec fn clamp_coord_spec(v: int) -> int {
    if v < -(MAX_COORD as int) {
        -(MAX_COORD as int)
    } else if v > MAX_COORD as int {
        MAX_COORD as int
    } else {
        v
    }
}

pub fn clamp_coord(v: i64) -> (r: i64)
    ensures
        r as int == clamp_coord_spec(v as int),
{
    if v < -MAX_COORD {
        -MAX_COORD
    } else if v > MAX_COORD {
        MAX_COORD
    } else {
        v
    }
}

/// Closed axis-aligned box test: the point may lie on the border.
pub open spec fn rect_contains(tl: PosV, size: DimsV, p: PosV) -> bool {
    tl.x <= p.x <= tl.x + size.w && tl.y <= p.y <= tl.y + size.h
}

/// Open axis-aligned box test: border points are outside.
pub open spec fn rect_contains_strict(tl: PosV, size: DimsV, p: PosV) -> bool {
    tl.x < p.x < tl.x + size.w && tl.y < p.y < tl.y + size.h
}

pub fn rect_contains_exec(tl: Pos, size: Dims, p: Pos) -> (b: bool)
    requires
        -0x4000_0000_0000 <= tl.x <= 0x4000_0000_0000,
        -0x4000_0000_0000 <= tl.y <= 0x4000_0000_0000,
    ensures
        b == rect_contains(tl@, size@, p@),
{
    tl.x <= p.x && p.x <= tl.x + size.w as i64 && tl.y <= p.y && p.y <= tl.y + size.h as i64
}

pub fn rect_contains_strict_exec(tl: Pos, size: Dims, p: Pos) -> (b: bool)
    requires
        -0x4000_0000_0000 <= tl.x <= 0x4000_0000_0000,
        -0x4000_0000_0000 <= tl.y <= 0x4000_0000_0000,
    ensures
        b == rect_contains_strict(tl@, size@, p@),
{
    tl.x < p.x && p.x < tl.x + size.w as i64 && tl.y < p.y && p.y < tl.y + size.h as i64
}

} // verus!
