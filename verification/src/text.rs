//! A fixed-content document preview window: draggable, minimizable,
//! with a fixed size.

use vstd::prelude::*;

use crate::geometry::{Dims, DimsV, Pos, PosV};

verus! {

pub const TEXT_WIDTH: u32 = 500;
pub const TEXT_HEIGHT: u32 = 700;
pub const TEXT_MINIMIZE_REL_X: i64 = 460;
pub const TEXT_MINIMIZE_REL_Y: i64 = 35;

pub struct TextWindow {
    pub position: Pos,
    pub is_visible: bool,
    pub minimize_size: Dims,
}

/// Mathematical image of a `TextWindow`.
pub struct TextWindowV {
    pub position: PosV,
    pub is_visible: bool,
    pub minimize_size: DimsV,
}

impl View for TextWindow {
    type V = TextWindowV;

    open spec fn view(&self) -> TextWindowV {
        TextWindowV {
            position: self.position@,
            is_visible: self.is_visible,
            minimize_size: self.minimize_size@,
        }
    }
}

impl TextWindowV {
    pub open spec fn wf(self) -> bool {
        self.position.in_range()
    }
}

pub open spec fn text_size_spec() -> DimsV {
    DimsV { w: TEXT_WIDTH as int, h: TEXT_HEIGHT as int }
}

pub open spec fn text_init_spec(screen: DimsV) -> TextWindowV {
    TextWindowV {
        position: PosV { x: screen.w / 2, y: screen.h * 7 / 10 },
        is_visible: true,
        minimize_size: DimsV { w: 0, h: 0 },
    }
}

impl TextWindow {
    pub fn new(screen: Dims) -> (w: TextWindow)
        ensures
            w@ == text_init_spec(screen@),
            w@.wf(),
    {
        TextWindow {
            position: Pos {
                x: (screen.w / 2) as i64,
                y: (screen.h as u64 * 7 / 10) as i64,
            },
            is_visible: true,
            minimize_size: Dims { w: 0, h: 0 },
        }
    }

    pub fn position(&self) -> (r: Pos)
        ensures
            r@ == self@.position,
    {
        self.position
    }

    pub fn is_visible(&self) -> (r: bool)
        ensures
            r == self@.is_visible,
    {
        self.is_visible
    }

    pub fn set_visibility(&mut self, value: bool)
        ensures
            final(self)@ == (TextWindowV { is_visible: value, ..old(self)@ }),
    {
        self.is_visible = value;
    }

    /// Records the size the minimize icon was last drawn at; the
    /// renderer calls this once per frame, and the next hit-test uses it.
    pub fn record_minimize_size(&mut self, size: Dims)
        ensures
            final(self)@ == (TextWindowV { minimize_size: size@, ..old(self)@ }),
    {
        self.minimize_size = size;
    }
}

} // verus!
