//! The document browser window spawned once the desktop is unlocked:
//! draggable, minimizable, with a fixed size.

use vstd::prelude::*;

use crate::geometry::{Dims, DimsV, Pos, PosV};

verus! {

pub const DOCUMENT_LIST_WIDTH: u32 = 1000;
pub const DOCUMENT_LIST_HEIGHT: u32 = 500;
pub const DOCUMENT_LIST_MINIMIZE_REL_X: i64 = 950;
pub const DOCUMENT_LIST_MINIMIZE_REL_Y: i64 = 35;

pub struct DocumentList {
    pub position: Pos,
    pub is_visible: bool,
    pub minimize_size: Dims,
}

/// Mathematical image of a `DocumentList`.
pub struct DocumentListV {
    pub position: PosV,
    pub is_visible: bool,
    pub minimize_size: DimsV,
}

impl View for DocumentList {
    type V = DocumentListV;

    open spec fn view(&self) -> DocumentListV {
        DocumentListV {
            position: self.position@,
            is_visible: self.is_visible,
            minimize_size: self.minimize_size@,
        }
    }
}

impl DocumentListV {
    pub open spec fn wf(self) -> bool {
        self.position.in_range()
    }
}

pub open spec fn document_list_size_spec() -> DimsV {
    DimsV { w: DOCUMENT_LIST_WIDTH as int, h: DOCUMENT_LIST_HEIGHT as int }
}

pub open spec fn document_list_init_spec(screen: DimsV) -> DocumentListV {
    DocumentListV {
        position: PosV { x: screen.w / 2, y: screen.h * 2 / 5 },
        is_visible: true,
        minimize_size: DimsV { w: 0, h: 0 },
    }
}

impl DocumentList {
    pub fn new(screen: Dims) -> (w: DocumentList)
        ensures
            w@ == document_list_init_spec(screen@),
            w@.wf(),
    {
        DocumentList {
            position: Pos {
                x: (screen.w / 2) as i64,
                y: (screen.h as u64 * 2 / 5) as i64,
            },
            is_visible: true,
            minimize_size: Dims { w: 0, h: 0 },
        }
    }

    pub fn position(&self) -> (r: Pos)
        ensures
            r@ == self@.position,
    {
        self.position
    }

    pub fn is_visible(&self) -> (r: bool)
        ensures
            r == self@.is_visible,
    {
        self.is_visible
    }

    pub fn set_visibility(&mut self, value: bool)
        ensures
            final(self)@ == (DocumentListV { is_visible: value, ..old(self)@ }),
    {
        self.is_visible = value;
    }

    /// Records the size the minimize icon was last drawn at; the
    /// renderer calls this once per frame, and the next hit-test uses it.
    pub fn record_minimize_size(&mut self, size: Dims)
        ensures
            final(self)@ == (DocumentListV { minimize_size: size@, ..old(self)@ }),
    {
        self.minimize_size = size;
    }
}

} // verus!
