//! A document viewer window: draggable, minimizable, with a vertical
//! scroll offset clamped to the height of the displayed document.

use vstd::prelude::*;

use crate::geometry::{Dims, DimsV, Pos, PosV};

verus! {

/// Height of the fixed viewport a document is shown in.
pub const FIXED_DOC_HEIGHT: u32 = 1000;

/// Pixels scrolled per unit of wheel movement.
pub const SCROLL_SPEED: i64 = 35;

/// Upper bound on the pixel dimensions a document image may report.
pub const MAX_DOC_DIM: u32 = 0x4000_0000;

pub struct DocumentWindow {
    pub position: Pos,
    pub window_size: Dims,
    pub document_name: String,
    pub vertical_offset: i64,
    pub max_vertical_offset: i64,
    pub is_visible: bool,
    pub minimize_position_relative: Pos,
    pub minimize_size: Dims,
}

/// Mathematical image of a `DocumentWindow`.
pub struct DocumentWindowV {
    pub position: PosV,
    pub window_size: DimsV,
    pub document_name: Seq<char>,
    pub vertical_offset: int,
    pub max_vertical_offset: int,
    pub is_visible: bool,
    pub minimize_position_relative: PosV,
    pub minimize_size: DimsV,
}

impl View for DocumentWindow {
    type V = DocumentWindowV;

    open spec fn view(&self) -> DocumentWindowV {
        DocumentWindowV {
            position: self.position@,
            window_size: self.window_size@,
            document_name: self.document_name@,
            vertical_offset: self.vertical_offset as int,
            max_vertical_offset: self.max_vertical_offset as int,
            is_visible: self.is_visible,
            minimize_position_relative: self.minimize_position_relative@,
            minimize_size: self.minimize_size@,
        }
    }
}

impl DocumentWindowV {
    pub open spec fn wf(self) -> bool {
        &&& self.position.in_range()
        &&& self.minimize_position_relative.in_range()
        &&& 0 <= self.vertical_offset <= self.max_vertical_offset
        &&& self.max_vertical_offset <= MAX_DOC_DIM as int
    }
}

/// The state a freshly opened viewer holds, given the document's image
/// dimensions and the current screen dimensions.
pub open spec fn document_init_spec(
    name: Seq<char>,
    doc_w: int,
    doc_h: int,
    screen: DimsV,
) -> DocumentWindowV {
    DocumentWindowV {
        position: PosV { x: 200 + screen.w / 2, y: 550 },
        window_size: DimsV { w: doc_w + 5, h: 935 },
        document_name: name,
        vertical_offset: 0,
        max_vertical_offset: if doc_h >= 860 {
            doc_h - 860
        } else {
            0
        },
        is_visible: true,
        minimize_position_relative: PosV { x: doc_w - 50, y: 35 },
        minimize_size: DimsV { w: 0, h: 0 },
    }
}

impl DocumentWindow {
    /// Opens a viewer for the named document, whose image measures
    /// `doc_w` by `doc_h` pixels.
    pub fn new(document_name: String, doc_w: u32, doc_h: u32, screen: Dims) -> (w: DocumentWindow)
        requires
            doc_w <= MAX_DOC_DIM,
            doc_h <= MAX_DOC_DIM,
        ensures
            w@ == document_init_spec(document_name@, doc_w as int, doc_h as int, screen@),
            w@.wf(),
    {
        DocumentWindow {
            position: Pos { x: 200 + (screen.w / 2) as i64, y: 550 },
            window_size: Dims { w: doc_w + 5, h: 935 },
            document_name,
            vertical_offset: 0,
            max_vertical_offset: if doc_h >= 860 {
                (doc_h - 860) as i64
            } else {
                0
            },
            is_visible: true,
            minimize_position_relative: Pos { x: doc_w as i64 - 50, y: 35 },
            minimize_size: Dims { w: 0, h: 0 },
        }
    }

    /// Opens a viewer for the named document as a registry-ready
    /// window.
    pub fn new_boxed(document_name: String, doc_w: u32, doc_h: u32, screen: Dims) -> (w:
        crate::windows::Window)
        requires
            doc_w <= MAX_DOC_DIM,
            doc_h <= MAX_DOC_DIM,
        ensures
            w@ == crate::windows::WindowV::Document(
                document_init_spec(document_name@, doc_w as int, doc_h as int, screen@),
            ),
            w@.wf(),
    {
        crate::windows::Window::Document(DocumentWindow::new(document_name, doc_w, doc_h, screen))
    }

    pub fn position(&self) -> (r: Pos)
        ensures
            r@ == self@.position,
    {
        self.position
    }

    pub fn window_size(&self) -> (r: Dims)
        ensures
            r@ == self@.window_size,
    {
        self.window_size
    }

    pub fn document_name(&self) -> (r: &String)
        ensures
            r@ == self@.document_name,
    {
        &self.document_name
    }

    pub fn vertical_offset(&self) -> (r: i64)
        ensures
            r as int == self@.vertical_offset,
    {
        self.vertical_offset
    }

    pub fn max_vertical_offset(&self) -> (r: i64)
        ensures
            r as int == self@.max_vertical_offset,
    {
        self.max_vertical_offset
    }

    pub fn is_visible(&self) -> (r: bool)
        ensures
            r == self@.is_visible,
    {
        self.is_visible
    }

    pub fn set_visibility(&mut self, value: bool)
        ensures
            final(self)@ == (DocumentWindowV { is_visible: value, ..old(self)@ }),
    {
        self.is_visible = value;
    }

    /// Records the size the minimize icon was last drawn at; the
    /// renderer calls this once per frame, and the next hit-test uses it.
    pub fn record_minimize_size(&mut self, size: Dims)
        ensures
            final(self)@ == (DocumentWindowV { minimize_size: size@, ..old(self)@ }),
    {
        self.minimize_size = size;
    }
}

} // verus!
