//! Pop-up message window: a fixed-size, always-visible box that is
//! recentred on the screen every query and closes through its close
//! button.

use vstd::prelude::*;

use crate::geometry::{Dims, DimsV, Pos, PosV};

verus! {

pub const POPUP_WIDTH: u32 = 700;
pub const POPUP_HEIGHT: u32 = 200;

pub struct PopUp {
    pub position: Pos,
    pub text: String,
    pub close_button_clicked: bool,
}

/// Mathematical image of a `PopUp`.
pub struct PopUpV {
    pub position: PosV,
    pub text: Seq<char>,
    pub close_button_clicked: bool,
}

impl View for PopUp {
    type V = PopUpV;

    open spec fn view(&self) -> PopUpV {
        PopUpV {
            position: self.position@,
            text: self.text@,
            close_button_clicked: self.close_button_clicked,
        }
    }
}

pub open spec fn popup_size_spec() -> DimsV {
    DimsV { w: POPUP_WIDTH as int, h: POPUP_HEIGHT as int }
}

/// The screen-centred top-left corner, recomputed from the current
/// screen dimensions at every query.
pub open spec fn popup_top_left_spec(screen: DimsV) -> PosV {
    PosV {
        x: screen.w / 2 - POPUP_WIDTH as int / 2,
        y: screen.h / 2 - POPUP_HEIGHT as int / 2,
    }
}

pub open spec fn popup_init_spec(text: Seq<char>, screen: DimsV) -> PopUpV {
    PopUpV { position: popup_top_left_spec(screen), text, close_button_clicked: false }
}

impl PopUpV {
    pub open spec fn wf(self) -> bool {
        self.position.in_range()
    }
}

impl PopUp {
    /// Builds a pop-up holding `text`, centred on a screen of the given
    /// dimensions at creation time.
    pub fn new_with_text(text: String, screen: Dims) -> (p: PopUp)
        ensures
            p@ == popup_init_spec(text@, screen@),
            p@.wf(),
    {
        PopUp {
            position: Pos { x: (screen.w / 2) as i64 - 350, y: (screen.h / 2) as i64 - 100 },
            text,
            close_button_clicked: false,
        }
    }

    pub fn position(&self) -> (r: Pos)
        ensures
            r@ == self@.position,
    {
        self.position
    }

    pub fn top_left(&self, screen: Dims) -> (r: Pos)
        ensures
            r@ == popup_top_left_spec(screen@),
    {
        Pos { x: (screen.w / 2) as i64 - 350, y: (screen.h / 2) as i64 - 100 }
    }

    pub fn size(&self) -> (r: Dims)
        ensures
            r@ == popup_size_spec(),
    {
        Dims { w: POPUP_WIDTH, h: POPUP_HEIGHT }
    }

    pub fn text(&self) -> (r: &String)
        ensures
            r@ == self@.text,
    {
        &self.text
    }

    /// Records whether the drawn close button reported a click; the
    /// renderer calls this once per frame after drawing.
    pub fn record_close_clicked(&mut self, clicked: bool)
        ensures
            final(self)@ == (PopUpV { close_button_clicked: clicked, ..old(self)@ }),
    {
        self.close_button_clicked = clicked;
    }
}

} // verus!
