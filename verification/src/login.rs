//! The login window shown while the desktop is locked.  It is always
//! screen-centred; its login button only ever spawns an "access denied"
//! pop-up.

use vstd::prelude::*;

use crate::geometry::{Dims, DimsV, Pos, PosV};

verus! {

pub const LOGIN_WIDTH: u32 = 500;
pub const LOGIN_HEIGHT: u32 = 300;
pub const LOGIN_INPUT_WIDTH: u32 = 300;
pub const LOGIN_INPUT_HEIGHT: u32 = 60;

pub struct LoginWindow {
    pub is_visible: bool,
    pub login_button_clicked: bool,
}

/// Mathematical image of a `LoginWindow`.
pub struct LoginWindowV {
    pub is_visible: bool,
    pub login_button_clicked: bool,
}

impl View for LoginWindow {
    type V = LoginWindowV;

    open spec fn view(&self) -> LoginWindowV {
        LoginWindowV {
            is_visible: self.is_visible,
            login_button_clicked: self.login_button_clicked,
        }
    }
}

/// Always the centre of the current screen.
pub open spec fn login_position_spec(screen: DimsV) -> PosV {
    PosV { x: screen.w / 2, y: screen.h / 2 }
}

/// The top-left corner is centred around the input box, not the whole
/// window frame.
pub open spec fn login_top_left_spec(screen: DimsV) -> PosV {
    PosV {
        x: screen.w / 2 - LOGIN_INPUT_WIDTH as int / 2,
        y: screen.h / 2 - LOGIN_INPUT_HEIGHT as int / 2,
    }
}

impl LoginWindow {
    pub fn new() -> (w: LoginWindow)
        ensures
            w@ == (LoginWindowV { is_visible: true, login_button_clicked: false }),
    {
        LoginWindow { is_visible: true, login_button_clicked: false }
    }

    pub fn position(&self, screen: Dims) -> (r: Pos)
        ensures
            r@ == login_position_spec(screen@),
    {
        Pos { x: (screen.w / 2) as i64, y: (screen.h / 2) as i64 }
    }

    pub fn top_left(&self, screen: Dims) -> (r: Pos)
        ensures
            r@ == login_top_left_spec(screen@),
    {
        Pos { x: (screen.w / 2) as i64 - 150, y: (screen.h / 2) as i64 - 30 }
    }

    pub fn is_visible(&self) -> (r: bool)
        ensures
            r == self@.is_visible,
    {
        self.is_visible
    }

    pub fn set_visibility(&mut self, value: bool)
        ensures
            final(self)@ == (LoginWindowV { is_visible: value, ..old(self)@ }),
    {
        self.is_visible = value;
    }

    /// Records whether the drawn login button reported a click; the
    /// renderer calls this once per frame after drawing.
    pub fn record_login_clicked(&mut self, clicked: bool)
        ensures
            final(self)@ == (LoginWindowV { login_button_clicked: clicked, ..old(self)@ }),
    {
        self.login_button_clicked = clicked;
    }
}

} // verus!
