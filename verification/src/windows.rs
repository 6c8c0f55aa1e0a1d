//! The closed window type: every window kind the desktop knows, with
//! its geometry, visibility, dock icon, hit-tests, and per-frame input
//! handling.  Handlers never mutate the registry; structural changes
//! are signalled through the returned action and applied by the caller.

use vstd::prelude::*;

use crate::document::{DocumentWindow, DocumentWindowV, SCROLL_SPEED};
use crate::document_list::{
    DocumentList, DocumentListV, DOCUMENT_LIST_HEIGHT, DOCUMENT_LIST_MINIMIZE_REL_X,
    DOCUMENT_LIST_MINIMIZE_REL_Y, DOCUMENT_LIST_WIDTH,
};
use crate::geometry::{
    clamp_coord, clamp_coord_spec, rect_contains, rect_contains_strict, Dims, DimsV, Pos, PosV,
};
use crate::input::{InputCtx, InputEvent};
use crate::login::{
    login_position_spec, login_top_left_spec, LoginWindow, LoginWindowV, LOGIN_HEIGHT, LOGIN_WIDTH,
};
use crate::minigame::{minigame_step_spec, MiniGame, MiniGameV};
use crate::popup::{
    popup_init_spec, popup_size_spec, popup_top_left_spec, PopUp, PopUpV, POPUP_HEIGHT, POPUP_WIDTH,
};
use crate::text::{
    text_size_spec, TextWindow, TextWindowV, TEXT_HEIGHT, TEXT_MINIMIZE_REL_X, TEXT_MINIMIZE_REL_Y,
    TEXT_WIDTH,
};

verus! {

/// Height of the band at the top of a window in which it can be
/// dragged.
pub const HEADER_HEIGHT: u32 = 70;

/// Top-left corner of the mini-game window.
pub const MINIGAME_TOP_LEFT_X: i64 = 200;

/// Top-left corner of the mini-game window.
pub const MINIGAME_TOP_LEFT_Y: i64 = 180;

/// Pixel width and height of the mini-game window: the grid plus its
/// frame.
pub const MINIGAME_SIZE: u32 = crate::minigame::CELL_SIZE * 20 + 5;

/// A window of any of the fixed kinds the desktop shows.
pub enum Window {
    Login(LoginWindow),
    Document(DocumentWindow),
    DocumentList(DocumentList),
    Text(TextWindow),
    PopUp(PopUp),
    MiniGame(MiniGame),
}

/// Mathematical image of a `Window`.
pub enum WindowV {
    Login(LoginWindowV),
    Document(DocumentWindowV),
    DocumentList(DocumentListV),
    Text(TextWindowV),
    PopUp(PopUpV),
    MiniGame(MiniGameV),
}

impl View for Window {
    type V = WindowV;

    open spec fn view(&self) -> WindowV {
        match self {
            Window::Login(w) => WindowV::Login(w@),
            Window::Document(w) => WindowV::Document(w@),
            Window::DocumentList(w) => WindowV::DocumentList(w@),
            Window::Text(w) => WindowV::Text(w@),
            Window::PopUp(w) => WindowV::PopUp(w@),
            Window::MiniGame(w) => WindowV::MiniGame(w@),
        }
    }
}

/// The dock icon a window shows, if any.
#[derive(Clone, Copy, PartialEq, Eq, Structural, Debug)]
pub enum IconKind {
    Document,
    Popup,
    MiniGame,
}

/// What a window's input handler asks the registry to do.
pub enum WindowReturnAction {
    NoAction,
    Minimize,
    Close,
    NewWindow(Window),
    HackCompleted,
}

/// Mathematical image of a `WindowReturnAction`.
pub enum ActionV {
    NoAction,
    Minimize,
    Close,
    NewWindow(WindowV),
    HackCompleted,
}

impl View for WindowReturnAction {
    type V = ActionV;

    open spec fn view(&self) -> ActionV {
        match self {
            WindowReturnAction::NoAction => ActionV::NoAction,
            WindowReturnAction::Minimize => ActionV::Minimize,
            WindowReturnAction::Close => ActionV::Close,
            WindowReturnAction::NewWindow(w) => ActionV::NewWindow(w@),
            WindowReturnAction::HackCompleted => ActionV::HackCompleted,
        }
    }
}

/// The text of the pop-up spawned by the disabled login button.
pub open spec fn login_denied_text() -> Seq<char> {
    "Error:\nLogin is disabled during emergency\nprotocol!"@
}

impl WindowV {
    pub open spec fn wf(self) -> bool {
        match self {
            WindowV::Login(_) => true,
            WindowV::Document(w) => w.wf(),
            WindowV::DocumentList(w) => w.wf(),
            WindowV::Text(w) => w.wf(),
            WindowV::PopUp(w) => w.wf(),
            WindowV::MiniGame(w) => w.wf(),
        }
    }
}

/// The window's centre position; the login window and pop-ups
/// recompute it from the current screen dimensions.
pub open spec fn window_position_spec(w: WindowV, screen: DimsV) -> PosV {
    match w {
        WindowV::Login(_) => login_position_spec(screen),
        WindowV::Document(d) => d.position,
        WindowV::DocumentList(d) => d.position,
        WindowV::Text(t) => t.position,
        WindowV::PopUp(p) => p.position,
        WindowV::MiniGame(_) => PosV {
            x: MINIGAME_TOP_LEFT_X as int + MINIGAME_SIZE as int / 2,
            y: MINIGAME_TOP_LEFT_Y as int + MINIGAME_SIZE as int / 2,
        },
    }
}

pub open spec fn window_size_spec(w: WindowV) -> DimsV {
    match w {
        WindowV::Login(_) => DimsV { w: 0, h: 0 },
        WindowV::Document(d) => d.window_size,
        WindowV::DocumentList(_) => DimsV {
            w: DOCUMENT_LIST_WIDTH as int,
            h: DOCUMENT_LIST_HEIGHT as int,
        },
        WindowV::Text(_) => text_size_spec(),
        WindowV::PopUp(_) => popup_size_spec(),
        WindowV::MiniGame(_) => DimsV { w: MINIGAME_SIZE as int, h: MINIGAME_SIZE as int },
    }
}

pub open spec fn window_top_left_spec(w: WindowV, screen: DimsV) -> PosV {
    match w {
        WindowV::Login(_) => login_top_left_spec(screen),
        WindowV::Document(d) => PosV {
            x: d.position.x - d.window_size.w / 2,
            y: d.position.y - d.window_size.h / 2,
        },
        WindowV::DocumentList(d) => PosV {
            x: d.position.x - DOCUMENT_LIST_WIDTH as int / 2,
            y: d.position.y - DOCUMENT_LIST_HEIGHT as int / 2,
        },
        WindowV::Text(t) => PosV {
            x: t.position.x - TEXT_WIDTH as int / 2,
            y: t.position.y - TEXT_HEIGHT as int / 2,
        },
        WindowV::PopUp(_) => popup_top_left_spec(screen),
        WindowV::MiniGame(_) => PosV { x: MINIGAME_TOP_LEFT_X as int, y: MINIGAME_TOP_LEFT_Y as int },
    }
}

pub open spec fn window_visible_spec(w: WindowV) -> bool {
    match w {
        WindowV::Login(l) => l.is_visible,
        WindowV::Document(d) => d.is_visible,
        WindowV::DocumentList(d) => d.is_visible,
        WindowV::Text(t) => t.is_visible,
        WindowV::PopUp(_) => true,
        WindowV::MiniGame(_) => true,
    }
}

pub open spec fn window_icon_spec(w: WindowV) -> Option<IconKind> {
    match w {
        WindowV::Login(_) => Option::None,
        WindowV::Document(_) => Option::Some(IconKind::Document),
        WindowV::DocumentList(_) => Option::Some(IconKind::Document),
        WindowV::Text(_) => Option::Some(IconKind::Document),
        WindowV::PopUp(_) => Option::Some(IconKind::Popup),
        WindowV::MiniGame(_) => Option::Some(IconKind::MiniGame),
    }
}

/// Bounding-box hit test; the mini-game never claims the pointer, and
/// the login window claims its fixed frame around the input box.
pub open spec fn window_contains_spec(w: WindowV, screen: DimsV, p: PosV) -> bool {
    match w {
        WindowV::Login(_) => rect_contains(
            login_top_left_spec(screen),
            DimsV { w: LOGIN_WIDTH as int, h: LOGIN_HEIGHT as int },
            p,
        ),
        WindowV::MiniGame(_) => false,
        _ => rect_contains(window_top_left_spec(w, screen), window_size_spec(w), p),
    }
}

/// Whether the pointer lies in the window's drag band: the top
/// `HEADER_HEIGHT` pixels, excluding the border.
pub open spec fn window_in_header_spec(w: WindowV, screen: DimsV, p: PosV) -> bool {
    rect_contains_strict(
        window_top_left_spec(w, screen),
        DimsV { w: window_size_spec(w).w, h: HEADER_HEIGHT as int },
        p,
    )
}

/// Whether the pointer lies strictly inside the minimize hotspot: a
/// box of the last-drawn icon size centred at the hotspot location.
pub open spec fn minimize_hit_spec(tl: PosV, min_rel: PosV, min_size: DimsV, p: PosV) -> bool {
    let cx = tl.x + min_rel.x;
    let cy = tl.y + min_rel.y;
    &&& cx - min_size.w / 2 < p.x < cx + min_size.w / 2
    &&& cy - min_size.h / 2 < p.y < cy + min_size.h / 2
}

pub open spec fn window_set_visibility_spec(w: WindowV, value: bool) -> WindowV {
    match w {
        WindowV::Login(l) => WindowV::Login(LoginWindowV { is_visible: value, ..l }),
        WindowV::Document(d) => WindowV::Document(DocumentWindowV { is_visible: value, ..d }),
        WindowV::DocumentList(d) => WindowV::DocumentList(
            DocumentListV { is_visible: value, ..d },
        ),
        WindowV::Text(t) => WindowV::Text(TextWindowV { is_visible: value, ..t }),
        WindowV::PopUp(_) => w,
        WindowV::MiniGame(_) => w,
    }
}

/// A window centre translated by the pointer's movement since the
/// previous frame, clamped to the stored coordinate range.
pub open spec fn drag_position_spec(pos: PosV, p: PosV, last: PosV) -> PosV {
    PosV {
        x: clamp_coord_spec(pos.x + (p.x - last.x)),
        y: clamp_coord_spec(pos.y + (p.y - last.y)),
    }
}

pub open spec fn clamp_range_spec(v: int, lo: int, hi: int) -> int {
    if v < lo {
        lo
    } else if v > hi {
        hi
    } else {
        v
    }
}

/// Input handling of a draggable window kind, given its stored centre
/// and minimize hotspot: returns the dragged centre and whether the
/// minimize hotspot was clicked.
pub open spec fn drag_step_spec(
    w: WindowV,
    pos: PosV,
    min_rel: PosV,
    min_size: DimsV,
    p: PosV,
    held: bool,
    ctx: InputCtx,
) -> (PosV, bool) {
    let pos1 = if ctx.mouse_down && window_in_header_spec(w, ctx.screen@, p) {
        drag_position_spec(pos, p, ctx.last_mouse@)
    } else {
        pos
    };
    let tl1 = PosV {
        x: pos1.x - window_size_spec(w).w / 2,
        y: pos1.y - window_size_spec(w).h / 2,
    };
    (pos1, minimize_hit_spec(tl1, min_rel, min_size, p) && !held)
}

/// What a window's input handler does: the window's next state and the
/// action it asks of the registry.
pub open spec fn window_handle_input_spec(w: WindowV, ev: InputEvent, ctx: InputCtx) -> (
    WindowV,
    ActionV,
) {
    match w {
        WindowV::Login(l) => match ev {
            InputEvent::LeftMouse(_, _) => if l.login_button_clicked {
                (
                    w,
                    ActionV::NewWindow(
                        WindowV::PopUp(popup_init_spec(login_denied_text(), ctx.screen@)),
                    ),
                )
            } else {
                (w, ActionV::NoAction)
            },
            _ => (w, ActionV::NoAction),
        },
        WindowV::PopUp(pu) => match ev {
            InputEvent::LeftMouse(_, _) => if pu.close_button_clicked {
                (w, ActionV::Close)
            } else {
                (w, ActionV::NoAction)
            },
            _ => (w, ActionV::NoAction),
        },
        WindowV::Document(d) => match ev {
            InputEvent::LeftMouse(p, held) => {
                let r = drag_step_spec(
                    w,
                    d.position,
                    d.minimize_position_relative,
                    d.minimize_size,
                    p@,
                    held,
                    ctx,
                );
                let w1 = WindowV::Document(DocumentWindowV { position: r.0, ..d });
                (w1, if r.1 { ActionV::Minimize } else { ActionV::NoAction })
            },
            InputEvent::Scroll(s) => {
                let off = clamp_range_spec(
                    d.vertical_offset - s * SCROLL_SPEED as int,
                    0,
                    d.max_vertical_offset,
                );
                (
                    WindowV::Document(DocumentWindowV { vertical_offset: off, ..d }),
                    ActionV::NoAction,
                )
            },
            InputEvent::Idle => (w, ActionV::NoAction),
        },
        WindowV::DocumentList(d) => match ev {
            InputEvent::LeftMouse(p, held) => {
                let r = drag_step_spec(
                    w,
                    d.position,
                    PosV { x: DOCUMENT_LIST_MINIMIZE_REL_X as int, y: DOCUMENT_LIST_MINIMIZE_REL_Y as int },
                    d.minimize_size,
                    p@,
                    held,
                    ctx,
                );
                let w1 = WindowV::DocumentList(DocumentListV { position: r.0, ..d });
                (w1, if r.1 { ActionV::Minimize } else { ActionV::NoAction })
            },
            _ => (w, ActionV::NoAction),
        },
        WindowV::Text(t) => match ev {
            InputEvent::LeftMouse(p, held) => {
                let r = drag_step_spec(
                    w,
                    t.position,
                    PosV { x: TEXT_MINIMIZE_REL_X as int, y: TEXT_MINIMIZE_REL_Y as int },
                    t.minimize_size,
                    p@,
                    held,
                    ctx,
                );
                let w1 = WindowV::Text(TextWindowV { position: r.0, ..t });
                (w1, if r.1 { ActionV::Minimize } else { ActionV::NoAction })
            },
            _ => (w, ActionV::NoAction),
        },
        WindowV::MiniGame(g) => {
            let r = minigame_step_spec(g, ctx);
            (
                WindowV::MiniGame(r.0),
                if r.1 {
                    ActionV::HackCompleted
                } else {
                    ActionV::NoAction
                },
            )
        },
    }
}

/// Setting visibility keeps a window well formed.
pub proof fn lemma_set_visibility_wf(w: WindowV, value: bool)
    requires
        w.wf(),
    ensures
        window_set_visibility_spec(w, value).wf(),
{
}

/// Handling input keeps a window well formed.
pub proof fn lemma_handle_input_wf(w: WindowV, ev: InputEvent, ctx: InputCtx)
    requires
        w.wf(),
    ensures
        window_handle_input_spec(w, ev, ctx).0.wf(),
{
    match w {
        WindowV::MiniGame(g) => {
            crate::minigame::lemma_minigame_step_wf(g, ctx);
        },
        _ => {},
    }
}

/// Any window a handler asks to spawn is itself well formed.
pub proof fn lemma_handle_input_spawn_wf(w: WindowV, ev: InputEvent, ctx: InputCtx)
    requires
        w.wf(),
    ensures
        match window_handle_input_spec(w, ev, ctx).1 {
            ActionV::NewWindow(nw) => nw.wf(),
            _ => true,
        },
{
}

fn minimize_hit(tl: Pos, min_rel: Pos, min_size: Dims, p: Pos) -> (b: bool)
    requires
        -0x4000_0000_0000 <= tl.x <= 0x4000_0000_0000,
        -0x4000_0000_0000 <= tl.y <= 0x4000_0000_0000,
        min_rel@.in_range(),
    ensures
        b == minimize_hit_spec(tl@, min_rel@, min_size@, p@),
{
    let cx = tl.x + min_rel.x;
    let cy = tl.y + min_rel.y;
    let half_w = (min_size.w / 2) as i64;
    let half_h = (min_size.h / 2) as i64;
    cx - half_w < p.x && p.x < cx + half_w && cy - half_h < p.y && p.y < cy + half_h
}

fn clamp_i64(v: i64, lo: i64, hi: i64) -> (r: i64)
    requires
        lo <= hi,
    ensures
        r as int == clamp_range_spec(v as int, lo as int, hi as int),
{
    if v < lo {
        lo
    } else if v > hi {
        hi
    } else {
        v
    }
}

impl Window {
    pub open spec fn wf(&self) -> bool {
        self@.wf()
    }

    /// Wraps a fresh pop-up holding `text`.
    pub fn new_popup(text: String, screen: Dims) -> (w: Window)
        ensures
            w@ == WindowV::PopUp(popup_init_spec(text@, screen@)),
            w@.wf(),
    {
        Window::PopUp(PopUp::new_with_text(text, screen))
    }

    /// Wraps a fresh mini-game started at the given time.
    pub fn new_minigame(now_ms: u64) -> (w: Window)
        ensures
            w@ == WindowV::MiniGame(crate::minigame::minigame_init_spec(now_ms)),
            w@.wf(),
    {
        Window::MiniGame(MiniGame::new(now_ms))
    }

    /// Wraps a fresh document browser.
    pub fn new_document_list(screen: Dims) -> (w: Window)
        ensures
            w@ == WindowV::DocumentList(crate::document_list::document_list_init_spec(screen@)),
            w@.wf(),
    {
        Window::DocumentList(DocumentList::new(screen))
    }

    /// Wraps a fresh document preview window.
    pub fn new_text(screen: Dims) -> (w: Window)
        ensures
            w@ == WindowV::Text(crate::text::text_init_spec(screen@)),
            w@.wf(),
    {
        Window::Text(TextWindow::new(screen))
    }

    pub fn position(&self, screen: Dims) -> (r: Pos)
        requires
            self.wf(),
        ensures
            r@ == window_position_spec(self@, screen@),
    {
        match self {
            Window::Login(w) => w.position(screen),
            Window::Document(w) => w.position(),
            Window::DocumentList(w) => w.position(),
            Window::Text(w) => w.position(),
            Window::PopUp(w) => w.position(),
            Window::MiniGame(_) => Pos {
                x: MINIGAME_TOP_LEFT_X + (MINIGAME_SIZE / 2) as i64,
                y: MINIGAME_TOP_LEFT_Y + (MINIGAME_SIZE / 2) as i64,
            },
        }
    }

    pub fn top_left(&self, screen: Dims) -> (r: Pos)
        requires
            self.wf(),
        ensures
            r@ == window_top_left_spec(self@, screen@),
    {
        match self {
            Window::Login(w) => w.top_left(screen),
            Window::Document(w) => Pos {
                x: w.position.x - (w.window_size.w / 2) as i64,
                y: w.position.y - (w.window_size.h / 2) as i64,
            },
            Window::DocumentList(w) => Pos {
                x: w.position.x - (DOCUMENT_LIST_WIDTH / 2) as i64,
                y: w.position.y - (DOCUMENT_LIST_HEIGHT / 2) as i64,
            },
            Window::Text(w) => Pos {
                x: w.position.x - (TEXT_WIDTH / 2) as i64,
                y: w.position.y - (TEXT_HEIGHT / 2) as i64,
            },
            Window::PopUp(w) => w.top_left(screen),
            Window::MiniGame(_) => Pos { x: MINIGAME_TOP_LEFT_X, y: MINIGAME_TOP_LEFT_Y },
        }
    }

    pub fn size(&self) -> (r: Dims)
        ensures
            r@ == window_size_spec(self@),
    {
        match self {
            Window::Login(_) => Dims { w: 0, h: 0 },
            Window::Document(w) => w.window_size,
            Window::DocumentList(_) => Dims { w: DOCUMENT_LIST_WIDTH, h: DOCUMENT_LIST_HEIGHT },
            Window::Text(_) => Dims { w: TEXT_WIDTH, h: TEXT_HEIGHT },
            Window::PopUp(_) => Dims { w: POPUP_WIDTH, h: POPUP_HEIGHT },
            Window::MiniGame(_) => Dims { w: MINIGAME_SIZE, h: MINIGAME_SIZE },
        }
    }

    pub fn is_visible(&self) -> (r: bool)
        ensures
            r == window_visible_spec(self@),
    {
        match self {
            Window::Login(w) => w.is_visible(),
            Window::Document(w) => w.is_visible(),
            Window::DocumentList(w) => w.is_visible(),
            Window::Text(w) => w.is_visible(),
            Window::PopUp(_) => true,
            Window::MiniGame(_) => true,
        }
    }

    pub fn set_visibility(&mut self, value: bool)
        ensures
            final(self)@ == window_set_visibility_spec(old(self)@, value),
            old(self).wf() ==> final(self).wf(),
    {
        match self {
            Window::Login(w) => w.set_visibility(value),
            Window::Document(w) => w.set_visibility(value),
            Window::DocumentList(w) => w.set_visibility(value),
            Window::Text(w) => w.set_visibility(value),
            Window::PopUp(_) => (),
            Window::MiniGame(_) => (),
        }
    }

    pub fn icon(&self) -> (r: Option<IconKind>)
        ensures
            r == window_icon_spec(self@),
    {
        match self {
            Window::Login(_) => Option::None,
            Window::Document(_) => Option::Some(IconKind::Document),
            Window::DocumentList(_) => Option::Some(IconKind::Document),
            Window::Text(_) => Option::Some(IconKind::Document),
            Window::PopUp(_) => Option::Some(IconKind::Popup),
            Window::MiniGame(_) => Option::Some(IconKind::MiniGame),
        }
    }

    pub fn contains_pos(&self, p: Pos, screen: Dims) -> (b: bool)
        requires
            self.wf(),
        ensures
            b == window_contains_spec(self@, screen@, p@),
    {
        match self {
            Window::MiniGame(_) => false,
            Window::Login(_) => {
                let tl = self.top_left(screen);
                crate::geometry::rect_contains_exec(
                    tl,
                    Dims { w: LOGIN_WIDTH, h: LOGIN_HEIGHT },
                    p,
                )
            },
            _ => {
                let tl = self.top_left(screen);
                crate::geometry::rect_contains_exec(tl, self.size(), p)
            },
        }
    }

    pub fn is_pos_in_header(&self, p: Pos, screen: Dims) -> (b: bool)
        requires
            self.wf(),
        ensures
            b == window_in_header_spec(self@, screen@, p@),
    {
        let tl = self.top_left(screen);
        let size = self.size();
        crate::geometry::rect_contains_strict_exec(
            tl,
            Dims { w: size.w, h: HEADER_HEIGHT },
            p,
        )
    }

    /// Handles this frame's event.  Drags and visibility changes are
    /// applied to the window itself; everything else is reported back
    /// through the returned action.
    pub fn handle_input(&mut self, ev: InputEvent, ctx: &InputCtx) -> (a: WindowReturnAction)
        requires
            old(self).wf(),
            ev.wf(),
            ctx.wf(),
        ensures
            final(self)@ == window_handle_input_spec(old(self)@, ev, *ctx).0,
            a@ == window_handle_input_spec(old(self)@, ev, *ctx).1,
            final(self).wf(),
    {
        match self {
            Window::Login(l) => match ev {
                InputEvent::LeftMouse(_, _) => {
                    if l.login_button_clicked {
                        let text = "Error:\nLogin is disabled during emergency\nprotocol!"
                            .to_owned();
                        WindowReturnAction::NewWindow(Window::new_popup(text, ctx.screen))
                    } else {
                        WindowReturnAction::NoAction
                    }
                },
                _ => WindowReturnAction::NoAction,
            },
            Window::PopUp(pu) => match ev {
                InputEvent::LeftMouse(_, _) => {
                    if pu.close_button_clicked {
                        WindowReturnAction::Close
                    } else {
                        WindowReturnAction::NoAction
                    }
                },
                _ => WindowReturnAction::NoAction,
            },
            Window::Document(d) => match ev {
                InputEvent::LeftMouse(p, held) => {
                    let tl = Pos {
                        x: d.position.x - (d.window_size.w / 2) as i64,
                        y: d.position.y - (d.window_size.h / 2) as i64,
                    };
                    let in_header = crate::geometry::rect_contains_strict_exec(
                        tl,
                        Dims { w: d.window_size.w, h: HEADER_HEIGHT },
                        p,
                    );
                    if ctx.mouse_down && in_header {
                        d.position = Pos {
                            x: clamp_coord(d.position.x + (p.x - ctx.last_mouse.x)),
                            y: clamp_coord(d.position.y + (p.y - ctx.last_mouse.y)),
                        };
                    }
                    let tl1 = Pos {
                        x: d.position.x - (d.window_size.w / 2) as i64,
                        y: d.position.y - (d.window_size.h / 2) as i64,
                    };
                    if minimize_hit(tl1, d.minimize_position_relative, d.minimize_size, p)
                        && !held
                    {
                        WindowReturnAction::Minimize
                    } else {
                        WindowReturnAction::NoAction
                    }
                },
                InputEvent::Scroll(s) => {
                    d.vertical_offset = clamp_i64(
                        d.vertical_offset - s * SCROLL_SPEED,
                        0,
                        d.max_vertical_offset,
                    );
                    WindowReturnAction::NoAction
                },
                InputEvent::Idle => WindowReturnAction::NoAction,
            },
            Window::DocumentList(d) => match ev {
                InputEvent::LeftMouse(p, held) => {
                    let tl = Pos {
                        x: d.position.x - (DOCUMENT_LIST_WIDTH / 2) as i64,
                        y: d.position.y - (DOCUMENT_LIST_HEIGHT / 2) as i64,
                    };
                    let in_header = crate::geometry::rect_contains_strict_exec(
                        tl,
                        Dims { w: DOCUMENT_LIST_WIDTH, h: HEADER_HEIGHT },
                        p,
                    );
                    if ctx.mouse_down && in_header {
                        d.position = Pos {
                            x: clamp_coord(d.position.x + (p.x - ctx.last_mouse.x)),
                            y: clamp_coord(d.position.y + (p.y - ctx.last_mouse.y)),
                        };
                    }
                    let tl1 = Pos {
                        x: d.position.x - (DOCUMENT_LIST_WIDTH / 2) as i64,
                        y: d.position.y - (DOCUMENT_LIST_HEIGHT / 2) as i64,
                    };
                    let min_rel = Pos {
                        x: DOCUMENT_LIST_MINIMIZE_REL_X,
                        y: DOCUMENT_LIST_MINIMIZE_REL_Y,
                    };
                    if minimize_hit(tl1, min_rel, d.minimize_size, p) && !held {
                        WindowReturnAction::Minimize
                    } else {
                        WindowReturnAction::NoAction
                    }
                },
                _ => WindowReturnAction::NoAction,
            },
            Window::Text(t) => match ev {
                InputEvent::LeftMouse(p, held) => {
                    let tl = Pos {
                        x: t.position.x - (TEXT_WIDTH / 2) as i64,
                        y: t.position.y - (TEXT_HEIGHT / 2) as i64,
                    };
                    let in_header = crate::geometry::rect_contains_strict_exec(
                        tl,
                        Dims { w: TEXT_WIDTH, h: HEADER_HEIGHT },
                        p,
                    );
                    if ctx.mouse_down && in_header {
                        t.position = Pos {
                            x: clamp_coord(t.position.x + (p.x - ctx.last_mouse.x)),
                            y: clamp_coord(t.position.y + (p.y - ctx.last_mouse.y)),
                        };
                    }
                    let tl1 = Pos {
                        x: t.position.x - (TEXT_WIDTH / 2) as i64,
                        y: t.position.y - (TEXT_HEIGHT / 2) as i64,
                    };
                    let min_rel = Pos { x: TEXT_MINIMIZE_REL_X, y: TEXT_MINIMIZE_REL_Y };
                    if minimize_hit(tl1, min_rel, t.minimize_size, p) && !held {
                        WindowReturnAction::Minimize
                    } else {
                        WindowReturnAction::NoAction
                    }
                },
                _ => WindowReturnAction::NoAction,
            },
            Window::MiniGame(g) => {
                if g.step(ctx) {
                    WindowReturnAction::HackCompleted
                } else {
                    WindowReturnAction::NoAction
                }
            },
        }
    }
}

} // verus!
