//! The desktop core: an ordered registry of windows (list order is
//! back-to-front draw order), per-frame input routing with capture
//! semantics, deferred lifecycle mutation, the dock derivation, and the
//! puzzle state machine that unlocks the desktop.

use vstd::prelude::*;

use crate::document_list::document_list_init_spec;
use crate::geometry::{Dims, DimsV, Pos, PosV};
use crate::input::{event_spec, compute_event, FrameInput, InputCtx, InputEvent};
use crate::login::{LoginWindow, LoginWindowV, LOGIN_HEIGHT, LOGIN_WIDTH};
use crate::minigame::minigame_init_spec;
use crate::popup::popup_init_spec;
use crate::windows::{
    window_contains_spec, window_handle_input_spec, window_icon_spec, window_set_visibility_spec,
    window_visible_spec, ActionV, Window, WindowReturnAction, WindowV,
};

verus! {

/// Milliseconds between two reads of the removable-media file.
pub const USB_POLL_INTERVAL_MS: u64 = 1000;

/// Milliseconds between removable-media detection and the mini-game.
pub const HACK_REVEAL_DELAY_MS: u64 = 2000;

/// Pixel size of one dock icon.
pub const DOCK_ICON_SIZE: u32 = 64;

/// Pixels between dock icons.
pub const DOCK_SPACING: u32 = 16;

/// Pixel size of one dock slot: an icon plus its spacing.
pub const DOCK_SLOT: u32 = DOCK_ICON_SIZE + DOCK_SPACING;

/// The puzzle state: no removable media seen yet, media seen at a
/// given time, the mini-game running, or the hack completed.
#[derive(Clone, Copy, PartialEq, Eq, Structural, Debug)]
pub enum HackStatus {
    NoUSB,
    USBOpened(u64),
    Minigame,
    Completed,
}

/// The view of each window in a sequence of windows.
pub open spec fn views_of(s: Seq<Window>) -> Seq<WindowV> {
    Seq::new(s.len(), |i: int| s[i]@)
}

/// The desktop: the separately held login window, the z-ordered window
/// registry, the unlock flag, and the puzzle state machine's state.
pub struct EscOS {
    pub login_window: LoginWindow,
    pub windows: Vec<Window>,
    pub is_unlocked: bool,
    pub hack_file_content: String,
    pub last_usb_check: u64,
    pub hack_status: HackStatus,
    pub last_mouse: Pos,
}

/// Mathematical image of an `EscOS`.
#[verifier::ext_equal]
pub struct EscOSV {
    pub login_window: LoginWindowV,
    pub windows: Seq<WindowV>,
    pub is_unlocked: bool,
    pub hack_file_content: Seq<char>,
    pub last_usb_check: u64,
    pub hack_status: HackStatus,
    pub last_mouse: Pos,
}

impl View for EscOS {
    type V = EscOSV;

    open spec fn view(&self) -> EscOSV {
        EscOSV {
            login_window: self.login_window@,
            windows: views_of(self.windows@),
            is_unlocked: self.is_unlocked,
            hack_file_content: self.hack_file_content@,
            last_usb_check: self.last_usb_check,
            hack_status: self.hack_status,
            last_mouse: self.last_mouse,
        }
    }
}

impl EscOSV {
    pub open spec fn wf(self) -> bool {
        &&& forall|i: int| 0 <= i < self.windows.len() ==> (#[trigger] self.windows[i]).wf()
        &&& self.last_mouse@.mouse_in_range()
    }
}

pub open spec fn escos_init_spec(secret: Seq<char>, now_ms: u64) -> EscOSV {
    EscOSV {
        login_window: LoginWindowV { is_visible: true, login_button_clicked: false },
        windows: Seq::empty(),
        is_unlocked: false,
        hack_file_content: secret,
        last_usb_check: now_ms,
        hack_status: HackStatus::NoUSB,
        last_mouse: Pos { x: 0, y: 0 },
    }
}

pub open spec fn hack_in_progress_text() -> Seq<char> {
    "Hack in progress!"@
}

pub open spec fn hack_completed_text() -> Seq<char> {
    "Hack completed!"@
}

/// Whether the throttled removable-media poll is due.
pub open spec fn usb_poll_due_spec(d: EscOSV, now_ms: u64) -> bool {
    now_ms as int - d.last_usb_check as int >= USB_POLL_INTERVAL_MS as int
}

/// Whether this frame's file read is due and matches the secret.
pub open spec fn usb_match_spec(d: EscOSV, input: FrameInput) -> bool {
    usb_poll_due_spec(d, input.now_ms) && match input.usb_content {
        Option::Some(content) => content@ == d.hack_file_content,
        Option::None => false,
    }
}

/// The throttled file poll: stamps the poll time when due, and on a
/// match in the `NoUSB` state records the detection and spawns the
/// "hack in progress" pop-up.
pub open spec fn usb_file_step_spec(d: EscOSV, input: FrameInput) -> EscOSV {
    let d1 = if usb_poll_due_spec(d, input.now_ms) {
        EscOSV { last_usb_check: input.now_ms, ..d }
    } else {
        d
    };
    if usb_match_spec(d, input) && d.hack_status == HackStatus::NoUSB {
        EscOSV {
            hack_status: HackStatus::USBOpened(input.now_ms),
            windows: d1.windows.push(
                WindowV::PopUp(popup_init_spec(hack_in_progress_text(), input.screen@)),
            ),
            ..d1
        }
    } else {
        d1
    }
}

/// Once the reveal delay after detection has passed, spawns the
/// mini-game window.
pub open spec fn usb_timer_step_spec(d: EscOSV, input: FrameInput) -> EscOSV {
    match d.hack_status {
        HackStatus::USBOpened(t) => if input.now_ms as int > t as int + HACK_REVEAL_DELAY_MS as int {
            EscOSV {
                hack_status: HackStatus::Minigame,
                windows: d.windows.push(WindowV::MiniGame(minigame_init_spec(input.now_ms))),
                ..d
            }
        } else {
            d
        },
        _ => d,
    }
}

/// Index of the topmost visible window containing the pointer among
/// the first `i` windows, if any.
pub open spec fn capture_from(ws: Seq<WindowV>, screen: DimsV, mouse: PosV, i: int) -> Option<int>
    decreases i,
{
    if i <= 0 {
        Option::None
    } else if window_visible_spec(ws[i - 1]) && window_contains_spec(ws[i - 1], screen, mouse) {
        Option::Some(i - 1)
    } else {
        capture_from(ws, screen, mouse, i - 1)
    }
}

/// Index of the window that captures this frame's event: the topmost
/// visible window whose bounds contain the pointer.
pub open spec fn capture_index_spec(ws: Seq<WindowV>, screen: DimsV, mouse: PosV) -> Option<int> {
    capture_from(ws, screen, mouse, ws.len() as int)
}

/// The event window `i` receives: the frame's event if `i` captures
/// it, otherwise nothing.  At most one window receives the real event.
pub open spec fn delivered_event_spec(
    ws: Seq<WindowV>,
    ev: InputEvent,
    mouse: PosV,
    ctx: InputCtx,
    i: int,
) -> InputEvent {
    if capture_index_spec(ws, ctx.screen@, mouse) == Option::Some(i) {
        ev
    } else {
        InputEvent::Idle
    }
}

/// A window after its turn in the input pass: invisible windows are
/// skipped entirely, and a `Minimize` answer is applied on the spot.
pub open spec fn processed_window_spec(w: WindowV, ev: InputEvent, ctx: InputCtx) -> (
    WindowV,
    ActionV,
) {
    if !window_visible_spec(w) {
        (w, ActionV::NoAction)
    } else {
        let r = window_handle_input_spec(w, ev, ctx);
        if r.1 == ActionV::Minimize {
            (window_set_visibility_spec(r.0, false), r.1)
        } else {
            r
        }
    }
}

pub open spec fn pass_window_at(
    ws: Seq<WindowV>,
    ev: InputEvent,
    mouse: PosV,
    ctx: InputCtx,
    i: int,
) -> WindowV {
    processed_window_spec(ws[i], delivered_event_spec(ws, ev, mouse, ctx, i), ctx).0
}

pub open spec fn pass_action_at(
    ws: Seq<WindowV>,
    ev: InputEvent,
    mouse: PosV,
    ctx: InputCtx,
    i: int,
) -> ActionV {
    processed_window_spec(ws[i], delivered_event_spec(ws, ev, mouse, ctx, i), ctx).1
}

/// Whether window `i`'s answer removes it from the registry.
pub open spec fn pass_closed_at(
    ws: Seq<WindowV>,
    ev: InputEvent,
    mouse: PosV,
    ctx: InputCtx,
    i: int,
) -> bool {
    pass_action_at(ws, ev, mouse, ctx, i) == ActionV::Close || pass_action_at(
        ws,
        ev,
        mouse,
        ctx,
        i,
    ) == ActionV::HackCompleted
}

/// The windows window `i`'s answer appends: a spawned window, or on
/// hack completion the "hack completed" pop-up and the document
/// browser.
pub open spec fn pass_spawns_at(
    ws: Seq<WindowV>,
    ev: InputEvent,
    mouse: PosV,
    ctx: InputCtx,
    i: int,
) -> Seq<WindowV> {
    match pass_action_at(ws, ev, mouse, ctx, i) {
        ActionV::NewWindow(nw) => seq![nw],
        ActionV::HackCompleted => seq![
            WindowV::PopUp(popup_init_spec(hack_completed_text(), ctx.screen@)),
            WindowV::DocumentList(document_list_init_spec(ctx.screen@)),
        ],
        _ => Seq::empty(),
    }
}

/// All windows appended while the pass walks indices `hi - 1` down to
/// `lo`, in the order they were appended.
pub open spec fn spawned_top(
    ws: Seq<WindowV>,
    ev: InputEvent,
    mouse: PosV,
    ctx: InputCtx,
    hi: int,
    lo: int,
) -> Seq<WindowV>
    decreases hi - lo,
{
    if hi <= lo {
        Seq::empty()
    } else {
        pass_spawns_at(ws, ev, mouse, ctx, hi - 1) + spawned_top(ws, ev, mouse, ctx, hi - 1, lo)
    }
}

/// Whether any window with index in `[lo, hi)` reported hack
/// completion.
pub open spec fn hack_done_top(
    ws: Seq<WindowV>,
    ev: InputEvent,
    mouse: PosV,
    ctx: InputCtx,
    hi: int,
    lo: int,
) -> bool
    decreases hi - lo,
{
    if hi <= lo {
        false
    } else {
        pass_action_at(ws, ev, mouse, ctx, hi - 1) == ActionV::HackCompleted || hack_done_top(
            ws,
            ev,
            mouse,
            ctx,
            hi - 1,
            lo,
        )
    }
}

/// The first `j` windows after the pass, with the closed ones removed.
pub open spec fn kept_upto(
    ws: Seq<WindowV>,
    ev: InputEvent,
    mouse: PosV,
    ctx: InputCtx,
    j: int,
) -> Seq<WindowV>
    decreases j,
{
    if j <= 0 {
        Seq::empty()
    } else {
        kept_upto(ws, ev, mouse, ctx, j - 1) + if pass_closed_at(ws, ev, mouse, ctx, j - 1) {
            Seq::empty()
        } else {
            seq![pass_window_at(ws, ev, mouse, ctx, j - 1)]
        }
    }
}

/// Every window the pass leaves behind is well formed.
pub proof fn lemma_pass_window_wf(
    ws: Seq<WindowV>,
    ev: InputEvent,
    mouse: PosV,
    ctx: InputCtx,
    i: int,
)
    requires
        0 <= i < ws.len(),
        ws[i].wf(),
    ensures
        pass_window_at(ws, ev, mouse, ctx, i).wf(),
{
    let dev = delivered_event_spec(ws, ev, mouse, ctx, i);
    crate::windows::lemma_handle_input_wf(ws[i], dev, ctx);
    crate::windows::lemma_set_visibility_wf(
        window_handle_input_spec(ws[i], dev, ctx).0,
        false,
    );
}

/// Every window the pass keeps is well formed.
pub proof fn lemma_kept_upto_wf(
    ws: Seq<WindowV>,
    ev: InputEvent,
    mouse: PosV,
    ctx: InputCtx,
    j: int,
)
    requires
        j <= ws.len(),
        forall|i: int| 0 <= i < ws.len() ==> (#[trigger] ws[i]).wf(),
    ensures
        forall|k: int|
            0 <= k < kept_upto(ws, ev, mouse, ctx, j).len() ==> (#[trigger] kept_upto(
                ws,
                ev,
                mouse,
                ctx,
                j,
            )[k]).wf(),
    decreases j,
{
    if j <= 0 {
    } else {
        lemma_kept_upto_wf(ws, ev, mouse, ctx, j - 1);
        lemma_pass_window_wf(ws, ev, mouse, ctx, j - 1);
        let prev = kept_upto(ws, ev, mouse, ctx, j - 1);
        let cur = kept_upto(ws, ev, mouse, ctx, j);
        assert forall|k: int| 0 <= k < cur.len() implies (#[trigger] cur[k]).wf() by {
            if k < prev.len() {
                assert(cur[k] == prev[k]);
            } else {
                assert(cur[k] == pass_window_at(ws, ev, mouse, ctx, j - 1));
            }
        };
    }
}

/// Every window the pass spawns is well formed.
pub proof fn lemma_spawned_top_wf(
    ws: Seq<WindowV>,
    ev: InputEvent,
    mouse: PosV,
    ctx: InputCtx,
    hi: int,
    lo: int,
)
    requires
        0 <= lo,
        hi <= ws.len(),
        forall|i: int| 0 <= i < ws.len() ==> (#[trigger] ws[i]).wf(),
    ensures
        forall|k: int|
            0 <= k < spawned_top(ws, ev, mouse, ctx, hi, lo).len() ==> (#[trigger] spawned_top(
                ws,
                ev,
                mouse,
                ctx,
                hi,
                lo,
            )[k]).wf(),
    decreases hi - lo,
{
    if hi <= lo {
    } else {
        lemma_spawned_top_wf(ws, ev, mouse, ctx, hi - 1, lo);
        crate::windows::lemma_handle_input_spawn_wf(
            ws[hi - 1],
            delivered_event_spec(ws, ev, mouse, ctx, hi - 1),
            ctx,
        );
        let head = pass_spawns_at(ws, ev, mouse, ctx, hi - 1);
        let rest = spawned_top(ws, ev, mouse, ctx, hi - 1, lo);
        let cur = spawned_top(ws, ev, mouse, ctx, hi, lo);
        assert forall|k: int| 0 <= k < cur.len() implies (#[trigger] cur[k]).wf() by {
            if k < head.len() {
                assert(cur[k] == head[k]);
            } else {
                assert(cur[k] == rest[k - head.len()]);
            }
        };
    }
}

/// The context handed to every handler this frame.
pub open spec fn ctx_spec(d: EscOSV, input: FrameInput) -> InputCtx {
    InputCtx {
        mouse_down: input.mouse_down,
        last_mouse: d.last_mouse,
        now_ms: input.now_ms,
        key_left: input.key_left,
        key_right: input.key_right,
        key_up: input.key_up,
        key_down: input.key_down,
        screen: input.screen,
    }
}

/// While the desktop is locked, the login window takes the event left
/// over after the window pass, under the same capture rule; only a
/// spawned window is applied from its answer.
pub open spec fn login_pass_spec(
    d: EscOSV,
    remaining: InputEvent,
    mouse: PosV,
    ctx: InputCtx,
) -> EscOSV {
    if !d.is_unlocked {
        let lw = WindowV::Login(d.login_window);
        let lev = if window_contains_spec(lw, ctx.screen@, mouse) {
            remaining
        } else {
            InputEvent::Idle
        };
        let r = window_handle_input_spec(lw, lev, ctx);
        let l1 = match r.0 {
            WindowV::Login(l) => l,
            _ => d.login_window,
        };
        let ws1 = match r.1 {
            ActionV::NewWindow(nw) => d.windows.push(nw),
            _ => d.windows,
        };
        EscOSV { login_window: l1, windows: ws1, ..d }
    } else {
        d
    }
}

/// One frame of the desktop: the throttled file poll and the puzzle
/// timers, then the input pass over the windows topmost-first with
/// deferred removal, then the login window while locked, and finally
/// the pointer position is remembered for the next frame's drag delta.
pub open spec fn tick_spec(d: EscOSV, input: FrameInput) -> EscOSV {
    let d1 = usb_file_step_spec(d, input);
    let d2 = usb_timer_step_spec(d1, input);
    let ev = event_spec(input);
    let ctx = ctx_spec(d, input);
    let mouse = input.mouse@;
    let ws = d2.windows;
    let n = ws.len() as int;
    let cap = capture_index_spec(ws, input.screen@, mouse);
    let remaining = if cap is Some {
        InputEvent::Idle
    } else {
        ev
    };
    let hack = hack_done_top(ws, ev, mouse, ctx, n, 0);
    let d3 = EscOSV {
        windows: kept_upto(ws, ev, mouse, ctx, n) + spawned_top(ws, ev, mouse, ctx, n, 0),
        is_unlocked: d2.is_unlocked || hack,
        hack_status: if hack {
            HackStatus::Completed
        } else {
            d2.hack_status
        },
        ..d2
    };
    let d4 = login_pass_spec(d3, remaining, mouse, ctx);
    EscOSV { last_mouse: input.mouse, ..d4 }
}

/// `spawned_top` can also be unfolded at its lower bound: what the
/// pass appends down to `lo` is what it appends down to `lo + 1`,
/// `spawned_top` can also be unfolded at its lower bound: what the
/// pass appends down to `lo` is what it appends down to `lo + 1`,
/// followed by window `lo`'s own spawns.
pub proof fn lemma_spawned_top_unfold_lo(
    ws: Seq<WindowV>,
    ev: InputEvent,
    mouse: PosV,
    ctx: InputCtx,
    hi: int,
    lo: int,
)
    requires
        lo < hi,
    ensures
        spawned_top(ws, ev, mouse, ctx, hi, lo) == spawned_top(ws, ev, mouse, ctx, hi, lo + 1)
            + pass_spawns_at(ws, ev, mouse, ctx, lo),
    decreases hi - lo,
{
    if hi - 1 == lo {
        assert(spawned_top(ws, ev, mouse, ctx, hi - 1, lo) =~= Seq::<WindowV>::empty());
        assert(spawned_top(ws, ev, mouse, ctx, hi, lo + 1) =~= Seq::<WindowV>::empty());
        assert(spawned_top(ws, ev, mouse, ctx, hi, lo) =~= spawned_top(
            ws,
            ev,
            mouse,
            ctx,
            hi,
            lo + 1,
        ) + pass_spawns_at(ws, ev, mouse, ctx, lo));
    } else {
        lemma_spawned_top_unfold_lo(ws, ev, mouse, ctx, hi - 1, lo);
        assert(spawned_top(ws, ev, mouse, ctx, hi, lo + 1) =~= pass_spawns_at(
            ws,
            ev,
            mouse,
            ctx,
            hi - 1,
        ) + spawned_top(ws, ev, mouse, ctx, hi - 1, lo + 1));
        assert(spawned_top(ws, ev, mouse, ctx, hi, lo) =~= spawned_top(
            ws,
            ev,
            mouse,
            ctx,
            hi,
            lo + 1,
        ) + pass_spawns_at(ws, ev, mouse, ctx, lo));
    }
}

/// `hack_done_top` can also be unfolded at its lower bound.
pub proof fn lemma_hack_done_top_unfold_lo(
    ws: Seq<WindowV>,
    ev: InputEvent,
    mouse: PosV,
    ctx: InputCtx,
    hi: int,
    lo: int,
)
    requires
        lo < hi,
    ensures
        hack_done_top(ws, ev, mouse, ctx, hi, lo) == (hack_done_top(ws, ev, mouse, ctx, hi, lo + 1)
            || pass_action_at(ws, ev, mouse, ctx, lo) == ActionV::HackCompleted),
    decreases hi - lo,
{
    if hi - 1 == lo {
        assert(!hack_done_top(ws, ev, mouse, ctx, hi - 1, lo));
        assert(!hack_done_top(ws, ev, mouse, ctx, hi, lo + 1));
    } else {
        lemma_hack_done_top_unfold_lo(ws, ev, mouse, ctx, hi - 1, lo);
        assert(hack_done_top(ws, ev, mouse, ctx, hi, lo + 1) == (pass_action_at(
            ws,
            ev,
            mouse,
            ctx,
            hi - 1,
        ) == ActionV::HackCompleted || hack_done_top(ws, ev, mouse, ctx, hi - 1, lo + 1)));
    }
}

/// Registry indices, in order, of the first `j` windows that expose a
/// dock icon.  Visibility plays no part.
pub open spec fn dock_indices_upto(ws: Seq<WindowV>, j: int) -> Seq<int>
    decreases j,
{
    if j <= 0 {
        Seq::empty()
    } else {
        dock_indices_upto(ws, j - 1) + if window_icon_spec(ws[j - 1]) is Some {
            seq![j - 1]
        } else {
            Seq::empty()
        }
    }
}

/// Every derived dock entry is a valid registry index whose window
/// exposes an icon.
pub proof fn lemma_dock_indices_range(ws: Seq<WindowV>, j: int, k: int)
    requires
        0 <= k < dock_indices_upto(ws, j).len(),
    ensures
        0 <= dock_indices_upto(ws, j)[k] < j,
        window_icon_spec(ws[dock_indices_upto(ws, j)[k]]) is Some,
    decreases j,
{
    if j <= 0 {
    } else {
        if k < dock_indices_upto(ws, j - 1).len() {
            lemma_dock_indices_range(ws, j - 1, k);
        }
    }
}

/// Every window that exposes an icon appears among the derived dock
/// entries, visible or not.
pub proof fn lemma_dock_indices_contains(ws: Seq<WindowV>, j: int, i: int)
    requires
        0 <= i < j,
        window_icon_spec(ws[i]) is Some,
    ensures
        dock_indices_upto(ws, j).contains(i),
    decreases j,
{
    if i == j - 1 {
        assert(dock_indices_upto(ws, j)[dock_indices_upto(ws, j - 1).len() as int] == i);
    } else {
        lemma_dock_indices_contains(ws, j - 1, i);
        let k = choose|k: int|
            0 <= k < dock_indices_upto(ws, j - 1).len() && #[trigger] dock_indices_upto(
                ws,
                j - 1,
            )[k] == i;
        assert(dock_indices_upto(ws, j)[k] == i);
    }
}

/// The dock entry set does not depend on any window's visibility.
pub proof fn lemma_dock_ignores_visibility(ws: Seq<WindowV>, i: int, value: bool, j: int)
    requires
        0 <= i < ws.len(),
        j <= ws.len(),
    ensures
        dock_indices_upto(ws.update(i, window_set_visibility_spec(ws[i], value)), j)
            == dock_indices_upto(ws, j),
    decreases j,
{
    let ws1 = ws.update(i, window_set_visibility_spec(ws[i], value));
    if j <= 0 {
    } else {
        lemma_dock_ignores_visibility(ws, i, value, j - 1);
        assert(window_icon_spec(ws1[j - 1]) == window_icon_spec(ws[j - 1]));
    }
}

pub open spec fn dock_layout_spec(count: int, screen: DimsV) -> (int, int, int, int) {
    let width = count * DOCK_SLOT as int;
    (
        screen.w / 2 - width / 2,
        screen.h - (DOCK_SLOT + DOCK_SPACING) as int,
        width,
        DOCK_SLOT as int,
    )
}

/// The dock slot, if any, that a pointer position falls in, for a dock
/// of `count` icons on a screen of the given dimensions.
pub open spec fn dock_hit_spec(count: int, screen: DimsV, p: PosV) -> Option<int> {
    let left = screen.w / 2 - (count * DOCK_SLOT as int) / 2;
    let top = screen.h - (DOCK_SLOT + DOCK_SPACING) as int;
    if count > 0 && top <= p.y < top + DOCK_SLOT as int && left <= p.x < left + count
        * DOCK_SLOT as int {
        Option::Some((p.x - left) / (DOCK_SLOT as int))
    } else {
        Option::None
    }
}

/// Pixel layout of a dock of `count` icons: left edge, top edge,
/// width, height.
pub fn dock_layout(count: usize, screen: Dims) -> (r: (i64, i64, u32, u32))
    requires
        count <= 0x100_0000,
    ensures
        r.0 as int == dock_layout_spec(count as int, screen@).0,
        r.1 as int == dock_layout_spec(count as int, screen@).1,
        r.2 as int == dock_layout_spec(count as int, screen@).2,
        r.3 as int == dock_layout_spec(count as int, screen@).3,
{
    let width: u32 = (count as u32) * DOCK_SLOT;
    (
        (screen.w / 2) as i64 - (width / 2) as i64,
        screen.h as i64 - (DOCK_SLOT + DOCK_SPACING) as i64,
        width,
        DOCK_SLOT,
    )
}

/// The dock slot a click at `p` lands in, if any.
pub fn dock_hit(count: usize, screen: Dims, p: Pos) -> (r: Option<usize>)
    requires
        count <= 0x100_0000,
        p@.mouse_in_range(),
    ensures
        match r {
            Option::Some(k) => k < count && dock_hit_spec(count as int, screen@, p@)
                == Option::Some(k as int),
            Option::None => dock_hit_spec(count as int, screen@, p@) is None,
        },
{
    let width: u32 = (count as u32) * DOCK_SLOT;
    let left: i64 = (screen.w / 2) as i64 - (width / 2) as i64;
    let top: i64 = screen.h as i64 - (DOCK_SLOT + DOCK_SPACING) as i64;
    if count > 0 && top <= p.y && p.y < top + DOCK_SLOT as i64 && left <= p.x && p.x < left
        + width as i64 {
        let off: u64 = (p.x - left) as u64;
        let k: usize = (off / DOCK_SLOT as u64) as usize;
        assert(off as int / 80 < count as int) by {
            assert(off < count * 80);
        };
        Option::Some(k)
    } else {
        Option::None
    }
}

/// A tick of a well-formed desktop leaves it well formed.
pub proof fn lemma_tick_spec_wf(d: EscOSV, input: FrameInput)
    requires
        d.wf(),
        input.wf(),
    ensures
        tick_spec(d, input).wf(),
{
    let d1 = usb_file_step_spec(d, input);
    let d2 = usb_timer_step_spec(d1, input);
    crate::minigame::lemma_minigame_init_wf(input.now_ms);
    assert(forall|i: int| 0 <= i < d1.windows.len() ==> (#[trigger] d1.windows[i]).wf());
    assert(forall|i: int| 0 <= i < d2.windows.len() ==> (#[trigger] d2.windows[i]).wf());
    let ev = event_spec(input);
    let ctx = ctx_spec(d, input);
    let mouse = input.mouse@;
    let ws = d2.windows;
    let n = ws.len() as int;
    lemma_kept_upto_wf(ws, ev, mouse, ctx, n);
    lemma_spawned_top_wf(ws, ev, mouse, ctx, n, 0);
    let kept = kept_upto(ws, ev, mouse, ctx, n);
    let spawned = spawned_top(ws, ev, mouse, ctx, n, 0);
    assert(forall|i: int|
        0 <= i < kept.len() + spawned.len() ==> (#[trigger] (kept + spawned)[i]).wf());
}

impl EscOS {
    pub open spec fn wf(&self) -> bool {
        self@.wf()
    }

    /// Registry indices of the windows the dock shows, in registry
    /// order: exactly those whose `icon` is present, visible or not.
    pub fn dock_indices(&self) -> (r: Vec<usize>)
        ensures
            r@.len() == dock_indices_upto(self@.windows, self@.windows.len() as int).len(),
            forall|k: int|
                0 <= k < r@.len() ==> #[trigger] r@[k] as int == dock_indices_upto(
                    self@.windows,
                    self@.windows.len() as int,
                )[k],
    {
        let ghost ws = self@.windows;
        let n = self.windows.len();
        let mut r: Vec<usize> = Vec::new();
        let mut j: usize = 0;
        while j < n
            invariant
                j <= n,
                n == ws.len(),
                ws == self@.windows,
                r@.len() == dock_indices_upto(ws, j as int).len(),
                forall|k: int|
                    0 <= k < r@.len() ==> #[trigger] r@[k] as int == dock_indices_upto(
                        ws,
                        j as int,
                    )[k],
            decreases n - j,
        {
            if self.windows[j].icon().is_some() {
                r.push(j);
            }
            j += 1;
        }
        r
    }

    /// Toggles the visibility of the window behind dock slot `slot`;
    /// the window keeps its place in the z-order.
    pub fn dock_click(&mut self, slot: usize)
        requires
            old(self).wf(),
            (slot as int) < dock_indices_upto(
                old(self)@.windows,
                old(self)@.windows.len() as int,
            ).len(),
        ensures
            ({
                let ws = old(self)@.windows;
                let idx = dock_indices_upto(ws, ws.len() as int)[slot as int];
                final(self)@ == (EscOSV {
                    windows: ws.update(
                        idx,
                        window_set_visibility_spec(ws[idx], !window_visible_spec(ws[idx])),
                    ),
                    ..old(self)@
                })
            }),
            final(self).wf(),
    {
        let ghost ws = self@.windows;
        proof {
            lemma_dock_indices_range(ws, ws.len() as int, slot as int);
        }
        let indices = self.dock_indices();
        let wi = indices[slot];
        let vis = self.windows[wi].is_visible();
        self.windows[wi].set_visibility(!vis);
        proof {
            let idx = dock_indices_upto(ws, ws.len() as int)[slot as int];
            assert(self@.windows =~= ws.update(
                idx,
                window_set_visibility_spec(ws[idx], !window_visible_spec(ws[idx])),
            ));
        }
    }

    /// A locked desktop with no windows, holding the secret the
    /// removable-media file is compared against.
    pub fn new(hack_file_content: String, now_ms: u64) -> (d: EscOS)
        ensures
            d@ == escos_init_spec(hack_file_content@, now_ms),
            d.wf(),
    {
        let d = EscOS {
            login_window: LoginWindow::new(),
            windows: Vec::new(),
            is_unlocked: false,
            hack_file_content,
            last_usb_check: now_ms,
            hack_status: HackStatus::NoUSB,
            last_mouse: Pos { x: 0, y: 0 },
        };
        proof {
            assert(d@.windows =~= escos_init_spec(d.hack_file_content@, now_ms).windows);
        }
        d
    }

    pub fn window_count(&self) -> (n: usize)
        ensures
            n == self@.windows.len(),
    {
        self.windows.len()
    }

    pub fn is_unlocked(&self) -> (b: bool)
        ensures
            b == self@.is_unlocked,
    {
        self.is_unlocked
    }

    pub fn hack_status(&self) -> (s: HackStatus)
        ensures
            s == self@.hack_status,
    {
        self.hack_status
    }

    /// Whether the throttled removable-media poll is due, so the
    /// caller knows when a file read is worth handing to `tick`.
    pub fn usb_poll_due(&self, now_ms: u64) -> (b: bool)
        ensures
            b == usb_poll_due_spec(self@, now_ms),
    {
        now_ms >= self.last_usb_check && now_ms - self.last_usb_check >= USB_POLL_INTERVAL_MS
    }
    /// Runs the input pass over the registry topmost-first, applies
    /// minimizes on the spot, defers removals, appends spawned windows,
    /// and applies hack completion to the unlock flag and puzzle state.
    #[verifier::rlimit(100)]
    fn apply_input_pass(
        &mut self,
        ev: InputEvent,
        ctx: &InputCtx,
        cap: Option<usize>,
        Ghost(mouse): Ghost<PosV>,
    )
        requires
            old(self).wf(),
            ev.wf(),
            ctx.wf(),
            match cap {
                Option::Some(c) => c < old(self)@.windows.len() && capture_index_spec(
                    old(self)@.windows,
                    ctx.screen@,
                    mouse,
                ) == Option::Some(c as int),
                Option::None => capture_index_spec(old(self)@.windows, ctx.screen@, mouse)
                    is None,
            },
        ensures
            ({
                let ws = old(self)@.windows;
                let n = ws.len() as int;
                let hack = hack_done_top(ws, ev, mouse, *ctx, n, 0);
                final(self)@ == EscOSV {
                    windows: kept_upto(ws, ev, mouse, *ctx, n) + spawned_top(
                        ws,
                        ev,
                        mouse,
                        *ctx,
                        n,
                        0,
                    ),
                    is_unlocked: old(self)@.is_unlocked || hack,
                    hack_status: if hack {
                        HackStatus::Completed
                    } else {
                        old(self)@.hack_status
                    },
                    ..old(self)@
                }
            }),
    {
        let ghost d2 = old(self)@;
        let ghost ws2 = old(self)@.windows;
        let ghost ctxg = *ctx;

        let n = self.windows.len();
        let mut closed_flags: Vec<bool> = Vec::new();
        let mut fill: usize = 0;
        while fill < n
            invariant
                fill <= n,
                closed_flags@.len() == fill,
                forall|j: int| 0 <= j < fill ==> closed_flags@[j] == false,
            decreases n - fill,
        {
            closed_flags.push(false);
            fill += 1;
        }
        let mut hack = false;

        // input pass, topmost first, with deferred removal
        let mut i: usize = n;
        while i > 0
            invariant
                i <= n,
                n == ws2.len(),
                ws2 == d2.windows,
                d2.wf(),
                *ctx == ctxg,
                ctxg.wf(),
                ev.wf(),
                match cap {
                    Option::Some(c) => c < n && capture_index_spec(ws2, ctxg.screen@, mouse)
                        == Option::Some(c as int),
                    Option::None => capture_index_spec(ws2, ctxg.screen@, mouse) is None,
                },
                self@.windows.len() == n + spawned_top(
                    ws2,
                    ev,
                    mouse,
                    ctxg,
                    n as int,
                    i as int,
                ).len(),
                forall|j: int| 0 <= j < i ==> self@.windows[j] == ws2[j],
                forall|j: int|
                    i <= j < n ==> self@.windows[j] == pass_window_at(ws2, ev, mouse, ctxg, j),
                forall|k: int|
                    0 <= k < spawned_top(ws2, ev, mouse, ctxg, n as int, i as int).len()
                        ==> self@.windows[n + k] == spawned_top(
                        ws2,
                        ev,
                        mouse,
                        ctxg,
                        n as int,
                        i as int,
                    )[k],
                closed_flags@.len() == n,
                forall|j: int| 0 <= j < i ==> closed_flags@[j] == false,
                forall|j: int|
                    i <= j < n ==> closed_flags@[j] == pass_closed_at(ws2, ev, mouse, ctxg, j),
                hack == hack_done_top(ws2, ev, mouse, ctxg, n as int, i as int),
                self.is_unlocked == (d2.is_unlocked || hack),
                self.hack_status == if hack {
                    HackStatus::Completed
                } else {
                    d2.hack_status
                },
                self.login_window@ == d2.login_window,
                self.hack_file_content@ == d2.hack_file_content,
                self.last_usb_check == d2.last_usb_check,
                self.last_mouse == d2.last_mouse,
            decreases i,
        {
            i -= 1;
            let ghost spawned_pre = spawned_top(ws2, ev, mouse, ctxg, n as int, i as int + 1);
            proof {
                lemma_spawned_top_unfold_lo(ws2, ev, mouse, ctxg, n as int, i as int);
                lemma_hack_done_top_unfold_lo(ws2, ev, mouse, ctxg, n as int, i as int);
            }
            if self.windows[i].is_visible() {
                let is_cap = match cap {
                    Option::Some(c) => c == i,
                    Option::None => false,
                };
                let this_ev = if is_cap {
                    ev
                } else {
                    InputEvent::Idle
                };
                proof {
                    assert(this_ev == delivered_event_spec(ws2, ev, mouse, ctxg, i as int));
                    crate::windows::lemma_handle_input_spawn_wf(ws2[i as int], this_ev, ctxg);
                    assert(self@.windows[i as int] == ws2[i as int]);
                    assert(ws2[i as int].wf());
                }
                let act = self.windows[i].handle_input(this_ev, ctx);
                let ghost actv = act@;
                proof {
                    assert(actv == window_handle_input_spec(ws2[i as int], this_ev, ctxg).1);
                }
                match act {
                    WindowReturnAction::NoAction => {},
                    WindowReturnAction::Minimize => {
                        self.windows[i].set_visibility(false);
                    },
                    WindowReturnAction::Close => {
                        closed_flags[i] = true;
                    },
                    WindowReturnAction::NewWindow(nw) => {
                        self.windows.push(nw);
                    },
                    WindowReturnAction::HackCompleted => {
                        closed_flags[i] = true;
                        hack = true;
                        self.hack_status = HackStatus::Completed;
                        self.is_unlocked = true;
                        self.windows.push(
                            Window::new_popup("Hack completed!".to_owned(), ctx.screen),
                        );
                        self.windows.push(Window::new_document_list(ctx.screen));
                    },
                }
                proof {
                    assert(pass_action_at(ws2, ev, mouse, ctxg, i as int) == actv);
                    assert(self@.windows[i as int] == pass_window_at(ws2, ev, mouse, ctxg, i as int));
                    assert(spawned_top(ws2, ev, mouse, ctxg, n as int, i as int) == spawned_pre
                        + pass_spawns_at(ws2, ev, mouse, ctxg, i as int));
                }
            } else {
                proof {
                    assert(pass_action_at(ws2, ev, mouse, ctxg, i as int) == ActionV::NoAction);
                    assert(pass_window_at(ws2, ev, mouse, ctxg, i as int) == ws2[i as int]);
                    assert(pass_spawns_at(ws2, ev, mouse, ctxg, i as int) =~= Seq::<WindowV>::empty());
                    assert(spawned_top(ws2, ev, mouse, ctxg, n as int, i as int) =~= spawned_pre);
                }
            }
        }

        // apply the deferred removals, keeping everything spawned
        let ghost spawned_all = spawned_top(ws2, ev, mouse, ctxg, n as int, 0);
        let ghost passed = self@.windows;
        let mut old_ws: Vec<Window> = Vec::new();
        core::mem::swap(&mut old_ws, &mut self.windows);
        let ghost pre = views_of(old_ws@);
        proof {
            assert(pre =~= passed);
            assert(self@.windows =~= Seq::<WindowV>::empty());
            assert(self@.windows == kept_upto(ws2, ev, mouse, ctxg, 0));
        }
        let total = old_ws.len();
        let mut j: usize = 0;
        while j < total
            invariant
                j <= total,
                total == pre.len(),
                total == n + spawned_all.len(),
                n <= total,
                old_ws@.len() == total - j,
                forall|k: int| 0 <= k < total - j ==> (#[trigger] old_ws@[k])@ == pre[j + k],
                closed_flags@.len() == n,
                forall|j2: int|
                    0 <= j2 < n ==> closed_flags@[j2] == pass_closed_at(ws2, ev, mouse, ctxg, j2),
                forall|j2: int|
                    0 <= j2 < n ==> pre[j2] == pass_window_at(ws2, ev, mouse, ctxg, j2),
                forall|k: int| 0 <= k < spawned_all.len() ==> pre[n + k] == spawned_all[k],
                j <= n ==> self@.windows == kept_upto(ws2, ev, mouse, ctxg, j as int),
                j > n ==> self@.windows == kept_upto(ws2, ev, mouse, ctxg, n as int)
                    + spawned_all.subrange(0, j - n),
                self.is_unlocked == (d2.is_unlocked || hack),
                self.hack_status == if hack {
                    HackStatus::Completed
                } else {
                    d2.hack_status
                },
                self.login_window@ == d2.login_window,
                self.hack_file_content@ == d2.hack_file_content,
                self.last_usb_check == d2.last_usb_check,
                self.last_mouse == d2.last_mouse,
            decreases total - j,
        {
            let ghost vprev = self@.windows;
            let w = old_ws.remove(0);
            let ghost wv = w@;
            let keep = if j < n {
                !closed_flags[j]
            } else {
                true
            };
            if keep {
                self.windows.push(w);
                proof {
                    assert(self@.windows =~= vprev.push(wv));
                }
            }
            proof {
                assert(wv == pre[j as int]);
                if j < n {
                    assert(self@.windows =~= kept_upto(ws2, ev, mouse, ctxg, j as int + 1));
                } else {
                    let m = j as int - n as int;
                    assert(0 <= m < spawned_all.len());
                    assert(pre[n + m] == spawned_all[m]);
                    assert(wv == spawned_all[m]);
                    if j == n {
                        assert(vprev =~= kept_upto(ws2, ev, mouse, ctxg, n as int)
                            + spawned_all.subrange(0, 0));
                    }
                    assert(spawned_all.subrange(0, m).push(spawned_all[m]) =~= spawned_all
                        .subrange(0, m + 1));
                    assert(self@.windows =~= kept_upto(ws2, ev, mouse, ctxg, n as int)
                        + spawned_all.subrange(0, m + 1));
                }
            }
            j += 1;
        }
        proof {
            if n < total {
                assert(spawned_all.subrange(0, total - n) =~= spawned_all);
            } else {
                assert(self@.windows == kept_upto(ws2, ev, mouse, ctxg, n as int));
                assert(spawned_all.len() == 0);
                assert(self@.windows =~= kept_upto(ws2, ev, mouse, ctxg, n as int) + spawned_all);
            }
            assert(self@.windows == kept_upto(ws2, ev, mouse, ctxg, n as int) + spawned_all);
        }
        proof {
            assert(self@ =~= EscOSV {
                windows: kept_upto(ws2, ev, mouse, ctxg, ws2.len() as int) + spawned_top(
                    ws2,
                    ev,
                    mouse,
                    ctxg,
                    ws2.len() as int,
                    0,
                ),
                is_unlocked: d2.is_unlocked || hack_done_top(
                    ws2,
                    ev,
                    mouse,
                    ctxg,
                    ws2.len() as int,
                    0,
                ),
                hack_status: if hack_done_top(ws2, ev, mouse, ctxg, ws2.len() as int, 0) {
                    HackStatus::Completed
                } else {
                    d2.hack_status
                },
                ..d2
            });
        }
    }

    /// One frame of the desktop; `input` carries the device state the
    /// caller polled, the clock, and the removable-media file content
    /// if it read the file this frame.
    #[verifier::rlimit(100)]
    pub fn tick(&mut self, input: &FrameInput)
        requires
            old(self).wf(),
            input.wf(),
        ensures
            final(self)@ == tick_spec(old(self)@, *input),
            final(self).wf(),
    {
        let ghost d0 = self@;

        // throttled removable-media poll
        let due = input.now_ms >= self.last_usb_check && input.now_ms - self.last_usb_check
            >= USB_POLL_INTERVAL_MS;
        let mut matched = false;
        if due {
            self.last_usb_check = input.now_ms;
            match &input.usb_content {
                Option::Some(content) => {
                    matched = *content == self.hack_file_content;
                },
                Option::None => {},
            }
        }
        if matched && self.hack_status == HackStatus::NoUSB {
            self.hack_status = HackStatus::USBOpened(input.now_ms);
            self.windows.push(Window::new_popup("Hack in progress!".to_owned(), input.screen));
        }
        proof {
            assert(self@.windows =~= usb_file_step_spec(d0, *input).windows);
            assert(self@ =~= usb_file_step_spec(d0, *input));
        }
        let ghost dd1 = self@;

        // mini-game reveal timer
        if let HackStatus::USBOpened(t) = self.hack_status {
            if input.now_ms > HACK_REVEAL_DELAY_MS && t < input.now_ms - HACK_REVEAL_DELAY_MS {
                self.windows.push(Window::new_minigame(input.now_ms));
                self.hack_status = HackStatus::Minigame;
            }
        }
        proof {
            assert(self@.windows =~= usb_timer_step_spec(dd1, *input).windows);
            assert(self@ =~= usb_timer_step_spec(dd1, *input));
        }
        let ghost d2 = self@;
        let ghost ws2 = self@.windows;

        let ctx = InputCtx {
            mouse_down: input.mouse_down,
            last_mouse: self.last_mouse,
            now_ms: input.now_ms,
            key_left: input.key_left,
            key_right: input.key_right,
            key_up: input.key_up,
            key_down: input.key_down,
            screen: input.screen,
        };
        let ghost ctxg = ctx;
        let ghost mouse = input.mouse@;
        proof {
            assert(ctxg == ctx_spec(d0, *input));
            assert(d2.wf());
        }
        let ev = compute_event(input);
        proof {
            assert(ev.wf());
        }
        let cap: Option<usize> = self.capture_top(input.mouse, input.screen);
        self.apply_input_pass(ev, &ctx, cap, Ghost(mouse));
        proof {
            assert(self@ =~= EscOSV {
                windows: kept_upto(ws2, ev, mouse, ctxg, ws2.len() as int) + spawned_top(
                    ws2,
                    ev,
                    mouse,
                    ctxg,
                    ws2.len() as int,
                    0,
                ),
                is_unlocked: d2.is_unlocked || hack_done_top(
                    ws2,
                    ev,
                    mouse,
                    ctxg,
                    ws2.len() as int,
                    0,
                ),
                hack_status: if hack_done_top(ws2, ev, mouse, ctxg, ws2.len() as int, 0) {
                    HackStatus::Completed
                } else {
                    d2.hack_status
                },
                ..d2
            });
        }
        let ghost d3 = self@;

        // while locked, the login window takes the leftover event
        if !self.is_unlocked {
            let tl = self.login_window.top_left(input.screen);
            let login_contains = crate::geometry::rect_contains_exec(
                tl,
                Dims { w: LOGIN_WIDTH, h: LOGIN_HEIGHT },
                input.mouse,
            );
            let consumed = match cap {
                Option::Some(_) => true,
                Option::None => false,
            };
            let lev = if !consumed && login_contains {
                ev
            } else {
                InputEvent::Idle
            };
            match lev {
                InputEvent::LeftMouse(_, _) => {
                    if self.login_window.login_button_clicked {
                        let text = "Error:\nLogin is disabled during emergency\nprotocol!"
                            .to_owned();
                        self.windows.push(Window::new_popup(text, ctx.screen));
                    }
                },
                _ => {},
            }
        }
        proof {
            let remaining = if capture_index_spec(ws2, input.screen@, mouse) is Some {
                InputEvent::Idle
            } else {
                ev
            };
            assert(self@.windows =~= login_pass_spec(d3, remaining, mouse, ctxg).windows);
            assert(self@ =~= login_pass_spec(d3, remaining, mouse, ctxg));
        }

        self.last_mouse = input.mouse;
        proof {
            assert(self@ =~= tick_spec(d0, *input));
            lemma_tick_spec_wf(d0, *input);
        }
    }

    /// Index of the topmost visible window containing the pointer.
    fn capture_top(&self, mouse: Pos, screen: Dims) -> (r: Option<usize>)
        requires
            self.wf(),
        ensures
            match r {
                Option::Some(i) => i < self@.windows.len() && capture_index_spec(
                    self@.windows,
                    screen@,
                    mouse@,
                ) == Option::Some(i as int),
                Option::None => capture_index_spec(self@.windows, screen@, mouse@)
                    is None,
            },
    {
        let ghost ws = self@.windows;
        let mut i: usize = self.windows.len();
        while i > 0
            invariant
                i <= self.windows.len(),
                ws == self@.windows,
                self.wf(),
                capture_from(ws, screen@, mouse@, ws.len() as int) == capture_from(
                    ws,
                    screen@,
                    mouse@,
                    i as int,
                ),
            decreases i,
        {
            i -= 1;
            let vis = self.windows[i].is_visible();
            if vis && self.windows[i].contains_pos(mouse, screen) {
                return Option::Some(i);
            }
        }
        Option::None
    }
}

} // verus!
