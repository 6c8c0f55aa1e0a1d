//! The laws the desktop keeps, stated over the specification functions
//! the executable contracts use, and proved once and for all.

use vstd::prelude::*;

use crate::geometry::{DimsV, PosV};
use crate::input::{InputCtx, InputEvent};
use crate::login::{login_position_spec, LOGIN_INPUT_HEIGHT, LOGIN_INPUT_WIDTH};
use crate::minigame::{
    cell_index, intent_spec, minigame_init_spec, minigame_step_spec, step_due, Cell, MiniGameV,
    KEYS_TOTAL,
};
use crate::popup::{POPUP_HEIGHT, POPUP_WIDTH};
use crate::system::{
    capture_from, capture_index_spec, delivered_event_spec, kept_upto, pass_action_at,
    pass_closed_at, pass_window_at,
};
use crate::windows::{
    window_contains_spec, window_handle_input_spec, window_position_spec, window_set_visibility_spec,
    window_size_spec, window_top_left_spec, window_visible_spec, ActionV, WindowV,
};

verus! {

/// Every window kind with a stored centre keeps its top-left corner at
/// the centre shifted left and up by half its size.  Pop-ups and the
/// login window are the exceptions: they recompute a screen-centred
/// place at every query.
pub proof fn lemma_top_left_is_centered(w: WindowV, screen: DimsV)
    requires
        !(w is PopUp),
        !(w is Login),
    ensures
        window_top_left_spec(w, screen).x == window_position_spec(w, screen).x - window_size_spec(
            w,
        ).w / 2,
        window_top_left_spec(w, screen).y == window_position_spec(w, screen).y - window_size_spec(
            w,
        ).h / 2,
{
}

/// A pop-up's top-left corner is recomputed from the current screen
/// dimensions: always the screen centre less half the pop-up size.
pub proof fn lemma_popup_recenters(w: WindowV, screen: DimsV)
    requires
        w is PopUp,
    ensures
        window_top_left_spec(w, screen) == (PosV {
            x: screen.w / 2 - POPUP_WIDTH as int / 2,
            y: screen.h / 2 - POPUP_HEIGHT as int / 2,
        }),
{
}

/// The login window is always screen-centred, and its top-left corner
/// is centred around its input box.
pub proof fn lemma_login_recenters(w: WindowV, screen: DimsV)
    requires
        w is Login,
    ensures
        window_position_spec(w, screen) == login_position_spec(screen),
        login_position_spec(screen) == (PosV { x: screen.w / 2, y: screen.h / 2 }),
        window_top_left_spec(w, screen) == (PosV {
            x: login_position_spec(screen).x - LOGIN_INPUT_WIDTH as int / 2,
            y: login_position_spec(screen).y - LOGIN_INPUT_HEIGHT as int / 2,
        }),
{
}

/// At most one window receives a real event per frame: if the events
/// delivered to indices `i` and `j` are both real, the indices agree.
pub proof fn lemma_single_capture(
    ws: Seq<WindowV>,
    ev: InputEvent,
    mouse: PosV,
    ctx: InputCtx,
    i: int,
    j: int,
)
    requires
        delivered_event_spec(ws, ev, mouse, ctx, i) != InputEvent::Idle,
        delivered_event_spec(ws, ev, mouse, ctx, j) != InputEvent::Idle,
    ensures
        i == j,
{
}

/// The capturing window is the topmost visible window under the
/// pointer: everything above it is invisible or misses the pointer,
/// and when nothing captures, no visible window contains the pointer.
pub proof fn lemma_capture_topmost(ws: Seq<WindowV>, screen: DimsV, mouse: PosV)
    ensures
        match capture_index_spec(ws, screen, mouse) {
            Option::Some(i) => 0 <= i < ws.len() && window_visible_spec(ws[i])
                && window_contains_spec(ws[i], screen, mouse) && forall|j: int|
                i < j < ws.len() ==> !(window_visible_spec(#[trigger] ws[j])
                    && window_contains_spec(ws[j], screen, mouse)),
            Option::None => forall|j: int|
                0 <= j < ws.len() ==> !(window_visible_spec(#[trigger] ws[j])
                    && window_contains_spec(ws[j], screen, mouse)),
        },
{
    lemma_capture_from_topmost(ws, screen, mouse, ws.len() as int);
}

proof fn lemma_capture_from_topmost(ws: Seq<WindowV>, screen: DimsV, mouse: PosV, hi: int)
    requires
        hi <= ws.len(),
    ensures
        match capture_from(ws, screen, mouse, hi) {
            Option::Some(i) => 0 <= i < hi && window_visible_spec(ws[i]) && window_contains_spec(
                ws[i],
                screen,
                mouse,
            ) && forall|j: int|
                i < j < hi ==> !(window_visible_spec(#[trigger] ws[j]) && window_contains_spec(
                    ws[j],
                    screen,
                    mouse,
                )),
            Option::None => forall|j: int|
                0 <= j < hi ==> !(window_visible_spec(#[trigger] ws[j]) && window_contains_spec(
                    ws[j],
                    screen,
                    mouse,
                )),
        },
    decreases hi,
{
    if hi <= 0 {
    } else {
        lemma_capture_from_topmost(ws, screen, mouse, hi - 1);
    }
}

/// Hiding a window twice leaves it hidden, for every kind whose
/// visibility is stored.  Pop-ups and the mini-game ignore visibility
/// changes and stay visible.
pub proof fn lemma_hide_idempotent(w: WindowV)
    requires
        !(w is PopUp),
        !(w is MiniGame),
    ensures
        !window_visible_spec(window_set_visibility_spec(w, false)),
        window_set_visibility_spec(window_set_visibility_spec(w, false), false)
            == window_set_visibility_spec(w, false),
{
}

/// Toggling a window's visibility twice restores what it was, for
/// every window kind.
pub proof fn lemma_toggle_twice_restores(w: WindowV)
    ensures
        ({
            let t1 = window_set_visibility_spec(w, !window_visible_spec(w));
            let t2 = window_set_visibility_spec(t1, !window_visible_spec(t1));
            window_visible_spec(t2) == window_visible_spec(w)
        }),
{
}

/// A move off the grid fully resets the game: the freshly parsed grid,
/// the parsed start coordinate, and a cleared collection counter.
pub proof fn lemma_out_of_bounds_resets(g: MiniGameV, ctx: InputCtx)
    requires
        g.wf(),
        step_due(g, ctx.now_ms),
        ({
            let p = intent_spec(g, ctx);
            !(0 <= g.player_position.0 + p.0 < 20 && 0 <= g.player_position.1 + p.1 < 20)
        }),
    ensures
        minigame_step_spec(g, ctx).0 == minigame_init_spec(ctx.now_ms),
        minigame_step_spec(g, ctx).0.keys_collected == 0,
        minigame_step_spec(g, ctx).1 == false,
{
}

/// Once the collection counter stands at the required total after a
/// tick that did not finish the game, the finish cell is revealed at
/// grid coordinate (10, 10).
pub proof fn lemma_finish_revealed(g: MiniGameV, ctx: InputCtx)
    requires
        g.wf(),
        minigame_step_spec(g, ctx).0.keys_collected == KEYS_TOTAL as int,
        minigame_step_spec(g, ctx).1 == false,
    ensures
        minigame_step_spec(g, ctx).0.cells[cell_index(10, 10)] == Cell::Finish,
{
    crate::minigame::lemma_minigame_init_wf(ctx.now_ms);
}

/// Stepping onto the finish cell reports completion.
pub proof fn lemma_finish_emits_completion(g: MiniGameV, ctx: InputCtx)
    requires
        g.wf(),
        step_due(g, ctx.now_ms),
        ({
            let p = intent_spec(g, ctx);
            let nx = g.player_position.0 + p.0;
            let ny = g.player_position.1 + p.1;
            0 <= nx < 20 && 0 <= ny < 20 && (nx, ny) != g.player_position && g.cells[cell_index(
                nx,
                ny,
            )] == Cell::Finish
        }),
    ensures
        minigame_step_spec(g, ctx).1 == true,
{
}

/// Only a mini-game window can report hack completion.
proof fn lemma_hack_only_from_minigame(w: WindowV, ev: InputEvent, ctx: InputCtx)
    ensures
        window_handle_input_spec(w, ev, ctx).1 == ActionV::HackCompleted ==> w is MiniGame,
{
}

/// The only windows handlers spawn are pop-ups.
proof fn lemma_new_window_is_popup(w: WindowV, ev: InputEvent, ctx: InputCtx)
    ensures
        match window_handle_input_spec(w, ev, ctx).1 {
            ActionV::NewWindow(nw) => nw is PopUp,
            _ => true,
        },
{
}

/// A window's kind survives its turn in the pass.
proof fn lemma_pass_keeps_kind(ws: Seq<WindowV>, ev: InputEvent, mouse: PosV, ctx: InputCtx, i: int)
    requires
        0 <= i < ws.len(),
    ensures
        (pass_window_at(ws, ev, mouse, ctx, i) is MiniGame) == (ws[i] is MiniGame),
{
}

/// No hack completion can come out of a range of windows in which at
/// most the excepted index could be a mini-game, and that one answers
/// something else.
proof fn lemma_no_hack_except(
    ws: Seq<WindowV>,
    ev: InputEvent,
    mouse: PosV,
    ctx: InputCtx,
    hi: int,
    lo: int,
    i0: int,
)
    requires
        0 <= lo,
        hi <= ws.len(),
        forall|i: int| lo <= i < hi && i != i0 ==> !((#[trigger] ws[i]) is MiniGame),
        lo <= i0 < hi ==> pass_action_at(ws, ev, mouse, ctx, i0) != ActionV::HackCompleted,
    ensures
        !crate::system::hack_done_top(ws, ev, mouse, ctx, hi, lo),
    decreases hi - lo,
{
    if hi <= lo {
    } else {
        lemma_no_hack_except(ws, ev, mouse, ctx, hi - 1, lo, i0);
        if hi - 1 != i0 {
            lemma_hack_only_from_minigame(
                ws[hi - 1],
                delivered_event_spec(ws, ev, mouse, ctx, hi - 1),
                ctx,
            );
        }
    }
}

/// Mini-game windows in a window sequence.
pub open spec fn count_minigames(ws: Seq<WindowV>) -> int
    decreases ws.len(),
{
    if ws.len() == 0 {
        0
    } else {
        count_minigames(ws.drop_last()) + if ws.last() is MiniGame {
            1int
        } else {
            0int
        }
    }
}

proof fn lemma_count_push(ws: Seq<WindowV>, w: WindowV)
    ensures
        count_minigames(ws.push(w)) == count_minigames(ws) + if w is MiniGame {
            1int
        } else {
            0int
        },
{
    assert(ws.push(w).drop_last() =~= ws);
    assert(ws.push(w).last() == w);
}

proof fn lemma_count_concat(a: Seq<WindowV>, b: Seq<WindowV>)
    ensures
        count_minigames(a + b) == count_minigames(a) + count_minigames(b),
    decreases b.len(),
{
    if b.len() == 0 {
        assert(a + b =~= a);
    } else {
        lemma_count_concat(a, b.drop_last());
        assert((a + b).drop_last() =~= a + b.drop_last());
        assert((a + b).last() == b.last());
    }
}

/// What one window's answer spawns holds no mini-game: spawned windows
/// are pop-ups and the document browser only.
proof fn lemma_spawns_no_minigame(
    ws: Seq<WindowV>,
    ev: InputEvent,
    mouse: PosV,
    ctx: InputCtx,
    i: int,
)
    requires
        0 <= i < ws.len(),
    ensures
        count_minigames(crate::system::pass_spawns_at(ws, ev, mouse, ctx, i)) == 0,
{
    let sp = crate::system::pass_spawns_at(ws, ev, mouse, ctx, i);
    lemma_new_window_is_popup(ws[i], delivered_event_spec(ws, ev, mouse, ctx, i), ctx);
    match crate::system::pass_action_at(ws, ev, mouse, ctx, i) {
        ActionV::NewWindow(nw) => {
            let s1 = sp.drop_last();
            assert(s1 =~= Seq::<WindowV>::empty());
            assert(count_minigames(s1) == 0);
            assert(sp.last() == nw);
            assert(!(nw is MiniGame));
        },
        ActionV::HackCompleted => {
            let s1 = sp.drop_last();
            assert(!(sp.last() is MiniGame));
            assert(!(s1.last() is MiniGame));
            assert(s1.drop_last() =~= Seq::<WindowV>::empty());
            assert(count_minigames(s1.drop_last()) == 0);
            assert(count_minigames(s1) == 0);
        },
        _ => {},
    }
}

proof fn lemma_spawned_top_no_minigame(
    ws: Seq<WindowV>,
    ev: InputEvent,
    mouse: PosV,
    ctx: InputCtx,
    hi: int,
    lo: int,
)
    requires
        0 <= lo,
        hi <= ws.len(),
    ensures
        count_minigames(crate::system::spawned_top(ws, ev, mouse, ctx, hi, lo)) == 0,
    decreases hi - lo,
{
    if hi <= lo {
    } else {
        lemma_spawned_top_no_minigame(ws, ev, mouse, ctx, hi - 1, lo);
        lemma_spawns_no_minigame(ws, ev, mouse, ctx, hi - 1);
        lemma_count_concat(
            crate::system::pass_spawns_at(ws, ev, mouse, ctx, hi - 1),
            crate::system::spawned_top(ws, ev, mouse, ctx, hi - 1, lo),
        );
    }
}

/// The pass keeps exactly one mini-game when exactly one is registered
/// and its answer does not close it.
proof fn lemma_kept_count_single(
    ws: Seq<WindowV>,
    ev: InputEvent,
    mouse: PosV,
    ctx: InputCtx,
    j: int,
    i0: int,
)
    requires
        0 <= i0 < ws.len(),
        j <= ws.len(),
        ws[i0] is MiniGame,
        !pass_closed_at(ws, ev, mouse, ctx, i0),
        forall|i: int| 0 <= i < ws.len() && i != i0 ==> !((#[trigger] ws[i]) is MiniGame),
    ensures
        count_minigames(kept_upto(ws, ev, mouse, ctx, j)) == if j > i0 {
            1int
        } else {
            0int
        },
    decreases j,
{
    if j <= 0 {
    } else {
        lemma_kept_count_single(ws, ev, mouse, ctx, j - 1, i0);
        lemma_pass_keeps_kind(ws, ev, mouse, ctx, j - 1);
        let prev = kept_upto(ws, ev, mouse, ctx, j - 1);
        if pass_closed_at(ws, ev, mouse, ctx, j - 1) {
            assert(prev + Seq::<WindowV>::empty() =~= prev);
        } else {
            assert(prev + seq![pass_window_at(ws, ev, mouse, ctx, j - 1)] =~= prev.push(
                pass_window_at(ws, ev, mouse, ctx, j - 1),
            ));
            lemma_count_push(prev, pass_window_at(ws, ev, mouse, ctx, j - 1));
        }
    }
}

/// With the secret on the removable media and the poll due, a locked
/// desktop in the `NoUSB` state records the detection: the next tick
/// moves the puzzle to `USBOpened` stamped with the current time.
pub proof fn lemma_usb_detection(d: crate::system::EscOSV, input: crate::input::FrameInput)
    requires
        d.hack_status == crate::system::HackStatus::NoUSB,
        crate::system::usb_match_spec(d, input),
        forall|i: int| 0 <= i < d.windows.len() ==> !((#[trigger] d.windows[i]) is MiniGame),
    ensures
        crate::system::tick_spec(d, input).hack_status == crate::system::HackStatus::USBOpened(
            input.now_ms,
        ),
{
    let d1 = crate::system::usb_file_step_spec(d, input);
    let d2 = crate::system::usb_timer_step_spec(d1, input);
    let ev = crate::input::event_spec(input);
    let ctx = crate::system::ctx_spec(d, input);
    let mouse = input.mouse@;
    let ws = d2.windows;
    let n = ws.len() as int;
    assert(ws == d.windows.push(
        WindowV::PopUp(
            crate::popup::popup_init_spec(crate::system::hack_in_progress_text(), input.screen@),
        ),
    ));
    assert(forall|i: int| 0 <= i < n ==> !((#[trigger] ws[i]) is MiniGame));
    lemma_no_hack_except(ws, ev, mouse, ctx, n, 0, n);
}

/// Once the reveal delay after a detection has passed, the next tick
/// moves the puzzle to the mini-game and the registry holds exactly
/// one mini-game window.
pub proof fn lemma_minigame_spawned(
    d: crate::system::EscOSV,
    input: crate::input::FrameInput,
    t: u64,
)
    requires
        d.hack_status == crate::system::HackStatus::USBOpened(t),
        input.now_ms as int > t as int + crate::system::HACK_REVEAL_DELAY_MS as int,
        forall|i: int| 0 <= i < d.windows.len() ==> !((#[trigger] d.windows[i]) is MiniGame),
    ensures
        crate::system::tick_spec(d, input).hack_status == crate::system::HackStatus::Minigame,
        count_minigames(crate::system::tick_spec(d, input).windows) == 1,
{
    let d1 = crate::system::usb_file_step_spec(d, input);
    let d2 = crate::system::usb_timer_step_spec(d1, input);
    let ev = crate::input::event_spec(input);
    let ctx = crate::system::ctx_spec(d, input);
    let mouse = input.mouse@;
    let ws = d2.windows;
    let n = ws.len() as int;
    let g0 = minigame_init_spec(input.now_ms);
    assert(d1.windows == d.windows);
    assert(ws == d.windows.push(WindowV::MiniGame(g0)));
    let i0 = n - 1;
    assert(ws[i0] == WindowV::MiniGame(g0));
    assert(forall|i: int| 0 <= i < n && i != i0 ==> !((#[trigger] ws[i]) is MiniGame));

    // the freshly spawned game is not yet due for a step, so its first
    // answer does nothing
    assert(!step_due(g0, ctx.now_ms));
    assert(minigame_step_spec(g0, ctx).1 == false);
    assert(pass_action_at(ws, ev, mouse, ctx, i0) != ActionV::HackCompleted);
    assert(!pass_closed_at(ws, ev, mouse, ctx, i0));
    lemma_no_hack_except(ws, ev, mouse, ctx, n, 0, i0);

    lemma_kept_count_single(ws, ev, mouse, ctx, n, i0);
    lemma_spawned_top_no_minigame(ws, ev, mouse, ctx, n, 0);
    lemma_count_concat(
        kept_upto(ws, ev, mouse, ctx, n),
        crate::system::spawned_top(ws, ev, mouse, ctx, n, 0),
    );
    let d3windows = kept_upto(ws, ev, mouse, ctx, n) + crate::system::spawned_top(
        ws,
        ev,
        mouse,
        ctx,
        n,
        0,
    );
    assert(count_minigames(d3windows) == 1);
    let fin = crate::system::tick_spec(d, input).windows;
    if fin == d3windows {
    } else {
        // the login window spawned a pop-up, which is not a mini-game
        assert(fin =~= d3windows.push(fin.last()));
        lemma_count_push(d3windows, fin.last());
    }
}

/// When no window answers with a removal, the pass keeps every window,
/// in order.
pub proof fn lemma_no_close_keeps_all(
    ws: Seq<WindowV>,
    ev: InputEvent,
    mouse: PosV,
    ctx: InputCtx,
    j: int,
)
    requires
        forall|i: int| 0 <= i < j ==> !pass_closed_at(ws, ev, mouse, ctx, i),
    ensures
        kept_upto(ws, ev, mouse, ctx, j).len() == if j >= 0 {
            j
        } else {
            0
        },
        forall|k: int|
            0 <= k < j ==> kept_upto(ws, ev, mouse, ctx, j)[k] == pass_window_at(
                ws,
                ev,
                mouse,
                ctx,
                k,
            ),
    decreases j,
{
    if j <= 0 {
    } else {
        lemma_no_close_keeps_all(ws, ev, mouse, ctx, j - 1);
    }
}

/// A close removes exactly the window that issued it: when window `i0`
/// alone answers with a removal, everything below it keeps its index,
/// everything above it slides down by one, and nothing else is gone.
pub proof fn lemma_close_removes_exactly_issuer(
    ws: Seq<WindowV>,
    ev: InputEvent,
    mouse: PosV,
    ctx: InputCtx,
    j: int,
    i0: int,
)
    requires
        0 <= i0,
        pass_closed_at(ws, ev, mouse, ctx, i0),
        forall|i: int| 0 <= i < j && i != i0 ==> !pass_closed_at(ws, ev, mouse, ctx, i),
    ensures
        kept_upto(ws, ev, mouse, ctx, j).len() == if j > i0 {
            j - 1
        } else if j >= 0 {
            j
        } else {
            0
        },
        forall|k: int|
            0 <= k < j && k < i0 ==> kept_upto(ws, ev, mouse, ctx, j)[k] == pass_window_at(
                ws,
                ev,
                mouse,
                ctx,
                k,
            ),
        forall|k: int|
            i0 <= k < j - 1 ==> kept_upto(ws, ev, mouse, ctx, j)[k] == pass_window_at(
                ws,
                ev,
                mouse,
                ctx,
                k + 1,
            ),
    decreases j,
{
    if j <= 0 {
    } else {
        lemma_close_removes_exactly_issuer(ws, ev, mouse, ctx, j - 1, i0);
    }
}

/// A minimize answer never removes the window: it stays in the pass's
/// output, only no longer visible.
pub proof fn lemma_minimize_only_hides(
    ws: Seq<WindowV>,
    ev: InputEvent,
    mouse: PosV,
    ctx: InputCtx,
    i: int,
)
    requires
        0 <= i < ws.len(),
        pass_action_at(ws, ev, mouse, ctx, i) == ActionV::Minimize,
    ensures
        !pass_closed_at(ws, ev, mouse, ctx, i),
        !window_visible_spec(pass_window_at(ws, ev, mouse, ctx, i)),
{
    let dev = delivered_event_spec(ws, ev, mouse, ctx, i);
    let r = window_handle_input_spec(ws[i], dev, ctx);
    match ws[i] {
        WindowV::Document(_) => {},
        WindowV::DocumentList(_) => {},
        WindowV::Text(_) => {},
        _ => {},
    }
}

} // verus!
