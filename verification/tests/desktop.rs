use esc_os::document::DocumentWindow;
use esc_os::geometry::{Dims, Pos};
use esc_os::input::{compute_event, FrameInput, InputEvent};
use esc_os::minigame::{Cell, MiniGame};
use esc_os::popup::PopUp;
use esc_os::system::{dock_hit, dock_layout, EscOS, HackStatus};
use esc_os::text::TextWindow;
use esc_os::windows::{IconKind, Window};

const SCREEN: Dims = Dims { w: 1920, h: 1080 };

fn quiet_frame(now_ms: u64) -> FrameInput {
    FrameInput {
        now_ms,
        mouse: Pos { x: 0, y: 0 },
        mouse_pressed: false,
        mouse_down: false,
        scroll: 0,
        key_left: false,
        key_right: false,
        key_up: false,
        key_down: false,
        screen: SCREEN,
        usb_content: None,
    }
}

fn click_frame(now_ms: u64, x: i64, y: i64) -> FrameInput {
    FrameInput {
        mouse: Pos { x, y },
        mouse_pressed: true,
        ..quiet_frame(now_ms)
    }
}

#[test]
fn event_priority_press_over_hold_over_scroll() {
    let mut f = quiet_frame(0);
    f.mouse_pressed = true;
    f.mouse_down = true;
    f.scroll = 3;
    assert_eq!(compute_event(&f), InputEvent::LeftMouse(Pos { x: 0, y: 0 }, false));
    f.mouse_pressed = false;
    assert_eq!(compute_event(&f), InputEvent::LeftMouse(Pos { x: 0, y: 0 }, true));
    f.mouse_down = false;
    assert_eq!(compute_event(&f), InputEvent::Scroll(3));
    f.scroll = 0;
    assert_eq!(compute_event(&f), InputEvent::Idle);
}

#[test]
fn top_left_is_position_less_half_size() {
    let t = TextWindow::new(SCREEN);
    let w = Window::Text(t);
    let pos = w.position(SCREEN);
    let tl = w.top_left(SCREEN);
    let size = w.size();
    assert_eq!(pos, Pos { x: 960, y: 756 });
    assert_eq!(tl.x, pos.x - (size.w / 2) as i64);
    assert_eq!(tl.y, pos.y - (size.h / 2) as i64);

    let d = DocumentWindow::new_boxed("report".to_string(), 800, 2000, SCREEN);
    let pos = d.position(SCREEN);
    let tl = d.top_left(SCREEN);
    let size = d.size();
    assert_eq!(size, Dims { w: 805, h: 935 });
    assert_eq!(tl.x, pos.x - (size.w / 2) as i64);
    assert_eq!(tl.y, pos.y - (size.h / 2) as i64);

    let g = Window::MiniGame(MiniGame::new(0));
    let pos = g.position(SCREEN);
    let tl = g.top_left(SCREEN);
    assert_eq!(tl, Pos { x: 200, y: 180 });
    assert_eq!(pos, Pos { x: 602, y: 582 });
}

#[test]
fn popup_recenters_on_current_screen() {
    let p = PopUp::new_with_text("hello".to_string(), SCREEN);
    assert_eq!(p.position(), Pos { x: 960 - 350, y: 540 - 100 });
    // queried against other screen dimensions, the corner follows them
    let small = Dims { w: 800, h: 600 };
    assert_eq!(p.top_left(small), Pos { x: 400 - 350, y: 300 - 100 });
}

#[test]
fn click_reaches_only_topmost_window() {
    let mut os = EscOS::new("secret".to_string(), 0);
    let mut low = PopUp::new_with_text("low".to_string(), SCREEN);
    let mut top = PopUp::new_with_text("top".to_string(), SCREEN);
    low.record_close_clicked(true);
    top.record_close_clicked(true);
    os.windows.push(Window::PopUp(low));
    os.windows.push(Window::PopUp(top));
    // both overlap the screen centre; the click lands there
    os.tick(&click_frame(0, 960, 540));
    // only the topmost received the click, so only it closed
    assert_eq!(os.window_count(), 1);
    match &os.windows[0] {
        Window::PopUp(p) => assert_eq!(p.text().as_str(), "low"),
        _ => panic!("expected the lower pop-up to survive"),
    }
}

#[test]
fn close_removes_exactly_the_issuer() {
    let mut os = EscOS::new("secret".to_string(), 0);
    let mut low = PopUp::new_with_text("low".to_string(), SCREEN);
    low.record_close_clicked(true);
    os.windows.push(Window::PopUp(low));
    os.windows.push(Window::Text(TextWindow::new(SCREEN)));
    // click inside the pop-up but outside the text window: the pop-up
    // is below the text window in z-order, but the text window does
    // not contain the point, so the pop-up captures the click
    os.tick(&click_frame(0, 620, 450));
    assert_eq!(os.window_count(), 1);
    assert!(matches!(os.windows[0], Window::Text(_)));
}

#[test]
fn minimize_hides_but_keeps_window() {
    let mut os = EscOS::new("secret".to_string(), 0);
    let mut t = TextWindow::new(SCREEN);
    t.record_minimize_size(Dims { w: 64, h: 64 });
    os.windows.push(Window::Text(t));
    // the minimize hotspot of the text window on this screen
    os.tick(&click_frame(0, 1170, 441));
    assert_eq!(os.window_count(), 1);
    assert!(!os.windows[0].is_visible());
}

#[test]
fn hidden_window_ignores_clicks() {
    let mut os = EscOS::new("secret".to_string(), 0);
    let mut t = TextWindow::new(SCREEN);
    t.record_minimize_size(Dims { w: 64, h: 64 });
    t.set_visibility(false);
    os.windows.push(Window::Text(t));
    os.tick(&click_frame(0, 1170, 441));
    assert_eq!(os.window_count(), 1);
    assert!(!os.windows[0].is_visible());
}

#[test]
fn set_visibility_false_is_idempotent() {
    let mut t = Window::Text(TextWindow::new(SCREEN));
    t.set_visibility(false);
    assert!(!t.is_visible());
    t.set_visibility(false);
    assert!(!t.is_visible());
}

#[test]
fn toggling_twice_restores_visibility() {
    let mut t = Window::Text(TextWindow::new(SCREEN));
    let before = t.is_visible();
    let v = t.is_visible();
    t.set_visibility(!v);
    let v = t.is_visible();
    t.set_visibility(!v);
    assert_eq!(t.is_visible(), before);

    // a pop-up ignores visibility changes and stays visible throughout
    let mut p = Window::PopUp(PopUp::new_with_text("x".to_string(), SCREEN));
    let before = p.is_visible();
    let v = p.is_visible();
    p.set_visibility(!v);
    let v = p.is_visible();
    p.set_visibility(!v);
    assert_eq!(p.is_visible(), before);
    assert!(p.is_visible());
}

#[test]
fn dragging_moves_window_by_pointer_delta() {
    let mut os = EscOS::new("secret".to_string(), 0);
    os.windows.push(Window::Text(TextWindow::new(SCREEN)));
    os.last_mouse = Pos { x: 800, y: 420 };
    let mut f = quiet_frame(0);
    f.mouse = Pos { x: 810, y: 430 };
    f.mouse_down = true;
    os.tick(&f);
    assert_eq!(os.windows[0].position(SCREEN), Pos { x: 970, y: 766 });
    // the pointer position is remembered for the next frame's delta
    assert_eq!(os.last_mouse, Pos { x: 810, y: 430 });
}

#[test]
fn scrolling_clamps_to_document() {
    let mut os = EscOS::new("secret".to_string(), 0);
    os.windows.push(DocumentWindow::new_boxed("report".to_string(), 800, 2000, SCREEN));
    let mut f = quiet_frame(0);
    f.mouse = Pos { x: 960, y: 540 };
    f.scroll = -2;
    os.tick(&f);
    match &os.windows[0] {
        Window::Document(d) => assert_eq!(d.vertical_offset(), 70),
        _ => panic!("expected the document window"),
    }
    // scrolling up beyond the top clamps at zero
    let mut f = quiet_frame(10);
    f.mouse = Pos { x: 960, y: 540 };
    f.scroll = 100;
    os.tick(&f);
    match &os.windows[0] {
        Window::Document(d) => assert_eq!(d.vertical_offset(), 0),
        _ => panic!("expected the document window"),
    }
}

#[test]
fn usb_detection_takes_the_secret_and_the_poll_interval() {
    let mut os = EscOS::new("secret".to_string(), 0);
    // a matching read before the poll interval has elapsed does nothing
    let mut f = quiet_frame(500);
    f.usb_content = Some("secret".to_string());
    os.tick(&f);
    assert_eq!(os.hack_status(), HackStatus::NoUSB);
    assert_eq!(os.window_count(), 0);
    // the wrong content does not advance the puzzle either
    let mut f = quiet_frame(1100);
    f.usb_content = Some("wrong".to_string());
    os.tick(&f);
    assert_eq!(os.hack_status(), HackStatus::NoUSB);
    // the secret after the interval is detected and a pop-up appears
    assert!(os.usb_poll_due(2200));
    let mut f = quiet_frame(2200);
    f.usb_content = Some("secret".to_string());
    os.tick(&f);
    assert_eq!(os.hack_status(), HackStatus::USBOpened(2200));
    assert_eq!(os.window_count(), 1);
    match &os.windows[0] {
        Window::PopUp(p) => assert_eq!(p.text().as_str(), "Hack in progress!"),
        _ => panic!("expected the detection pop-up"),
    }
}

#[test]
fn minigame_spawns_after_reveal_delay() {
    let mut os = EscOS::new("secret".to_string(), 0);
    let mut f = quiet_frame(1000);
    f.usb_content = Some("secret".to_string());
    os.tick(&f);
    assert_eq!(os.hack_status(), HackStatus::USBOpened(1000));
    // two seconds have not yet fully passed
    os.tick(&quiet_frame(3000));
    assert_eq!(os.hack_status(), HackStatus::USBOpened(1000));
    assert_eq!(os.window_count(), 1);
    // once they have, exactly one mini-game window is appended
    os.tick(&quiet_frame(3001));
    assert_eq!(os.hack_status(), HackStatus::Minigame);
    assert_eq!(os.window_count(), 2);
    let games = os.windows.iter().filter(|w| matches!(w, Window::MiniGame(_))).count();
    assert_eq!(games, 1);
}

#[test]
fn hack_completion_unlocks_and_opens_documents() {
    let mut os = EscOS::new("secret".to_string(), 0);
    let mut g = MiniGame::new(0);
    g.cells = vec![Cell::Empty; 400];
    g.cells[10 * 20 + 10] = Cell::Finish;
    g.player_position = (9, 10);
    os.windows.push(Window::MiniGame(g));
    os.hack_status = HackStatus::Minigame;
    assert!(!os.is_unlocked());
    os.tick(&quiet_frame(300));
    assert!(os.is_unlocked());
    assert_eq!(os.hack_status(), HackStatus::Completed);
    // the mini-game is gone; the pop-up and the document browser came
    assert_eq!(os.window_count(), 2);
    match &os.windows[0] {
        Window::PopUp(p) => assert_eq!(p.text().as_str(), "Hack completed!"),
        _ => panic!("expected the completion pop-up"),
    }
    assert!(matches!(os.windows[1], Window::DocumentList(_)));
}

#[test]
fn locked_login_click_spawns_denial_popup() {
    let mut os = EscOS::new("secret".to_string(), 0);
    os.login_window.record_login_clicked(true);
    os.tick(&click_frame(0, 900, 600));
    assert_eq!(os.window_count(), 1);
    match &os.windows[0] {
        Window::PopUp(p) => {
            assert_eq!(p.text().as_str(), "Error:\nLogin is disabled during emergency\nprotocol!")
        },
        _ => panic!("expected the denial pop-up"),
    }
}

#[test]
fn unlocked_desktop_skips_login_window() {
    let mut os = EscOS::new("secret".to_string(), 0);
    os.login_window.record_login_clicked(true);
    os.is_unlocked = true;
    os.tick(&click_frame(0, 900, 600));
    assert_eq!(os.window_count(), 0);
}

#[test]
fn dock_lists_icons_regardless_of_visibility() {
    let mut os = EscOS::new("secret".to_string(), 0);
    os.windows.push(Window::Text(TextWindow::new(SCREEN)));
    os.windows.push(Window::PopUp(PopUp::new_with_text("x".to_string(), SCREEN)));
    os.windows.push(DocumentWindow::new_boxed("report".to_string(), 800, 2000, SCREEN));
    assert_eq!(os.dock_indices(), vec![0, 1, 2]);
    assert_eq!(os.windows[0].icon(), Some(IconKind::Document));
    assert_eq!(os.windows[1].icon(), Some(IconKind::Popup));
    // hiding a window does not remove its dock entry
    os.dock_click(0);
    assert!(!os.windows[0].is_visible());
    assert_eq!(os.dock_indices(), vec![0, 1, 2]);
    // clicking again shows it again, in the same place
    os.dock_click(0);
    assert!(os.windows[0].is_visible());
}

#[test]
fn dock_geometry_and_hit_testing() {
    let (left, top, width, height) = dock_layout(2, SCREEN);
    assert_eq!((left, top, width, height), (880, 984, 160, 80));
    assert_eq!(dock_hit(2, SCREEN, Pos { x: 900, y: 1000 }), Some(0));
    assert_eq!(dock_hit(2, SCREEN, Pos { x: 1000, y: 1000 }), Some(1));
    assert_eq!(dock_hit(2, SCREEN, Pos { x: 879, y: 1000 }), None);
    assert_eq!(dock_hit(2, SCREEN, Pos { x: 900, y: 983 }), None);
    assert_eq!(dock_hit(0, SCREEN, Pos { x: 900, y: 1000 }), None);
}
