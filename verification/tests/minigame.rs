use esc_os::geometry::{Dims, Pos};
use esc_os::input::InputCtx;
use esc_os::minigame::{cells_from_string, Cell, MiniGame, MAP, NUM_OF_CELLS};

fn ctx(now_ms: u64, left: bool, right: bool, up: bool, down: bool) -> InputCtx {
    InputCtx {
        mouse_down: false,
        last_mouse: Pos { x: 0, y: 0 },
        now_ms,
        key_left: left,
        key_right: right,
        key_up: up,
        key_down: down,
        screen: Dims { w: 1920, h: 1080 },
    }
}

fn cell_at(g: &MiniGame, x: usize, y: usize) -> Cell {
    g.cells[y * NUM_OF_CELLS + x]
}

#[test]
fn parses_fixed_template() {
    let (cells, player) = cells_from_string(MAP);
    assert_eq!(cells.len(), 400);
    assert_eq!(player, (1, 13));
    // the borders are obstacles
    for i in 0..20usize {
        assert_eq!(cells[i], Cell::Obstacle);
        assert_eq!(cells[19 * 20 + i], Cell::Obstacle);
        assert_eq!(cells[i * 20], Cell::Obstacle);
        assert_eq!(cells[i * 20 + 19], Cell::Obstacle);
    }
    // exactly five password pieces
    let pieces = cells.iter().filter(|c| **c == Cell::PasswordPiece).count();
    assert_eq!(pieces, 5);
    // the player's start cell parses as empty
    assert_eq!(cells[13 * 20 + 1], Cell::Empty);
}

#[test]
fn fresh_game_moves_right_by_default() {
    let mut g = MiniGame::new(0);
    assert_eq!(g.player_position, (1, 13));
    assert_eq!(g.player_movement, (1, 0));
    assert_eq!(g.keys_collected, 0);
    let done = g.step(&ctx(300, false, false, false, false));
    assert!(!done);
    assert_eq!(g.player_position, (2, 13));
    assert_eq!(cell_at(&g, 2, 13), Cell::Player);
}

#[test]
fn key_priority_left_beats_all() {
    let mut g = MiniGame::new(0);
    // not yet due for a step: only the pending intent changes
    let done = g.step(&ctx(100, true, true, true, true));
    assert!(!done);
    assert_eq!(g.new_movement, (-1, 0));
    assert_eq!(g.player_position, (1, 13));
}

#[test]
fn key_priority_order() {
    let mut g = MiniGame::new(0);
    g.step(&ctx(10, false, true, true, true));
    assert_eq!(g.new_movement, (1, 0));
    g.step(&ctx(20, false, false, true, true));
    assert_eq!(g.new_movement, (0, -1));
    g.step(&ctx(30, false, false, false, true));
    assert_eq!(g.new_movement, (0, 1));
    // with no key pressed the previous intent stands
    g.step(&ctx(40, false, false, false, false));
    assert_eq!(g.new_movement, (0, 1));
}

#[test]
fn wall_hit_resets_game() {
    let mut g = MiniGame::new(0);
    g.keys_collected = 3;
    // moving left from the starting column lands on the border wall
    let done = g.step(&ctx(300, true, false, false, false));
    assert!(!done);
    assert_eq!(g.player_position, (1, 13));
    assert_eq!(g.keys_collected, 0);
    assert_eq!(g.last_update, 300);
}

#[test]
fn out_of_bounds_resets_game() {
    let mut g = MiniGame::new(0);
    // carve the border so the player can stand on column zero
    g.cells[13 * 20] = Cell::Empty;
    g.player_position = (0, 13);
    g.keys_collected = 2;
    let done = g.step(&ctx(300, true, false, false, false));
    assert!(!done);
    // full reset: parsed grid, parsed start, cleared counter
    assert_eq!(g.player_position, (1, 13));
    assert_eq!(g.keys_collected, 0);
    assert_eq!(cell_at(&g, 0, 13), Cell::Obstacle);
}

#[test]
fn collecting_fifth_piece_reveals_finish() {
    let mut g = MiniGame::new(0);
    g.cells = vec![Cell::Empty; 400];
    g.player_position = (5, 5);
    g.cells[5 * 20 + 6] = Cell::PasswordPiece;
    g.keys_collected = 4;
    let done = g.step(&ctx(300, false, true, false, false));
    assert!(!done);
    assert_eq!(g.keys_collected, 5);
    assert_eq!(cell_at(&g, 10, 10), Cell::Finish);
}

#[test]
fn finish_cell_emits_completion() {
    let mut g = MiniGame::new(0);
    g.cells = vec![Cell::Empty; 400];
    g.cells[10 * 20 + 10] = Cell::Finish;
    g.player_position = (9, 10);
    g.keys_collected = 5;
    let done = g.step(&ctx(300, false, true, false, false));
    assert!(done);
}

#[test]
fn restart_returns_to_template() {
    let mut g = MiniGame::new(0);
    g.step(&ctx(300, false, false, false, false));
    g.keys_collected = 4;
    g.restart(700);
    assert_eq!(g.player_position, (1, 13));
    assert_eq!(g.keys_collected, 0);
    assert_eq!(g.last_update, 700);
    assert_eq!(g.player_movement, (1, 0));
}

#[test]
fn step_rate_is_limited() {
    let mut g = MiniGame::new(1000);
    // 200 ms have not elapsed yet
    g.step(&ctx(1100, false, false, false, false));
    assert_eq!(g.player_position, (1, 13));
    // now they have
    g.step(&ctx(1200, false, false, false, false));
    assert_eq!(g.player_position, (2, 13));
}
