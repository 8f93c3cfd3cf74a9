use matopeli::game::{GameMode, Key, State};
use matopeli::grid::Point;
use matopeli::snake::{dir_right, Snake};

#[test]
fn new_game_starts_in_the_menu() {
    let state = State::new();
    assert!(matches!(state.mode, GameMode::Menu));
    assert_eq!(state.snake.score, 0);
    assert_eq!(state.snake.snake_path.len(), 3);
}

#[test]
fn menu_p_starts_the_game() {
    let snake = Snake::new();
    let mut mode = GameMode::Menu;
    let quit = snake.menu_render(Some(Key::P), &mut mode);
    assert!(!quit);
    assert!(matches!(mode, GameMode::Playing));
}

#[test]
fn menu_q_asks_to_quit() {
    let snake = Snake::new();
    let mut mode = GameMode::Menu;
    let quit = snake.menu_render(Some(Key::Q), &mut mode);
    assert!(quit);
    assert!(matches!(mode, GameMode::Menu));
}

#[test]
fn menu_ignores_other_keys() {
    let snake = Snake::new();
    let mut mode = GameMode::Menu;
    assert!(!snake.menu_render(Some(Key::Other), &mut mode));
    assert!(matches!(mode, GameMode::Menu));
    assert!(!snake.menu_render(None, &mut mode));
    assert!(matches!(mode, GameMode::Menu));
}

#[test]
fn end_screen_without_a_key_changes_nothing_however_often() {
    let mut snake = Snake::new();
    snake.score = 7;
    let mut mode = GameMode::End;
    for _ in 0..10 {
        let quit = snake.end_state_render(None, &mut mode);
        assert!(!quit);
        assert_eq!(snake.score, 7);
        assert!(matches!(mode, GameMode::End));
    }
    // An unmapped key is just as inert.
    for _ in 0..10 {
        let quit = snake.end_state_render(Some(Key::Other), &mut mode);
        assert!(!quit);
        assert_eq!(snake.score, 7);
        assert!(matches!(mode, GameMode::End));
    }
}

#[test]
fn end_screen_p_resets_and_restarts() {
    let mut snake = Snake::new();
    snake.score = 7;
    snake.snake_path.push(Point { x: 3, y: 0 });
    let mut mode = GameMode::End;
    let quit = snake.end_state_render(Some(Key::P), &mut mode);
    assert!(!quit);
    assert!(matches!(mode, GameMode::Playing));
    assert_eq!(snake.score, 0);
    assert_eq!(snake.snake_path, vec![
        Point { x: 0, y: 0 },
        Point { x: 1, y: 0 },
        Point { x: 2, y: 0 },
    ]);
    assert_eq!(snake.direction, dir_right());
}

#[test]
fn end_screen_q_asks_to_quit() {
    let mut snake = Snake::new();
    let mut mode = GameMode::End;
    assert!(snake.end_state_render(Some(Key::Q), &mut mode));
    assert!(matches!(mode, GameMode::End));
}

#[test]
fn tick_runs_a_whole_frame_cycle() {
    let mut state = State::new();
    // Menu frame: no grid cells, P starts the game.
    let frame = state.tick(Some(Key::P));
    assert!(frame.cells.is_empty());
    assert!(!frame.quit);
    assert!(matches!(state.mode, GameMode::Playing));

    // Pin the food somewhere off the snake's way, then play one frame:
    // one food cell plus three snake cells, and the snake advances.
    state.food.position = Point { x: 40, y: 25 };
    let frame = state.tick(None);
    assert_eq!(frame.cells.len(), 4);
    assert_eq!(frame.cells[0].glyph, 'F');
    assert_eq!(frame.cells[0].pos, Point { x: 40, y: 25 });
    // The snake cells show the pre-move path, body first, head last.
    assert_eq!(frame.cells[1].pos, Point { x: 0, y: 0 });
    assert_eq!(frame.cells[1].glyph, '*');
    assert_eq!(frame.cells[3].pos, Point { x: 2, y: 0 });
    assert_eq!(frame.cells[3].glyph, '>');
    assert_eq!(state.snake.snake_path, vec![
        Point { x: 1, y: 0 },
        Point { x: 2, y: 0 },
        Point { x: 3, y: 0 },
    ]);

    // Crash into the right wall, then the end screen answers to Q.
    for _ in 0..77 {
        state.food.position = Point { x: 40, y: 25 };
        state.tick(None);
    }
    assert!(matches!(state.mode, GameMode::End));
    let frame = state.tick(Some(Key::Q));
    assert!(frame.quit);
}

#[test]
fn render_uses_directional_head_glyphs() {
    let mut snake = Snake::new();
    let cells = snake.render();
    assert_eq!(cells.len(), 3);
    assert_eq!(cells[0].glyph, '*');
    assert_eq!(cells[1].glyph, '*');
    assert_eq!(cells[2].glyph, '>');
    assert_eq!(cells[2].pos, Point { x: 2, y: 0 });

    snake.direction = matopeli::snake::dir_up();
    assert_eq!(snake.render()[2].glyph, '^');
    snake.direction = matopeli::snake::dir_down();
    assert_eq!(snake.render()[2].glyph, 'v');
    snake.direction = matopeli::snake::dir_left();
    assert_eq!(snake.render()[2].glyph, '<');
    assert_eq!(snake.get_head_char(), '<');
}

#[test]
fn food_renders_as_white_f_on_black() {
    let food = matopeli::food::Food { position: Point { x: 7, y: 8 } };
    let cell = food.render();
    assert_eq!(cell.glyph, 'F');
    assert_eq!(cell.pos, Point { x: 7, y: 8 });
    assert_eq!(cell.fg, matopeli::grid::white());
    assert_eq!(cell.bg, matopeli::grid::black());
}
