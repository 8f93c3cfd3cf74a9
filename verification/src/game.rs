//! The game controller: the menu / playing / end-screen state machine and
//! the per-frame dispatch over it.

use vstd::prelude::*;

use crate::food::Food;
use crate::grid::{in_grid, Cell, GRID_CELLS};
use crate::snake::{
    is_initial_snake, same_snake, spec_render_cells, spec_update, Snake,
};

verus! {

/// Which screen owns the current frame.
#[derive(Clone, Copy, PartialEq, Eq, Structural, Debug)]
pub enum GameMode {
    Menu,
    Playing,
    End,
}

/// The at-most-one key press the display surface hands in per frame.
#[derive(Clone, Copy, PartialEq, Eq, Structural, Debug)]
pub enum Key {
    Left,
    Right,
    Up,
    Down,
    P,
    Q,
    Other,
}

/// What one frame asks of the display surface: draw these cells, and quit
/// if asked to. Screen text (menu and end-screen lines) is plain
/// presentation and stays with the caller.
pub struct Frame {
    pub cells: Vec<Cell>,
    pub quit: bool,
}

/// The whole game: the snake, the food, and the active mode. The
/// controller owns all three; nothing else mutates them.
pub struct State {
    pub snake: Snake,
    pub food: Food,
    pub mode: GameMode,
}

/// What one frame does, by the mode that owns it. Menu and end screen
/// draw nothing of the grid and answer only to P (play) and Q (quit); the
/// end screen on P also resets the snake. A playing frame draws the food
/// and the snake as they stand, then advances the snake one step.
pub open spec fn spec_tick(
    pre: State,
    key: Option<Key>,
    post: State,
    cells: Seq<Cell>,
    quit: bool,
) -> bool {
    match pre.mode {
        GameMode::Menu => {
            &&& same_snake(post.snake, pre.snake)
            &&& post.food == pre.food
            &&& cells.len() == 0
            &&& quit == (key == Some(Key::Q))
            &&& (key == Some(Key::P) ==> post.mode == GameMode::Playing)
            &&& (key != Some(Key::P) ==> post.mode == pre.mode)
        },
        GameMode::End => {
            &&& post.food == pre.food
            &&& cells.len() == 0
            &&& quit == (key == Some(Key::Q))
            &&& (key == Some(Key::P) ==> is_initial_snake(post.snake))
            &&& (key == Some(Key::P) ==> post.mode == GameMode::Playing)
            &&& (key != Some(Key::P) ==> same_snake(post.snake, pre.snake))
            &&& (key != Some(Key::P) ==> post.mode == pre.mode)
        },
        GameMode::Playing => {
            &&& cells == seq![pre.food.spec_cell()] + spec_render_cells(pre.snake)
            &&& quit == false
            &&& spec_update(
                pre.snake,
                pre.food,
                pre.mode,
                key,
                post.snake,
                post.food,
                post.mode,
            )
        },
    }
}

impl State {
    /// Well-formedness of the whole game: a well-formed snake and food on
    /// the field.
    pub open spec fn wf(self) -> bool {
        &&& self.snake.wf()
        &&& in_grid(self.food.position)
    }

    /// A fresh game: initial snake, random food, main menu.
    pub fn new() -> (s: State)
        ensures
            s.wf(),
            is_initial_snake(s.snake),
            s.mode == GameMode::Menu,
    {
        State { snake: Snake::new(), food: Food::new(), mode: GameMode::Menu }
    }

    /// One frame: dispatch on the active mode, hand back the draw
    /// commands and the quit answer.
    pub fn tick(&mut self, key: Option<Key>) -> (frame: Frame)
        requires
            old(self).wf(),
            old(self).snake.score < u32::MAX,
            old(self).snake.path().len() < GRID_CELLS as int,
        ensures
            final(self).wf(),
            spec_tick(*old(self), key, *final(self), frame.cells@, frame.quit),
    {
        match self.mode {
            GameMode::Menu => {
                let quit = self.snake.menu_render(key, &mut self.mode);
                Frame { cells: Vec::new(), quit }
            },
            GameMode::End => {
                let quit = self.snake.end_state_render(key, &mut self.mode);
                Frame { cells: Vec::new(), quit }
            },
            GameMode::Playing => {
                let mut cells: Vec<Cell> = Vec::new();
                cells.push(self.food.render());
                let mut snake_cells = self.snake.render();
                cells.append(&mut snake_cells);
                proof {
                    assert(cells@ =~= seq![old(self).food.spec_cell()] + spec_render_cells(
                        old(self).snake,
                    ));
                }
                self.snake.update(key, &mut self.food, &mut self.mode);
                Frame { cells, quit: false }
            },
        }
    }
}

} // verus!
