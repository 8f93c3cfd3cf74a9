//! The snake itself: its path over the grid, its heading, its score, and
//! the per-frame movement, growth and collision rules.

use vstd::prelude::*;

use crate::food::Food;
use crate::game::{GameMode, Key};
use crate::grid::{
    in_grid, spec_black, spec_greenyellow, spec_white, Cell, Point, Rgb, GRID_CELLS,
    SCREEN_HEIGHT, SCREEN_WIDTH,
};

verus! {

pub open spec fn spec_dir_left() -> Point {
    Point { x: -1i32, y: 0 }
}

/// The unit vector pointing left.
#[verifier::when_used_as_spec(spec_dir_left)]
pub fn dir_left() -> (p: Point)
    ensures
        p == spec_dir_left(),
{
    Point { x: -1, y: 0 }
}

pub open spec fn spec_dir_right() -> Point {
    Point { x: 1, y: 0 }
}

/// The unit vector pointing right.
#[verifier::when_used_as_spec(spec_dir_right)]
pub fn dir_right() -> (p: Point)
    ensures
        p == spec_dir_right(),
{
    Point { x: 1, y: 0 }
}

pub open spec fn spec_dir_up() -> Point {
    Point { x: 0, y: -1i32 }
}

/// The unit vector pointing up (towards smaller row numbers).
#[verifier::when_used_as_spec(spec_dir_up)]
pub fn dir_up() -> (p: Point)
    ensures
        p == spec_dir_up(),
{
    Point { x: 0, y: -1 }
}

pub open spec fn spec_dir_down() -> Point {
    Point { x: 0, y: 1 }
}

/// The unit vector pointing down (towards larger row numbers).
#[verifier::when_used_as_spec(spec_dir_down)]
pub fn dir_down() -> (p: Point)
    ensures
        p == spec_dir_down(),
{
    Point { x: 0, y: 1 }
}

/// True when `d` is one of the four unit direction vectors.
pub open spec fn is_unit_dir(d: Point) -> bool {
    d == spec_dir_left() || d == spec_dir_right() || d == spec_dir_up() || d == spec_dir_down()
}

/// The exact opposite of a unit direction; any other point is its own
/// opposite, which keeps the function total.
pub open spec fn spec_opposite(d: Point) -> Point {
    if d == spec_dir_left() {
        spec_dir_right()
    } else if d == spec_dir_right() {
        spec_dir_left()
    } else if d == spec_dir_up() {
        spec_dir_down()
    } else if d == spec_dir_down() {
        spec_dir_up()
    } else {
        d
    }
}

/// A candidate heading is legal unless it is the exact opposite of the
/// current heading: the snake may never reverse into itself.
pub open spec fn spec_legal_move(dir: Point, candidate: Point) -> bool {
    &&& !(candidate == spec_dir_left() && dir == spec_dir_right())
    &&& !(candidate == spec_dir_right() && dir == spec_dir_left())
    &&& !(candidate == spec_dir_up() && dir == spec_dir_down())
    &&& !(candidate == spec_dir_down() && dir == spec_dir_up())
}

/// Over unit directions, `spec_legal_move` bars exactly the 180-degree
/// reversal: a candidate is rejected if and only if it is the opposite of
/// the current heading.
pub proof fn lemma_legal_move_bars_exactly_reversal(dir: Point, candidate: Point)
    requires
        is_unit_dir(dir),
        is_unit_dir(candidate),
    ensures
        !spec_legal_move(dir, candidate) <==> candidate == spec_opposite(dir),
{
}

/// The initial three-cell path, tail first, head at the end.
pub open spec fn initial_path() -> Seq<Point> {
    seq![Point { x: 0, y: 0 }, Point { x: 1, y: 0 }, Point { x: 2, y: 0 }]
}

/// The state a snake has at game start and after a restart.
pub open spec fn is_initial_snake(s: Snake) -> bool {
    &&& s.path() == initial_path()
    &&& s.direction == spec_dir_right()
    &&& s.score == 0
    &&& s.bg == spec_black()
    &&& s.new_bg_frames_left == 0
    &&& s.body_char == '*'
}

/// The player-controlled path. `snake_path` is ordered tail to head:
/// index 0 is the tail, the last index is the head.
pub struct Snake {
    pub snake_path: Vec<Point>,
    pub direction: Point,
    pub score: u32,
    pub body_char: char,
    pub bg: Rgb,
    pub new_bg_frames_left: i8,
}

impl Snake {
    /// The cells the snake occupies, tail first.
    pub open spec fn path(self) -> Seq<Point> {
        self.snake_path@
    }

    /// The head cell: the last element of the path.
    pub open spec fn head(self) -> Point {
        self.path().last()
    }

    /// Well-formedness: the path is never empty and stays on the grid, the
    /// heading is a unit vector, and the flash countdown is never negative.
    pub open spec fn wf(self) -> bool {
        &&& self.path().len() >= 1
        &&& (forall|i: int|
            0 <= i < self.path().len() ==> in_grid(#[trigger] self.path()[i]))
        &&& is_unit_dir(self.direction)
        &&& self.new_bg_frames_left >= 0
    }

    /// A fresh snake: three cells along the top row, heading right, score
    /// zero, default render state.
    pub fn new() -> (s: Snake)
        ensures
            s.wf(),
            is_initial_snake(s),
    {
        let mut path: Vec<Point> = Vec::new();
        path.push(Point { x: 0, y: 0 });
        path.push(Point { x: 1, y: 0 });
        path.push(Point { x: 2, y: 0 });
        let s = Snake {
            snake_path: path,
            direction: dir_right(),
            score: 0,
            bg: crate::grid::black(),
            new_bg_frames_left: 0,
            body_char: '*',
        };
        proof {
            assert(s.path() =~= initial_path());
        }
        s
    }

    /// The head position.
    pub fn get_snake_head(&self) -> (p: Point)
        requires
            self.path().len() >= 1,
        ensures
            p == self.head(),
    {
        self.snake_path[self.snake_path.len() - 1]
    }

    /// Put the snake back into the state `Snake::new` builds, for a fresh
    /// game after the end screen.
    pub fn restart(&mut self)
        ensures
            final(self).wf(),
            is_initial_snake(*final(self)),
    {
        let mut path: Vec<Point> = Vec::new();
        path.push(Point { x: 0, y: 0 });
        path.push(Point { x: 1, y: 0 });
        path.push(Point { x: 2, y: 0 });
        self.snake_path = path;
        self.direction = dir_right();
        self.score = 0;
        self.bg = crate::grid::black();
        self.new_bg_frames_left = 0;
        self.body_char = '*';
        proof {
            assert(self.path() =~= initial_path());
        }
    }

    /// True when `point` lies on the snake's body, the tail cell excepted:
    /// the tail is about to vacate its cell this frame, so a move onto it
    /// is not a collision.
    pub open spec fn spec_overlap(self, point: Point) -> bool {
        exists|i: int| 1 <= i < self.path().len() && self.path()[i] == point
    }

    /// Scan the path for `point`, skipping the tail cell.
    pub fn overlap(&self, point: Point) -> (r: bool)
        requires
            self.path().len() >= 1,
        ensures
            r == self.spec_overlap(point),
    {
        let mut i: usize = 1;
        let mut found = false;
        while i < self.snake_path.len()
            invariant
                1 <= i <= self.path().len(),
                found == exists|j: int| 1 <= j < i && self.path()[j] == point,
            decreases self.path().len() - i,
        {
            if self.snake_path[i] == point {
                found = true;
                proof {
                    assert(self.path()[i as int] == point);
                }
            }
            i += 1;
        }
        found
    }

    /// Whether a candidate heading may replace the current one.
    pub fn legal_move(&self, point: Point) -> (r: bool)
        ensures
            r == spec_legal_move(self.direction, point),
    {
        let left = dir_left();
        let right = dir_right();
        let up = dir_up();
        let down = dir_down();

        let mut legal = true;

        if point == left && self.direction == right {
            legal = false;
        }

        if point == right && self.direction == left {
            legal = false;
        }

        if point == up && self.direction == down {
            legal = false;
        }

        if point == down && self.direction == up {
            legal = false;
        }

        legal
    }

    /// A cell the head may move into: on the grid and not on the body
    /// (tail cell excepted).
    pub open spec fn spec_can_enter(self, point: Point) -> bool {
        in_grid(point) && !self.spec_overlap(point)
    }

    /// Whether the head may move into `point`.
    pub fn can_enter(&self, point: Point) -> (r: bool)
        requires
            self.path().len() >= 1,
        ensures
            r == self.spec_can_enter(point),
    {
        point.x >= 0 && point.x < SCREEN_WIDTH && point.y >= 0 && point.y < SCREEN_HEIGHT
            && !self.overlap(point)
    }

    /// The glyph drawn at the head, by heading; 'H' is unreachable while
    /// the heading is a unit vector.
    pub open spec fn spec_head_char(dir: Point) -> char {
        if dir == spec_dir_left() {
            '<'
        } else if dir == spec_dir_right() {
            '>'
        } else if dir == spec_dir_down() {
            'v'
        } else if dir == spec_dir_up() {
            '^'
        } else {
            'H'
        }
    }

    /// The directional head glyph.
    pub fn get_head_char(&self) -> (c: char)
        ensures
            c == Self::spec_head_char(self.direction),
    {
        if self.direction == dir_left() {
            return '<';
        }

        if self.direction == dir_right() {
            return '>';
        }

        if self.direction == dir_down() {
            return 'v';
        }

        if self.direction == dir_up() {
            return '^';
        }

        return 'H';
    }

    /// The draw command for one body cell.
    pub open spec fn spec_body_cell(self, p: Point) -> Cell {
        Cell { pos: p, fg: spec_white(), bg: self.bg, glyph: self.body_char }
    }

    /// The draw command for the head cell.
    pub open spec fn spec_head_cell(self) -> Cell {
        Cell {
            pos: self.head(),
            fg: spec_white(),
            bg: self.bg,
            glyph: Self::spec_head_char(self.direction),
        }
    }

    /// Draw commands for the whole snake: one cell per path element, every
    /// element but the head with the body glyph, the head with its
    /// directional glyph.
    pub fn render(&self) -> (cells: Vec<Cell>)
        requires
            self.path().len() >= 1,
        ensures
            cells@ == spec_render_cells(*self),
            cells@.len() == self.path().len(),
            forall|i: int|
                0 <= i < self.path().len() - 1 ==> cells@[i] == self.spec_body_cell(
                    self.path()[i],
                ),
            cells@.last() == self.spec_head_cell(),
    {
        let mut cells: Vec<Cell> = Vec::new();
        let n: usize = self.snake_path.len() - 1;
        let mut i: usize = 0;
        while i < n
            invariant
                n == self.path().len() - 1,
                0 <= i <= n,
                cells@.len() == i,
                forall|j: int|
                    0 <= j < i ==> cells@[j] == self.spec_body_cell(self.path()[j]),
            decreases n - i,
        {
            cells.push(
                Cell {
                    pos: self.snake_path[i],
                    fg: crate::grid::white(),
                    bg: self.bg,
                    glyph: self.body_char,
                },
            );
            i += 1;
        }
        cells.push(
            Cell {
                pos: self.snake_path[n],
                fg: crate::grid::white(),
                bg: self.bg,
                glyph: self.get_head_char(),
            },
        );
        proof {
            assert(cells@ =~= spec_render_cells(*self));
        }
        cells
    }

    /// Advance the path one frame. Without growth every element shifts one
    /// index towards the tail and the new head lands in the last slot; with
    /// growth the path keeps all its cells and the new head is appended, so
    /// the length rises by one.
    pub fn compute_new_position(&mut self, new_head_pos: Point, food_tile: bool)
        requires
            old(self).wf(),
            in_grid(new_head_pos),
        ensures
            final(self).wf(),
            final(self).direction == old(self).direction,
            final(self).score == old(self).score,
            final(self).bg == old(self).bg,
            final(self).body_char == old(self).body_char,
            final(self).new_bg_frames_left == old(self).new_bg_frames_left,
            food_tile ==> final(self).path() == old(self).path().push(new_head_pos),
            !food_tile ==> final(self).path() == old(self).path().subrange(
                1,
                old(self).path().len() as int,
            ).push(new_head_pos),
            !food_tile ==> final(self).path().len() == old(self).path().len(),
            !food_tile ==> final(self).path().last() == new_head_pos,
            !food_tile ==> forall|i: int|
                0 <= i < old(self).path().len() - 1 ==> final(self).path()[i] == old(
                    self,
                ).path()[i + 1],
    {
        if food_tile {
            self.snake_path.push(new_head_pos);
        } else {
            let n: usize = self.snake_path.len() - 1;
            let mut i: usize = 0;
            while i < n
                invariant
                    self.direction == old(self).direction,
                    self.score == old(self).score,
                    self.bg == old(self).bg,
                    self.body_char == old(self).body_char,
                    self.new_bg_frames_left == old(self).new_bg_frames_left,
                    self.path().len() == old(self).path().len(),
                    n == self.path().len() - 1,
                    0 <= i <= n,
                    forall|j: int| 0 <= j < i ==> self.path()[j] == old(self).path()[j + 1],
                    forall|j: int| i <= j < self.path().len() ==> self.path()[j] == old(
                        self,
                    ).path()[j],
                decreases n - i,
            {
                let next = self.snake_path[i + 1];
                self.snake_path[i] = next;
                i += 1;
            }
            self.snake_path[n] = new_head_pos;
            proof {
                assert(self.path() =~= old(self).path().subrange(
                    1,
                    old(self).path().len() as int,
                ).push(new_head_pos));
            }
        }
    }

    /// Pre-move food check against the current head position `point`.
    /// Eating relocates the food off the (pre-move) path and arms the
    /// flash render state; otherwise an armed flash counts down and, once
    /// spent, the default body glyph and background return.
    pub fn entered_food_tile(&mut self, point: Point, food: &mut Food) -> (r: bool)
        requires
            old(self).wf(),
            old(self).path().len() < GRID_CELLS as int,
        ensures
            final(self).wf(),
            r == (point == old(food).position),
            final(self).path() == old(self).path(),
            final(self).direction == old(self).direction,
            final(self).score == old(self).score,
            spec_flash_after(*old(self), *final(self), r),
            r ==> in_grid(final(food).position),
            r ==> !old(self).path().contains(final(food).position),
            !r ==> *final(food) == *old(food),
    {
        if point == food.position {
            food.respawn(self);
            self.bg = crate::grid::greenyellow();
            self.new_bg_frames_left = 15;
            self.body_char = 'X';
            true
        } else {
            if self.new_bg_frames_left == 0 {
                self.bg = crate::grid::black();
                self.body_char = '*';
            } else {
                self.new_bg_frames_left = self.new_bg_frames_left - 1;
            }
            false
        }
    }

    /// One playing-mode frame: take the pending key, move or grow the
    /// snake, and on a blocked move switch the game to the end state.
    pub fn update(&mut self, key: Option<Key>, food: &mut Food, mode: &mut GameMode)
        requires
            old(self).wf(),
            old(self).score < u32::MAX,
            old(self).path().len() < GRID_CELLS as int,
        ensures
            final(self).wf(),
            spec_update(
                *old(self),
                *old(food),
                *old(mode),
                key,
                *final(self),
                *final(food),
                *final(mode),
            ),
    {
        match key {
            Some(k) => {
                let pos_delta: Point = match k {
                    Key::Left => dir_left(),
                    Key::Right => dir_right(),
                    Key::Up => dir_up(),
                    Key::Down => dir_down(),
                    _ => self.direction,
                };

                if self.legal_move(pos_delta) {
                    self.direction = pos_delta;
                }
            },
            None => {},
        }

        let head = self.get_snake_head();
        let new_snake_head = Point {
            x: head.x + self.direction.x,
            y: head.y + self.direction.y,
        };

        if self.can_enter(new_snake_head) {
            let current_head = self.get_snake_head();
            let food_tile = self.entered_food_tile(current_head, food);

            if food_tile {
                self.score = self.score + 1;
            }

            self.compute_new_position(new_snake_head, food_tile);
        } else {
            *mode = GameMode::End;
        }
    }

    /// Key handling of the main menu: P starts a game, Q asks to quit,
    /// anything else is ignored. The menu text itself is plain
    /// presentation and is printed by the caller.
    pub fn menu_render(&self, key: Option<Key>, mode: &mut GameMode) -> (quit: bool)
        ensures
            quit == (key == Some(Key::Q)),
            key == Some(Key::P) ==> *final(mode) == GameMode::Playing,
            key != Some(Key::P) ==> *final(mode) == *old(mode),
    {
        match key {
            Some(Key::P) => {
                *mode = GameMode::Playing;
                false
            },
            Some(Key::Q) => true,
            _ => false,
        }
    }

    /// Key handling of the end screen: P resets the snake and starts a new
    /// game, Q asks to quit, and any other frame leaves score and mode
    /// exactly as they were — calling this again and again without a key
    /// press changes nothing. The end-screen text (with the score
    /// readout) is printed by the caller.
    pub fn end_state_render(&mut self, key: Option<Key>, mode: &mut GameMode) -> (quit: bool)
        ensures
            quit == (key == Some(Key::Q)),
            old(self).wf() ==> final(self).wf(),
            key == Some(Key::P) ==> is_initial_snake(*final(self)),
            key == Some(Key::P) ==> *final(mode) == GameMode::Playing,
            key != Some(Key::P) ==> same_snake(*final(self), *old(self)),
            key != Some(Key::P) ==> *final(mode) == *old(mode),
    {
        match key {
            Some(Key::P) => {
                self.restart();
                *mode = GameMode::Playing;
                false
            },
            Some(Key::Q) => true,
            _ => false,
        }
    }
}

/// The draw commands `Snake::render` emits, as one sequence: body cells
/// tail first, the head cell last.
pub open spec fn spec_render_cells(s: Snake) -> Seq<Cell> {
    Seq::new(
        s.path().len(),
        |i: int|
            if i < s.path().len() - 1 {
                s.spec_body_cell(s.path()[i])
            } else {
                s.spec_head_cell()
            },
    )
}

/// Two snakes that agree in every observable respect: same path, heading,
/// score and render state.
pub open spec fn same_snake(a: Snake, b: Snake) -> bool {
    &&& a.path() == b.path()
    &&& a.direction == b.direction
    &&& a.score == b.score
    &&& a.bg == b.bg
    &&& a.new_bg_frames_left == b.new_bg_frames_left
    &&& a.body_char == b.body_char
}

/// The candidate heading a key asks for; a key that is no arrow leaves
/// the heading as it is.
pub open spec fn spec_key_dir(dir: Point, k: Key) -> Point {
    match k {
        Key::Left => spec_dir_left(),
        Key::Right => spec_dir_right(),
        Key::Up => spec_dir_up(),
        Key::Down => spec_dir_down(),
        _ => dir,
    }
}

/// The heading after input handling: an arrow key turns the snake unless
/// it asks for the exact opposite of the current heading, which is
/// silently ignored.
pub open spec fn spec_next_dir(dir: Point, key: Option<Key>) -> Point {
    match key {
        Some(k) => if spec_legal_move(dir, spec_key_dir(dir, k)) {
            spec_key_dir(dir, k)
        } else {
            dir
        },
        None => dir,
    }
}

/// One step from `head` along the unit vector `d`.
pub open spec fn spec_step(head: Point, d: Point) -> Point {
    Point { x: (head.x + d.x) as i32, y: (head.y + d.y) as i32 }
}

/// The flash render state after one frame: eating arms it (highlight
/// background, 'X' body glyph, 15 frames), an armed flash counts down one
/// frame, and a spent one falls back to the defaults.
pub open spec fn spec_flash_after(pre: Snake, post: Snake, ate: bool) -> bool {
    if ate {
        &&& post.bg == spec_greenyellow()
        &&& post.new_bg_frames_left == 15
        &&& post.body_char == 'X'
    } else if pre.new_bg_frames_left == 0 {
        &&& post.bg == spec_black()
        &&& post.body_char == '*'
        &&& post.new_bg_frames_left == 0
    } else {
        &&& post.bg == pre.bg
        &&& post.body_char == pre.body_char
        &&& post.new_bg_frames_left == pre.new_bg_frames_left - 1
    }
}

/// What one playing-mode frame does, in full. The heading turns first
/// (reversals barred); the head candidate is one step ahead. A candidate
/// the snake may not enter ends the game and changes nothing else. An
/// admissible move eats exactly when the pre-move head stands on the
/// food: then the path keeps every cell and appends the new head, the
/// score rises by one, the food moves to a free cell of the pre-move path
/// and the flash is armed. Without food the path shifts one cell towards
/// the tail, the new head lands in the last slot, and score and food stay
/// as they were.
pub open spec fn spec_update(
    pre: Snake,
    pre_food: Food,
    pre_mode: GameMode,
    key: Option<Key>,
    post: Snake,
    post_food: Food,
    post_mode: GameMode,
) -> bool {
    let d = spec_next_dir(pre.direction, key);
    let nh = spec_step(pre.head(), d);
    let ate = pre.head() == pre_food.position;
    if pre.spec_can_enter(nh) {
        &&& post.direction == d
        &&& post_mode == pre_mode
        &&& spec_flash_after(pre, post, ate)
        &&& (ate ==> post.score == pre.score + 1)
        &&& (ate ==> post.path() == pre.path().push(nh))
        &&& (ate ==> in_grid(post_food.position))
        &&& (ate ==> !pre.path().contains(post_food.position))
        &&& (!ate ==> post.score == pre.score)
        &&& (!ate ==> post.path() == pre.path().subrange(1, pre.path().len() as int).push(nh))
        &&& (!ate ==> post_food == pre_food)
    } else {
        &&& post_mode == GameMode::End
        &&& post.direction == d
        &&& post.path() == pre.path()
        &&& post.score == pre.score
        &&& post.bg == pre.bg
        &&& post.new_bg_frames_left == pre.new_bg_frames_left
        &&& post.body_char == pre.body_char
        &&& post_food == pre_food
    }
}

/// A growth frame, spelled out: when the snake may advance and the
/// pre-move head stands on the food, the path gains exactly one cell, the
/// score exactly one point, and the relocated food lies on no cell of the
/// pre-move path — so on no cell of the new path either, except possibly
/// the new head cell, which is the one cell placement cannot see (it runs
/// before the head advances).
pub proof fn lemma_growth_step_effect(
    pre: Snake,
    pre_food: Food,
    pre_mode: GameMode,
    key: Option<Key>,
    post: Snake,
    post_food: Food,
    post_mode: GameMode,
)
    requires
        spec_update(pre, pre_food, pre_mode, key, post, post_food, post_mode),
        pre.spec_can_enter(spec_step(pre.head(), spec_next_dir(pre.direction, key))),
        pre.head() == pre_food.position,
    ensures
        post.path().len() == pre.path().len() + 1,
        post.score == pre.score + 1,
        !pre.path().contains(post_food.position),
        forall|i: int|
            0 <= i < post.path().len() - 1 ==> post.path()[i] != post_food.position,
{
    let nh = spec_step(pre.head(), spec_next_dir(pre.direction, key));
    assert(post.path() == pre.path().push(nh));
    assert forall|i: int|
        0 <= i < post.path().len() - 1 implies post.path()[i] != post_food.position by {
        assert(post.path()[i] == pre.path()[i]);
        assert(!pre.path().contains(post_food.position));
    }
}

} // verus!
