//! The food item: one reusable object that is relocated, never destroyed,
//! and always lands on a cell free of the snake.

use vstd::prelude::*;

use crate::grid::{in_grid, spec_black, spec_white, Cell, Point, GRID_CELLS, SCREEN_WIDTH};
use crate::snake::Snake;

verus! {

/// Where a grid point stands in a row-major sweep of the field.
pub open spec fn spec_cell_index(p: Point) -> int {
    p.y * (SCREEN_WIDTH as int) + p.x
}

/// The grid point at position `k` of a row-major sweep of the field.
pub open spec fn spec_cell_at(k: int) -> Point {
    Point {
        x: (k % (SCREEN_WIDTH as int)) as i32,
        y: (k / (SCREEN_WIDTH as int)) as i32,
    }
}

/// A path with fewer cells than the grid cannot cover every cell: some
/// grid cell is free of the snake. This is what makes food placement
/// possible at all.
pub proof fn lemma_short_path_misses_a_cell(path: Seq<Point>)
    requires
        path.len() < GRID_CELLS as int,
    ensures
        exists|p: Point| in_grid(p) && !path.contains(p),
{
    broadcast use vstd::seq_lib::seq_to_set_is_finite;

    let encs = path.map(|i: int, p: Point| spec_cell_index(p));
    let covered = encs.to_set();
    encs.lemma_cardinality_of_set();
    if !(exists|p: Point| in_grid(p) && !path.contains(p)) {
        assert forall|k: int| 0 <= k < GRID_CELLS as int implies covered.contains(k) by {
            let p = spec_cell_at(k);
            assert(0 <= k % 80 < 80);
            assert(0 <= k / 80 < 50) by (nonlinear_arith)
                requires
                    0 <= k < 4000,
            ;
            assert(in_grid(p));
            assert(path.contains(p));
            let i = choose|i: int| 0 <= i < path.len() && path[i] == p;
            vstd::arithmetic::div_mod::lemma_fundamental_div_mod(k, 80);
            assert(spec_cell_index(p) == k);
            assert(encs[i] == k);
            assert(encs.contains(k));
        }
        assert(vstd::set_lib::set_int_range(0, GRID_CELLS as int).subset_of(covered));
        vstd::set_lib::lemma_int_range(0, GRID_CELLS as int);
        vstd::set_lib::lemma_len_subset(
            vstd::set_lib::set_int_range(0, GRID_CELLS as int),
            covered,
        );
        assert(false);
    }
}

/// The single food item on the field.
#[derive(Clone, Copy, PartialEq, Eq, Structural, Debug)]
pub struct Food {
    pub position: Point,
}

impl Food {
    /// A food item at a uniformly random position on the field. The start
    /// position is not checked against the snake; every later placement is
    /// (see `respawn`).
    pub fn new() -> (f: Food)
        ensures
            in_grid(f.position),
    {
        Food { position: crate::rng::random_point() }
    }

    /// The draw command for the food: 'F', white on black.
    pub open spec fn spec_cell(self) -> Cell {
        Cell { pos: self.position, fg: spec_white(), bg: spec_black(), glyph: 'F' }
    }

    /// Draw command for the food glyph at its current position.
    pub fn render(&self) -> (c: Cell)
        ensures
            c == self.spec_cell(),
    {
        Cell {
            pos: self.position,
            fg: crate::grid::white(),
            bg: crate::grid::black(),
            glyph: 'F',
        }
    }

    /// Scan the snake's whole path, head and tail included, for `point`:
    /// food placement avoids every cell the snake stands on.
    pub fn overlap_with_snake(&self, point: Point, snake: &Snake) -> (r: bool)
        ensures
            r == snake.path().contains(point),
    {
        let mut i: usize = 0;
        let mut found = false;
        while i < snake.snake_path.len()
            invariant
                0 <= i <= snake.path().len(),
                found ==> snake.path().contains(point),
                !found ==> forall|j: int| 0 <= j < i ==> snake.path()[j] != point,
            decreases snake.path().len() - i,
        {
            if snake.snake_path[i] == point {
                found = true;
                proof {
                    assert(snake.path()[i as int] == point);
                }
            }
            i += 1;
        }
        found
    }

    /// Move the food to a cell the snake does not stand on: uniformly
    /// random draws first, and, should every draw land on the snake, a
    /// deterministic row-major sweep of the field. The sweep cannot come
    /// up empty, since the path is shorter than the grid.
    pub fn respawn(&mut self, snake: &Snake)
        requires
            snake.path().len() < GRID_CELLS as int,
        ensures
            in_grid(final(self).position),
            !snake.path().contains(final(self).position),
    {
        let mut tries: u32 = 0;
        while tries < 4096
            invariant
                tries <= 4096,
            decreases 4096 - tries,
        {
            let point = crate::rng::random_point();
            if !self.overlap_with_snake(point, snake) {
                self.position = point;
                return;
            }
            tries += 1;
        }
        let mut k: u32 = 0;
        while k < 4000
            invariant
                0 <= k <= 4000,
                forall|j: int| 0 <= j < k ==> snake.path().contains(spec_cell_at(j)),
            decreases 4000 - k,
        {
            let point = Point { x: (k % 80) as i32, y: (k / 80) as i32 };
            if !self.overlap_with_snake(point, snake) {
                self.position = point;
                return;
            }
            proof {
                assert(point == spec_cell_at(k as int));
            }
            k += 1;
        }
        proof {
            lemma_short_path_misses_a_cell(snake.path());
            let p = choose|p: Point| in_grid(p) && !snake.path().contains(p);
            let e = spec_cell_index(p);
            assert(0 <= e < 4000);
            vstd::arithmetic::div_mod::lemma_fundamental_div_mod_converse(
                e,
                80,
                p.y as int,
                p.x as int,
            );
            assert(spec_cell_at(e) == p);
            assert(snake.path().contains(p));
            assert(false);
        }
    }
}

} // verus!
