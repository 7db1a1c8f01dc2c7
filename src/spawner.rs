use vstd::prelude::*;
use rand::Rng;
use rand::rngs::StdRng;
use crate::error::GameError;
use crate::geometry::{Arena, Cell};

verus! {

#[verifier::external_type_specification]
#[verifier::external_body]
pub struct ExStdRng(rand::rngs::StdRng);

/// How many candidates apple placement draws before it gives up.
pub const SPAWN_ATTEMPTS: u32 = 10000;

/// Relies on rand's `Rng::gen_range` over the half-open range `0..bound`,
/// which returns a value in that range and panics only when it is empty.
#[verifier::external_body]
fn draw_below(rng: &mut StdRng, bound: u32) -> (r: u32)
    requires
        bound > 0,
    ensures
        r < bound,
{
    rng.gen_range(0..bound)
}

/// Whether every whole grid cell of the arena is taken by the snake.
pub open spec fn no_free_cell(arena: Arena, snake: Seq<Cell>) -> bool {
    forall|c: Cell| #[trigger] arena.is_grid_cell(c) ==> snake.contains(c)
}

/// Whether the snake leaves every whole grid cell of the arena free.
pub open spec fn all_free(arena: Arena, snake: Seq<Cell>) -> bool {
    forall|c: Cell| #[trigger] arena.is_grid_cell(c) ==> !snake.contains(c)
}

/// Whether `c` is taken by a segment of the snake.
pub fn is_occupied(snake: &Vec<Cell>, c: Cell) -> (r: bool)
    ensures
        r == snake@.contains(c),
{
    let mut i: usize = 0;
    while i < snake.len()
        invariant
            i <= snake@.len(),
            forall|k: int| 0 <= k < i ==> snake@[k] != c,
        decreases snake@.len() - i,
    {
        if snake[i] == c {
            assert(snake@[i as int] == c);
            return true;
        }
        i += 1;
    }
    false
}

impl Arena {
    /// The cell in column `col` and row `row` of the grid.
    pub fn cell(&self, col: u32, row: u32) -> (r: Cell)
        requires
            self.wf(),
            col < self.columns(),
            row < self.rows(),
        ensures
            (r.x as int, r.y as int) == self.grid_cell(col as int, row as int),
            self.is_grid_cell(r),
    {
        let size = self.cell_size;
        proof {
            lemma_cell_within(col as int, self.width as int, size as int);
            lemma_cell_within(row as int, self.height as int, size as int);
        }
        let dx = col as i64 * size as i64;
        let dy = row as i64 * size as i64;
        Cell { x: (self.x as i64 + dx) as i32, y: (self.y as i64 + dy) as i32 }
    }
}

/// A cell whose index is below the count of whole cells ends inside the extent.
proof fn lemma_cell_within(i: int, extent: int, size: int)
    requires
        size > 0,
        extent >= 0,
        0 <= i < extent / size,
    ensures
        0 <= i * size,
        i * size + size <= extent,
{
    assert(0 <= i * size) by (nonlinear_arith)
        requires
            0 <= i,
            size > 0,
    ;
    assert((extent / size) * size <= extent) by (nonlinear_arith)
        requires
            size > 0,
            extent >= 0,
    ;
    assert(i * size + size <= (extent / size) * size) by (nonlinear_arith)
        requires
            i + 1 <= extent / size,
            size > 0,
    ;
}

/// Judges the candidate cell in column `col` and row `row`: the cell itself
/// when the snake leaves it free, `None` when the snake covers it.
pub fn apple_candidate(arena: &Arena, snake: &Vec<Cell>, col: u32, row: u32) -> (r: Option<Cell>)
    requires
        arena.wf(),
        col < arena.columns(),
        row < arena.rows(),
    ensures
        ({
            let g = arena.grid_cell(col as int, row as int);
            let c = Cell { x: g.0 as i32, y: g.1 as i32 };
            r == if snake@.contains(c) { None } else { Some(c) }
        }),
        r is Some ==> arena.is_grid_cell(r->Some_0) && !snake@.contains(r->Some_0),
        r is None ==> !all_free(*arena, snake@),
{
    let c = arena.cell(col, row);
    if is_occupied(snake, c) {
        None
    } else {
        Some(c)
    }
}

/// Places an apple on a whole grid cell that the snake does not cover,
/// drawing cells uniformly and redrawing covered ones, at most
/// `SPAWN_ATTEMPTS` times. Fails with `NoFreeCell` when no draw was free,
/// and always when the snake covers every cell.
pub fn spawn_apple(rng: &mut StdRng, arena: &Arena, snake: &Vec<Cell>) -> (r: Result<Cell, GameError>)
    requires
        arena.wf(),
    ensures
        r is Ok ==> arena.is_grid_cell(r->Ok_0) && !snake@.contains(r->Ok_0),
        r is Err ==> r == Err::<Cell, GameError>(GameError::NoFreeCell),
        no_free_cell(*arena, snake@) ==> r is Err,
        arena.columns() > 0 && arena.rows() > 0 && all_free(*arena, snake@) ==> r is Ok,
{
    let columns = arena.width / arena.cell_size;
    let rows = arena.height / arena.cell_size;
    if columns == 0 || rows == 0 {
        return Err(GameError::NoFreeCell);
    }
    let mut attempt: u32 = 0;
    while attempt < SPAWN_ATTEMPTS
        invariant
            arena.wf(),
            columns == arena.columns(),
            rows == arena.rows(),
            columns > 0,
            rows > 0,
            all_free(*arena, snake@) ==> attempt == 0,
        decreases SPAWN_ATTEMPTS - attempt,
    {
        let col = draw_below(rng, columns);
        let row = draw_below(rng, rows);
        match apple_candidate(arena, snake, col, row) {
            Some(c) => {
                return Ok(c);
            },
            None => {},
        }
        attempt += 1;
    }
    Err(GameError::NoFreeCell)
}

} // verus!
