use vstd::prelude::*;
use rand::rngs::StdRng;
use crate::body::{advanced, anim_snake_head, failure};
use crate::direction::{buffered, calc_buffered_direction};
use crate::error::GameError;
use crate::geometry::{Arena, Cell, Heading, MARGIN, PLAY_AREA_SIZE, SNAKE_SEGMENT_SIZE};
use crate::spawner::{all_free, spawn_apple};

verus! {

/// How many frames pass between two moves of the snake.
pub const TICK_FRAMES: u32 = 5;

/// How far in from the standard arena's corner the snake starts, in units.
pub const START_OFFSET: i32 = 100;

/// Everything one running game holds: the arena, the body (head first), the
/// apple, the headings entered in the current window (the first being the
/// heading in effect when it opened), and the frames counted since the last
/// move.
pub struct GameState {
    pub arena: Arena,
    pub snake: Vec<Cell>,
    pub apple: Cell,
    pub dirs: Vec<Heading>,
    pub frame: u32,
}

impl GameState {
    /// A running game has a well-formed arena, a body, and a heading in effect.
    pub open spec fn wf(&self) -> bool {
        &&& self.arena.wf()
        &&& self.snake@.len() > 0
        &&& self.dirs@.len() > 0
    }

    /// Whether the head stands on the apple as a tick begins. The apple is
    /// judged against the head before it moves, so growth shows one tick
    /// after the head reaches the apple.
    pub open spec fn eats(&self) -> bool {
        self.snake@[0] == self.apple
    }

    /// Starts a game with a one-segment snake at `start`, moving along
    /// `heading`, and an apple on a free cell.
    pub fn new(arena: Arena, start: Cell, heading: Heading, rng: &mut StdRng) -> (r: Result<GameState, GameError>)
        requires
            arena.wf(),
        ensures
            r == Err::<GameState, GameError>(GameError::OutOfBounds) <==> !arena.contains_point(start.x as int, start.y as int),
            r is Err ==> r == Err::<GameState, GameError>(GameError::OutOfBounds) || r == Err::<GameState, GameError>(GameError::NoFreeCell),
            arena.contains_point(start.x as int, start.y as int) && !arena.is_grid_cell(start)
                && arena.columns() > 0 && arena.rows() > 0 ==> r is Ok,
            r is Ok ==> ({
                let g = r->Ok_0;
                &&& g.wf()
                &&& g.arena == arena
                &&& g.snake@ == seq![start]
                &&& g.dirs@ == seq![heading]
                &&& g.frame == 0
                &&& arena.is_grid_cell(g.apple)
                &&& g.apple != start
            }),
    {
        if !arena.contains(start) {
            return Err(GameError::OutOfBounds);
        }
        let snake = vec![start];
        proof {
            if !arena.is_grid_cell(start) {
                assert forall|c: Cell| #[trigger] arena.is_grid_cell(c) implies !snake@.contains(c) by {
                    if snake@.contains(c) {
                        let k = choose|k: int| 0 <= k < snake@.len() && snake@[k] == c;
                        assert(snake@[k] == start);
                    }
                }
                assert(all_free(arena, snake@));
            }
        }
        let apple = match spawn_apple(rng, &arena, &snake) {
            Ok(c) => c,
            Err(e) => {
                return Err(e);
            },
        };
        Ok(GameState { arena, snake, apple, dirs: vec![heading], frame: 0 })
    }

    /// Starts a game in the standard arena, with the snake `START_OFFSET`
    /// units in from its corner on both axes and moving right.
    pub fn standard(rng: &mut StdRng) -> (r: Result<GameState, GameError>)
        ensures
            r is Err ==> r == Err::<GameState, GameError>(GameError::NoFreeCell),
            r is Ok ==> ({
                let g = r->Ok_0;
                &&& g.wf()
                &&& g.arena == (Arena {
                    x: MARGIN,
                    y: MARGIN,
                    width: PLAY_AREA_SIZE,
                    height: PLAY_AREA_SIZE,
                    cell_size: SNAKE_SEGMENT_SIZE,
                })
                &&& g.snake@ == seq![Cell { x: (MARGIN + START_OFFSET) as i32, y: (MARGIN + START_OFFSET) as i32 }]
                &&& g.dirs@ == seq![Heading::Right]
                &&& g.frame == 0
                &&& g.arena.is_grid_cell(g.apple)
                &&& g.apple != g.snake@[0]
            }),
    {
        let arena = Arena::standard();
        let start = Cell { x: MARGIN + START_OFFSET, y: MARGIN + START_OFFSET };
        GameState::new(arena, start, Heading::Right, rng)
    }

    /// Records a heading entered since the last move.
    pub fn push_direction(&mut self, heading: Heading)
        ensures
            final(self).dirs@ == old(self).dirs@.push(heading),
            final(self).arena == old(self).arena,
            final(self).snake == old(self).snake,
            final(self).apple == old(self).apple,
            final(self).frame == old(self).frame,
    {
        self.dirs.push(heading);
    }

    /// Runs one frame. Between moves it only counts the frame. On a move it
    /// resolves the window's headings to one, advances the snake (growing it
    /// when the head stood on the apple), places a new apple after growth,
    /// and opens a new window with the heading taken. A failed move leaves the
    /// state as it was and reports why the game ends.
    pub fn tick(&mut self, rng: &mut StdRng) -> (r: Result<(), GameError>)
        requires
            old(self).wf(),
        ensures
            final(self).wf(),
            final(self).arena == old(self).arena,
            old(self).frame < TICK_FRAMES ==> {
                &&& r is Ok
                &&& final(self).frame == old(self).frame + 1
                &&& final(self).snake@ == old(self).snake@
                &&& final(self).dirs@ == old(self).dirs@
                &&& final(self).apple == old(self).apple
            },
            old(self).frame >= TICK_FRAMES ==> ({
                let s = old(self).snake@;
                let eaten = old(self).eats();
                let h = buffered(old(self).dirs@);
                let f = failure(s, h, eaten, old(self).arena);
                &&& f is Some ==> r == Err::<(), GameError>(f->Some_0) && final(self).snake@ == s
                    && final(self).dirs@ == old(self).dirs@ && final(self).apple == old(self).apple
                    && final(self).frame == old(self).frame
                &&& f is None ==> {
                    &&& final(self).snake@ == advanced(s, h, eaten, old(self).arena)
                    &&& final(self).dirs@ == seq![h]
                    &&& final(self).frame == 0
                    &&& !eaten ==> r is Ok && final(self).apple == old(self).apple
                    &&& eaten && r is Ok ==> final(self).arena.is_grid_cell(final(self).apple)
                        && !final(self).snake@.contains(final(self).apple)
                    &&& eaten && r is Err ==> r == Err::<(), GameError>(GameError::NoFreeCell)
                }
            }),
    {
        if self.frame < TICK_FRAMES {
            self.frame = self.frame + 1;
            return Ok(());
        }
        let eaten = self.snake[0] == self.apple;
        let heading = match calc_buffered_direction(&self.dirs) {
            Ok(h) => h,
            Err(e) => {
                return Err(e);
            },
        };
        let prev = self.snake.clone();
        let next = match anim_snake_head(prev, heading, eaten, &self.arena) {
            Ok(n) => n,
            Err(e) => {
                return Err(e);
            },
        };
        self.snake = next;
        self.dirs = vec![heading];
        self.frame = 0;
        if eaten {
            match spawn_apple(rng, &self.arena, &self.snake) {
                Ok(c) => {
                    self.apple = c;
                },
                Err(e) => {
                    return Err(e);
                },
            }
        }
        Ok(())
    }
}

} // verus!
