use vstd::prelude::*;
use crate::error::GameError;
use crate::geometry::{delta, Arena, Cell, Heading};

verus! {

/// Where a head at `c` lands after one step of `size` units along `h`.
pub open spec fn next_head(c: Cell, h: Heading, size: int) -> (int, int) {
    (c.x + delta(h).0 * size, c.y + delta(h).1 * size)
}

/// The cell at a point; meaningful where the point fits in `i32`.
pub open spec fn cell_at(p: (int, int)) -> Cell {
    Cell { x: p.0 as i32, y: p.1 as i32 }
}

/// The segments that follow the new head: all of the old body when the snake
/// grows, all but the old tail otherwise.
pub open spec fn kept_body(s: Seq<Cell>, grows: bool) -> Seq<Cell> {
    if grows {
        s
    } else {
        s.drop_last()
    }
}

/// The outcome of one tick for body `s`, heading `h` and growth flag `grows`:
/// `None` when the snake survives, else the reason it does not.
pub open spec fn failure(s: Seq<Cell>, h: Heading, grows: bool, arena: Arena) -> Option<GameError> {
    let nh = next_head(s[0], h, arena.cell_size as int);
    if !arena.contains_point(nh.0, nh.1) {
        Some(GameError::OutOfBounds)
    } else if kept_body(s, grows).contains(cell_at(nh)) {
        Some(GameError::SelfCollision)
    } else {
        None
    }
}

/// The body after a tick that the snake survives.
pub open spec fn advanced(s: Seq<Cell>, h: Heading, grows: bool, arena: Arena) -> Seq<Cell> {
    seq![cell_at(next_head(s[0], h, arena.cell_size as int))] + kept_body(s, grows)
}

/// Where the head at `current` lands after one step of `size` units along
/// `heading`, in a width that cannot overflow.
pub fn calc_next_head(current: &Cell, heading: Heading, size: u32) -> (r: (i64, i64))
    ensures
        r.0 as int == next_head(*current, heading, size as int).0,
        r.1 as int == next_head(*current, heading, size as int).1,
{
    let x = current.x as i64;
    let y = current.y as i64;
    let d = size as i64;
    match heading {
        Heading::Left => (x - d, y),
        Heading::Right => (x + d, y),
        Heading::Up => (x, y - d),
        Heading::Down => (x, y + d),
    }
}

/// Advances the snake by one cell along `heading`. The new head leads; the old
/// tail is dropped unless `apple_eaten`, in which case the snake grows by one.
/// Fails when the new head leaves the arena or lands on the body.
pub fn anim_snake_head(prev_snake: Vec<Cell>, heading: Heading, apple_eaten: bool, arena: &Arena) -> (r: Result<Vec<Cell>, GameError>)
    requires
        prev_snake@.len() > 0,
        arena.wf(),
    ensures
        ({
            let nh = next_head(prev_snake@[0], heading, arena.cell_size as int);
            &&& r == Err::<Vec<Cell>, GameError>(GameError::OutOfBounds) <==> !arena.contains_point(nh.0, nh.1)
            &&& r == Err::<Vec<Cell>, GameError>(GameError::SelfCollision) <==> (arena.contains_point(nh.0, nh.1)
                && kept_body(prev_snake@, apple_eaten).contains(cell_at(nh)))
        }),
        r is Ok <==> failure(prev_snake@, heading, apple_eaten, *arena) is None,
        r is Err ==> r == Err::<Vec<Cell>, GameError>(failure(prev_snake@, heading, apple_eaten, *arena)->Some_0),
        r is Ok ==> r->Ok_0@ == advanced(prev_snake@, heading, apple_eaten, *arena),
        r is Ok ==> r->Ok_0@.len() == prev_snake@.len() + if apple_eaten { 1int } else { 0int },
{
    let (hx, hy) = calc_next_head(&prev_snake[0], heading, arena.cell_size);
    // out of the arena: at or past a far edge, or before a near edge
    if hx >= arena.x as i64 + arena.width as i64 || hx < arena.x as i64 {
        return Err(GameError::OutOfBounds);
    }
    if hy >= arena.y as i64 + arena.height as i64 || hy < arena.y as i64 {
        return Err(GameError::OutOfBounds);
    }
    let head = Cell { x: hx as i32, y: hy as i32 };
    let ghost nh = next_head(prev_snake@[0], heading, arena.cell_size as int);

    // the tail stays in place when the snake grows
    let keep: usize = if apple_eaten { prev_snake.len() } else { prev_snake.len() - 1 };
    let ghost rest = kept_body(prev_snake@, apple_eaten);
    let mut next_snake: Vec<Cell> = Vec::with_capacity(prev_snake.len());
    next_snake.push(head);
    let mut i: usize = 0;
    while i < keep
        invariant
            keep == rest.len(),
            keep <= prev_snake@.len(),
            rest == prev_snake@.subrange(0, keep as int),
            i <= keep,
            next_snake@ == seq![head] + rest.subrange(0, i as int),
        decreases keep - i,
    {
        next_snake.push(prev_snake[i]);
        i += 1;
    }
    assert(rest.subrange(0, keep as int) == rest);

    // the head may not land on the body
    let mut j: usize = 1;
    while j < next_snake.len()
        invariant
            next_snake@ == seq![head] + rest,
            rest == kept_body(prev_snake@, apple_eaten),
            prev_snake@.len() > 0,
            head == cell_at(nh),
            arena.contains_point(nh.0, nh.1),
            nh == next_head(prev_snake@[0], heading, arena.cell_size as int),
            1 <= j <= next_snake@.len(),
            forall|k: int| 0 <= k < j - 1 ==> rest[k] != head,
        decreases next_snake@.len() - j,
    {
        if next_snake[j] == next_snake[0] {
            assert(rest[j - 1] == head);
            assert(rest.contains(head));
            return Err(GameError::SelfCollision);
        }
        j += 1;
    }
    assert(!rest.contains(head));
    Ok(next_snake)
}

} // verus!
