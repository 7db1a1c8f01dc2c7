use vstd::prelude::*;
use crate::error::GameError;
use crate::geometry::{opposite, Heading};

verus! {

/// The heading that a non-empty buffering window yields: the last heading
/// entered, unless it reverses the window's first heading, which is then kept.
pub open spec fn buffered(dirs: Seq<Heading>) -> Heading
    recommends
        dirs.len() > 0,
{
    if dirs.last() == opposite(dirs[0]) {
        dirs[0]
    } else {
        dirs.last()
    }
}

/// The heading that inputs `queue`, entered while `current` was in effect,
/// resolve to.
pub open spec fn resolved(queue: Seq<Heading>, current: Heading) -> Heading {
    if queue.len() == 0 {
        current
    } else if queue.last() == opposite(current) {
        current
    } else {
        queue.last()
    }
}

/// Reduces a buffering window, whose first entry is the heading in effect when
/// the window opened, to the one heading the next tick uses.
pub fn calc_buffered_direction(directions: &Vec<Heading>) -> (r: Result<Heading, GameError>)
    ensures
        directions@.len() == 0 <==> r == Err::<Heading, GameError>(GameError::EmptyState),
        directions@.len() > 0 ==> r == Ok::<Heading, GameError>(buffered(directions@)),
{
    if directions.len() == 0 {
        return Err(GameError::EmptyState);
    }
    let first = directions[0];
    let last = directions[directions.len() - 1];
    if last == first.opposite() {
        Ok(first)
    } else {
        Ok(last)
    }
}

/// Resolves the inputs entered since the last tick against the heading that
/// was in effect then: the latest input wins unless it is a direct reversal.
pub fn resolve(queue: &Vec<Heading>, current: Heading) -> (r: Heading)
    ensures
        r == resolved(queue@, current),
        r == buffered(seq![current] + queue@),
{
    let mut window: Vec<Heading> = Vec::new();
    window.push(current);
    let mut i: usize = 0;
    while i < queue.len()
        invariant
            i <= queue@.len(),
            window@ == seq![current] + queue@.subrange(0, i as int),
        decreases queue@.len() - i,
    {
        window.push(queue[i]);
        i += 1;
    }
    assert(queue@.subrange(0, queue@.len() as int) == queue@);
    match calc_buffered_direction(&window) {
        Ok(h) => h,
        Err(_) => current,
    }
}

/// A reversal entered on its own is refused, and so is one entered after a
/// turn in the same window: the latest input is compared with the heading in
/// effect when the window opened, not with the turn before it.
pub proof fn lemma_no_reversal(current: Heading, turn: Heading)
    ensures
        resolved(seq![opposite(current)], current) == current,
        resolved(seq![turn, opposite(current)], current) == current,
{
}

} // verus!
