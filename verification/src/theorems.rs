//! What holds of every session and every snake, proved from the definitions
//! that the contracts of `snake` and `game` use.

use crate::game::{GameView, Key, RESTART_TIME};
use crate::snake::{adjacent, Direction, SnakeView};
use vstd::prelude::*;

verus! {

/// A move that is accepted puts the head on the cell that `next_head` gave
/// before it and does not end the run. The body is as long as before, or
/// one cell longer if the food lay on that cell.
pub proof fn accepted_move_advances_head(g: GameView, dir: Option<Direction>)
    requires
        g.valid(),
        g.alive(dir),
    ensures
        g.stepped(dir).snake.head() == g.snake.next_head(dir),
        g.stepped(dir).game_over == g.game_over,
        g.stepped(dir).waiting_time == 0,
        g.food == Some(g.snake.next_head(dir)) ==> g.stepped(dir).snake.body.len()
            == g.snake.body.len() + 1,
        g.food != Some(g.snake.next_head(dir)) ==> g.stepped(dir).snake.body.len()
            == g.snake.body.len(),
{
}

/// A key that asks the snake to turn back on itself changes nothing: not the
/// heading, not the body, nor anything else of the session.
pub proof fn reversal_is_dropped(g: GameView, key: Key)
    requires
        key.bound() == Some(g.snake.direction.reversed()),
    ensures
        g.pressed(key) == g,
{
}

/// A key that asks for no heading changes nothing, and no key changes
/// anything once the run has ended.
pub proof fn idle_keys_are_dropped(g: GameView, key: Key)
    requires
        key.bound() is None || g.game_over,
    ensures
        g.pressed(key) == g,
{
}

/// Of a body of two cells or more, `overlaps` holds of every cell but the
/// last, and of no cell outside the body.
pub proof fn overlap_covers_all_but_last(s: SnakeView, c: (int, int))
    requires
        s.body.len() >= 2,
    ensures
        forall|i: int| 0 <= i < s.body.len() - 1 ==> s.overlaps(#[trigger] s.body[i]),
        !s.body.contains(c) ==> !s.overlaps(c),
{
    assert forall|i: int| 0 <= i < s.body.len() - 1 implies s.overlaps(#[trigger] s.body[i]) by {
        assert(s.body.drop_last()[i] == s.body[i]);
    }
    if s.overlaps(c) {
        let i = choose|i: int| 0 <= i < s.body.drop_last().len() && s.body.drop_last()[i] == c;
        assert(s.body[i] == c);
    }
}

/// `overlaps` does not hold of the last cell, where no cell before it lies
/// on the same place.
pub proof fn overlap_leaves_last_out(s: SnakeView)
    requires
        s.body.len() >= 1,
        forall|i: int| 0 <= i < s.body.len() - 1 ==> s.body[i] != s.body.last(),
    ensures
        !s.overlaps(s.body.last()),
{
    if s.overlaps(s.body.last()) {
        let i = choose|i: int|
            0 <= i < s.body.drop_last().len() && s.body.drop_last()[i] == s.body.last();
        assert(s.body[i] == s.body.last());
    }
}

/// A step onto the border or beyond it ends the run, and the snake stays
/// exactly as it was.
pub proof fn leaving_the_board_ends_the_run(g: GameView, dir: Option<Direction>)
    requires
        ({
            let next = g.snake.next_head(dir);
            next.0 <= 0 || next.1 <= 0 || next.0 >= g.width - 1 || next.1 >= g.height - 1
        }),
    ensures
        g.stepped(dir).game_over,
        g.stepped(dir).snake == g.snake,
        g.stepped(dir).food == g.food,
{
}

/// A step onto the snake's own body, its last cell left aside, ends the run
/// in the same way.
pub proof fn biting_itself_ends_the_run(g: GameView, dir: Option<Direction>)
    requires
        g.snake.overlaps(g.snake.next_head(dir)),
    ensures
        g.stepped(dir).game_over,
        g.stepped(dir).snake == g.snake,
        g.stepped(dir).food == g.food,
{
}

/// A head that steps onto the food eats it: the food is gone, and the body
/// is one cell longer by the very cell that the step vacated.
pub proof fn food_under_the_head_is_eaten(g: GameView, dir: Option<Direction>)
    requires
        g.valid(),
        g.alive(dir),
        g.food == Some(g.snake.next_head(dir)),
    ensures
        g.stepped(dir).food is None,
        g.stepped(dir).snake.body == seq![g.snake.next_head(dir)] + g.snake.body,
{
    let after = g.stepped(dir).snake.body;
    assert(after =~= seq![g.snake.next_head(dir)] + g.snake.body);
}

/// A finished run starts again once the clock has passed `RESTART_TIME`:
/// whatever the snake and the food were, the session is a fresh one on the
/// same board.
pub proof fn finished_run_starts_again(g: GameView, delta: nat, food: Option<(int, int)>)
    requires
        g.game_over,
        g.clock(delta) > RESTART_TIME,
    ensures
        g.updated(delta, food) == GameView::initial(g.width, g.height),
        !g.updated(delta, food).game_over,
        g.updated(delta, food).snake.body == seq![(4int, 2int), (3int, 2int), (2int, 2int)],
        g.updated(delta, food).snake.direction == Direction::Right,
        g.updated(delta, food).food == Some((6int, 4int)),
        g.updated(delta, food).waiting_time == 0,
{
}

/// Until then a finished run only counts the time.
pub proof fn finished_run_waits(g: GameView, delta: nat, food: Option<(int, int)>)
    requires
        g.game_over,
        g.clock(delta) <= RESTART_TIME,
    ensures
        g.updated(delta, food) == (GameView { waiting_time: g.clock(delta), ..g }),
{
}

/// A fresh snake is connected.
pub proof fn fresh_snake_is_connected(x: int, y: int)
    ensures
        SnakeView::initial(x, y).connected(),
{
}

/// A step keeps a connected snake connected, and so does the growth that
/// may follow it: the cell that comes back is one step from the last.
pub proof fn moving_keeps_connected(s: SnakeView, dir: Option<Direction>)
    requires
        s.body.len() >= 1,
        s.connected(),
    ensures
        s.moved(dir).connected(),
        s.moved(dir).grown().connected(),
{
    let m = s.moved(dir).body;
    let g = s.moved(dir).grown().body;
    assert(m.len() == s.body.len());
    assert(g.len() == s.body.len() + 1);
    assert forall|i: int| 0 <= i < m.len() - 1 implies adjacent(#[trigger] m[i], m[i + 1]) by {
        if i > 0 {
            assert(adjacent(s.body[i - 1], s.body[i - 1 + 1]));
        }
    }
    assert forall|i: int| 0 <= i < g.len() - 1 implies adjacent(#[trigger] g[i], g[i + 1]) by {
        if i < m.len() - 1 {
            assert(adjacent(m[i], m[i + 1]));
        } else if i > 0 {
            assert(adjacent(s.body[i - 1], s.body[i - 1 + 1]));
        }
    }
}

/// The snake of a valid session stays connected whatever happens: a move,
/// a key, and the passing of time.
pub proof fn session_keeps_snake_connected(
    g: GameView,
    dir: Option<Direction>,
    key: Key,
    delta: nat,
    food: Option<(int, int)>,
)
    requires
        g.valid(),
        g.snake.connected(),
    ensures
        g.stepped(dir).snake.connected(),
        g.pressed(key).snake.connected(),
        g.updated(delta, food).snake.connected(),
{
    moving_keeps_connected(g.snake, dir);
    match key.bound() {
        Some(d) => moving_keeps_connected(g.snake, Some(d)),
        None => {},
    }
    moving_keeps_connected(g.snake, None);
    fresh_snake_is_connected(2, 2);
}

/// Whatever happens to a valid session leaves it valid: a move, a key, and
/// the passing of time with any food that `spawn_outcome` allows.
pub proof fn validity_is_kept(
    g: GameView,
    dir: Option<Direction>,
    key: Key,
    delta: nat,
    food: Option<(int, int)>,
)
    requires
        g.valid(),
        g.spawn_outcome(food),
    ensures
        g.stepped(dir).valid(),
        g.pressed(key).valid(),
        g.updated(delta, food).valid(),
{
    stepping_keeps_validity(g, dir);
    match key.bound() {
        Some(d) => stepping_keeps_validity(g, Some(d)),
        None => {},
    }
    let seen = GameView { waiting_time: g.clock(delta), food, ..g };
    stepping_keeps_validity(seen, None);
}

proof fn stepping_keeps_validity(g: GameView, dir: Option<Direction>)
    requires
        g.valid(),
    ensures
        g.stepped(dir).valid(),
{
}

} // verus!
