//! The session: one snake on a bordered board, at most one food, a clock, and
//! the cycle of running, ending and starting again.

use crate::canvas::{Paint, Rect};
use crate::snake::{Direction, Snake, SnakeView};
use rand::Rng;
use vstd::prelude::*;

verus! {

/// The time between two moves that the clock drives, in microseconds.
pub const MOVING_PERIOD: u64 = 300_000;

/// The time a finished run stays on the board before the next one starts, in
/// microseconds.
pub const RESTART_TIME: u64 = 1_000_000;

/// How many random cells `add_food` tries before it searches the board.
pub const FOOD_DRAWS: u32 = 4096;

/// The keys that the game tells apart: the four arrows, the four letters that
/// double them, and every other key.
#[derive(Clone, Copy, PartialEq, Eq, Structural, Debug)]
pub enum Key {
    Up,
    Down,
    Left,
    Right,
    W,
    A,
    S,
    D,
    Other,
}

impl Key {
    /// The heading that a key asks for, if it asks for one.
    pub open spec fn bound(self) -> Option<Direction> {
        match self {
            Key::Up | Key::W => Some(Direction::Up),
            Key::Down | Key::S => Some(Direction::Down),
            Key::Left | Key::A => Some(Direction::Left),
            Key::Right | Key::D => Some(Direction::Right),
            Key::Other => None,
        }
    }

    pub fn direction(&self) -> (d: Option<Direction>)
        ensures
            d == self.bound(),
    {
        match *self {
            Key::Up | Key::W => Some(Direction::Up),
            Key::Down | Key::S => Some(Direction::Down),
            Key::Left | Key::A => Some(Direction::Left),
            Key::Right | Key::D => Some(Direction::Right),
            Key::Other => None,
        }
    }
}

/// What a session is: the snake, the food if there is one, the board's size
/// in cells, whether the run has ended, and the microseconds since the last
/// move or since the run ended.
pub struct GameView {
    pub snake: SnakeView,
    pub food: Option<(int, int)>,
    pub width: int,
    pub height: int,
    pub game_over: bool,
    pub waiting_time: nat,
}

impl GameView {
    /// A fresh run on a board of the given size: the snake in its first
    /// place, the food in its first place, the clock at zero.
    pub open spec fn initial(width: int, height: int) -> GameView {
        GameView {
            snake: SnakeView::initial(2, 2),
            food: Some((6, 4)),
            width,
            height,
            game_over: false,
            waiting_time: 0,
        }
    }

    /// Whether `c` lies inside the border, which is one cell thick.
    pub open spec fn inside(self, c: (int, int)) -> bool {
        0 < c.0 < self.width - 1 && 0 < c.1 < self.height - 1
    }

    /// The board holds the first snake, the head is inside the border, and
    /// so is the food, unless it still lies where a fresh run puts it.
    pub open spec fn valid(self) -> bool {
        &&& self.snake.valid()
        &&& 6 <= self.width <= i32::MAX
        &&& 4 <= self.height <= i32::MAX
        &&& self.waiting_time <= u64::MAX
        &&& self.inside(self.snake.head())
        &&& self.food matches Some(c) ==> self.inside(c) || c == (6int, 4int)
    }

    /// Whether the snake survives its next step: the cell ahead is inside the
    /// border and is no cell of the body but, at most, the last.
    pub open spec fn alive(self, dir: Option<Direction>) -> bool {
        !self.snake.overlaps(self.snake.next_head(dir)) && self.inside(self.snake.next_head(dir))
    }

    /// The session after the snake has eaten what lies under its head, if
    /// anything does: the food is gone and the snake has grown.
    pub open spec fn fed(self) -> GameView {
        if self.food == Some(self.snake.head()) {
            GameView { food: None, snake: self.snake.grown(), ..self }
        } else {
            self
        }
    }

    /// The session after one attempt to move. A snake that survives the step
    /// takes it and eats; one that does not stays where it is and the run
    /// ends. The clock starts again either way.
    pub open spec fn stepped(self, dir: Option<Direction>) -> GameView {
        if self.alive(dir) {
            GameView { snake: self.snake.moved(dir), waiting_time: 0, ..self }.fed()
        } else {
            GameView { game_over: true, waiting_time: 0, ..self }
        }
    }

    /// The session after a key: nothing happens once the run has ended, on a
    /// key that asks for no heading, or on one that asks the snake to turn
    /// back on itself; any other key moves the snake at once.
    pub open spec fn pressed(self, key: Key) -> GameView {
        match key.bound() {
            Some(d) if !self.game_over && d != self.snake.direction.reversed() => self.stepped(
                Some(d),
            ),
            _ => self,
        }
    }

    /// Whether food may be put on `c`: inside the border, and on no cell of
    /// the body but, at most, the last.
    pub open spec fn free(self, c: (int, int)) -> bool {
        self.inside(c) && !self.snake.overlaps(c)
    }

    /// Whether `after` is this session with new food: on a free cell where
    /// there is one, and else nothing has changed.
    pub open spec fn spawned(self, after: GameView) -> bool {
        if exists|c: (int, int)| self.free(c) {
            &&& after.food matches Some(c) && self.free(c)
            &&& after == GameView { food: after.food, ..self }
        } else {
            after == self
        }
    }

    /// Whether `food` can be what lies on the board when `update` has seen
    /// to the food: what lay there before while the run has ended or food
    /// exists, and else what `spawned` allows.
    pub open spec fn spawn_outcome(self, food: Option<(int, int)>) -> bool {
        if self.game_over || self.food is Some {
            food == self.food
        } else {
            self.spawned(GameView { food, ..self })
        }
    }

    /// The clock after `delta` more microseconds; it stops at the largest
    /// `u64`.
    pub open spec fn clock(self, delta: nat) -> nat {
        if self.waiting_time + delta > u64::MAX {
            u64::MAX as nat
        } else {
            self.waiting_time + delta
        }
    }

    /// The session after `delta` more microseconds, where `food` is what lies
    /// on the board once the food has been seen to. A finished run starts
    /// again when the clock has passed `RESTART_TIME`; a running snake moves
    /// straight on when it has passed `MOVING_PERIOD`.
    pub open spec fn updated(self, delta: nat, food: Option<(int, int)>) -> GameView {
        let t = self.clock(delta);
        if self.game_over {
            if t > RESTART_TIME {
                GameView::initial(self.width, self.height)
            } else {
                GameView { waiting_time: t, ..self }
            }
        } else {
            let seen = GameView { waiting_time: t, food, ..self };
            if t > MOVING_PERIOD {
                seen.stepped(None)
            } else {
                seen
            }
        }
    }

    /// Whether `out` is the frame of this session: the snake's cells head
    /// first, the food if there is one, the top, bottom, left and right
    /// border, and a veil over the whole board once the run has ended.
    pub open spec fn drawn(self, out: Seq<Rect>) -> bool {
        let n = self.snake.body.len() as int;
        let b = if self.food is Some { n + 1 } else { n };
        &&& out.len() == b + 4 + if self.game_over { 1int } else { 0int }
        &&& forall|i: int| 0 <= i < n ==> (#[trigger] out[i]).is_block(Paint::Snake, self.snake.body[i])
        &&& self.food matches Some(c) ==> out[n].is_block(Paint::Food, c)
        &&& out[b].is(Paint::Border, (0, 0), self.width, 1)
        &&& out[b + 1].is(Paint::Border, (0, self.height - 1), self.width - 1, 1)
        &&& out[b + 2].is(Paint::Border, (0, 0), 1, self.height)
        &&& out[b + 3].is(Paint::Border, (self.width - 1, 0), 1, self.height)
        &&& self.game_over ==> out[b + 4].is(Paint::GameOver, (0, 0), self.width, self.height)
    }
}

pub struct Game {
    snake: Snake,
    food_exists: bool,
    food_x: i32,
    food_y: i32,
    width: i32,
    height: i32,
    game_over: bool,
    waiting_time: u64,
}

impl View for Game {
    type V = GameView;

    closed spec fn view(&self) -> GameView {
        GameView {
            snake: self.snake@,
            food: if self.food_exists {
                Some((self.food_x as int, self.food_y as int))
            } else {
                None
            },
            width: self.width as int,
            height: self.height as int,
            game_over: self.game_over,
            waiting_time: self.waiting_time as nat,
        }
    }
}

/// Calls `rand::rng().random_range(lo..hi)`, which draws from the thread's
/// generator an integer that is at least `lo` and less than `hi`, and panics
/// on an empty range. Nothing is claimed of which one it is.
#[verifier::external_body]
fn random_between(lo: i32, hi: i32) -> (n: i32)
    requires
        lo < hi,
    ensures
        lo <= n < hi,
{
    rand::rng().random_range(lo..hi)
}

impl Game {
    /// A session is well formed when what it stands for is valid.
    pub open spec fn wf(&self) -> bool {
        self@.valid()
    }

    /// A fresh session on a board of `width` by `height` cells, border
    /// included. The board must hold the first snake inside its border.
    pub fn new(width: i32, height: i32) -> (g: Game)
        requires
            width >= 6,
            height >= 4,
        ensures
            g.wf(),
            g@ == GameView::initial(width as int, height as int),
    {
        Game {
            snake: Snake::new(2, 2),
            waiting_time: 0,
            food_exists: true,
            food_x: 6,
            food_y: 4,
            width,
            height,
            game_over: false,
        }
    }

    /// Handles one key, as `GameView::pressed` says.
    pub fn key_pressed(&mut self, key: Key)
        requires
            old(self).wf(),
        ensures
            final(self).wf(),
            final(self)@ == old(self)@.pressed(key),
    {
        if self.game_over {
            return;
        }
        match key.direction() {
            Some(d) => {
                if d == self.snake.head_direction().opposite() {
                    return;
                }
                self.update_snake(Some(d));
            },
            None => {},
        }
    }

    /// The frame of the session, in the order in which it is to be painted.
    pub fn draw(&self) -> (out: Vec<Rect>)
        requires
            self.wf(),
        ensures
            self@.drawn(out@),
    {
        let mut out = self.snake.draw();
        if self.food_exists {
            out.push(Rect::block(Paint::Food, self.food_x, self.food_y));
        }
        out.push(Rect { paint: Paint::Border, x: 0, y: 0, width: self.width, height: 1 });
        out.push(
            Rect { paint: Paint::Border, x: 0, y: self.height - 1, width: self.width - 1, height: 1 },
        );
        out.push(Rect { paint: Paint::Border, x: 0, y: 0, width: 1, height: self.height });
        out.push(
            Rect { paint: Paint::Border, x: self.width - 1, y: 0, width: 1, height: self.height },
        );
        if self.game_over {
            out.push(
                Rect { paint: Paint::GameOver, x: 0, y: 0, width: self.width, height: self.height },
            );
        }
        out
    }

    /// Lets `delta_time` more microseconds pass, as `GameView::updated` says.
    /// While the run goes on and the board has no food, food is put on a
    /// cell that chance picks among the free ones.
    pub fn update(&mut self, delta_time: u64)
        requires
            old(self).wf(),
        ensures
            final(self).wf(),
            exists|food: Option<(int, int)>| #[trigger]
                old(self)@.spawn_outcome(food) && final(self)@ == old(self)@.updated(
                    delta_time as nat,
                    food,
                ),
    {
        self.waiting_time = self.waiting_time.saturating_add(delta_time);
        if self.game_over {
            if self.waiting_time > RESTART_TIME {
                self.restart();
            }
            proof {
                assert(old(self)@.spawn_outcome(old(self)@.food));
            }
            return;
        }
        let ghost timed = self@;
        if !self.food_exists {
            self.add_food();
        }
        let ghost seen = self@.food;
        proof {
            if old(self)@.food is None {
                assert(timed.spawned(self@));
                if exists|c: (int, int)| old(self)@.free(c) {
                    let c = choose|c: (int, int)| old(self)@.free(c);
                    assert(timed.free(c));
                    assert(old(self)@.free(seen.unwrap()));
                } else {
                    assert forall|c: (int, int)| !timed.free(c) by {
                        assert(!old(self)@.free(c));
                    }
                }
            }
            assert(old(self)@.spawn_outcome(seen));
        }
        if self.waiting_time > MOVING_PERIOD {
            self.update_snake(None);
        }
        proof {
            assert(self@ == old(self)@.updated(delta_time as nat, seen));
        }
    }

    /// Lets the snake eat the food under its head, if any lies there.
    pub fn check_eating(&mut self)
        requires
            old(self).wf(),
            old(self)@.snake.tail is Some,
        ensures
            final(self).wf(),
            final(self)@ == old(self)@.fed(),
    {
        let (head_x, head_y) = self.snake.head_position();
        if self.food_exists && self.food_x == head_x && self.food_y == head_y {
            self.food_exists = false;
            self.snake.restore_tail();
        }
    }

    /// Whether the snake survives a step in `dir`, or straight on.
    pub fn check_if_snake_alive(&self, dir: Option<Direction>) -> (alive: bool)
        requires
            self.wf(),
        ensures
            alive == self@.alive(dir),
    {
        let (next_x, next_y) = self.snake.next_head(dir);
        if self.snake.overlap_tail(next_x, next_y) {
            return false;
        }
        next_x > 0 && next_y > 0 && next_x < self.width - 1 && next_y < self.height - 1
    }

    /// Puts the food on `(x, y)` if that cell is free, and says whether it
    /// did.
    pub fn place_food(&mut self, x: i32, y: i32) -> (placed: bool)
        requires
            old(self).wf(),
        ensures
            final(self).wf(),
            placed == old(self)@.free((x as int, y as int)),
            placed ==> final(self)@ == (GameView { food: Some((x as int, y as int)), ..old(self)@ }),
            !placed ==> final(self)@ == old(self)@,
    {
        if x > 0 && y > 0 && x < self.width - 1 && y < self.height - 1 && !self.snake.overlap_tail(
            x,
            y,
        ) {
            self.food_x = x;
            self.food_y = y;
            self.food_exists = true;
            true
        } else {
            false
        }
    }

    /// Some free cell of the board, if it has one.
    fn free_cell(&self) -> (found: Option<(i32, i32)>)
        requires
            self.wf(),
        ensures
            match found {
                Some(c) => self@.free((c.0 as int, c.1 as int)),
                None => forall|c: (int, int)| !self@.free(c),
            },
    {
        let mut y: i32 = 1;
        while y < self.height - 1
            invariant
                self.wf(),
                1 <= y <= self.height - 1,
                forall|c: (int, int)| c.1 < y ==> !#[trigger] self@.free(c),
            decreases self.height - y,
        {
            let mut x: i32 = 1;
            while x < self.width - 1
                invariant
                    self.wf(),
                    1 <= y < self.height - 1,
                    1 <= x <= self.width - 1,
                    forall|c: (int, int)| c.1 < y ==> !#[trigger] self@.free(c),
                    forall|c: (int, int)| c.1 == y && c.0 < x ==> !#[trigger] self@.free(c),
                decreases self.width - x,
            {
                if !self.snake.overlap_tail(x, y) {
                    return Some((x, y));
                }
                x += 1;
            }
            y += 1;
        }
        None
    }

    /// Puts new food on a free cell. The cell is drawn at random, up to
    /// `FOOD_DRAWS` times; if every draw hits the snake, the board is
    /// searched for a free cell. Only a board without a free cell is left
    /// as it was.
    pub fn add_food(&mut self)
        requires
            old(self).wf(),
        ensures
            final(self).wf(),
            old(self)@.spawned(final(self)@),
    {
        let mut tries: u32 = 0;
        while tries < FOOD_DRAWS
            invariant
                self.wf(),
                self@ == old(self)@,
            decreases FOOD_DRAWS - tries,
        {
            let new_x = random_between(1, self.width - 1);
            let new_y = random_between(1, self.height - 1);
            if self.place_food(new_x, new_y) {
                return;
            }
            tries += 1;
        }
        match self.free_cell() {
            Some((x, y)) => {
                self.place_food(x, y);
            },
            None => {},
        }
    }

    /// Tries to move the snake, as `GameView::stepped` says.
    pub fn update_snake(&mut self, dir: Option<Direction>)
        requires
            old(self).wf(),
        ensures
            final(self).wf(),
            final(self)@ == old(self)@.stepped(dir),
    {
        if self.check_if_snake_alive(dir) {
            self.snake.move_forward(dir);
            self.check_eating();
        } else {
            self.game_over = true;
        }
        self.waiting_time = 0;
    }

    /// Starts a fresh run on the same board.
    pub fn restart(&mut self)
        requires
            old(self).wf(),
        ensures
            final(self).wf(),
            final(self)@ == GameView::initial(old(self)@.width, old(self)@.height),
    {
        self.snake = Snake::new(2, 2);
        self.waiting_time = 0;
        self.food_exists = true;
        self.food_x = 6;
        self.food_y = 4;
        self.game_over = false;
    }

    pub fn snake(&self) -> (s: &Snake)
        ensures
            s@ == self@.snake,
    {
        &self.snake
    }

    /// Where the food lies, if there is any.
    pub fn food(&self) -> (f: Option<(i32, i32)>)
        ensures
            match f {
                Some(c) => self@.food == Some((c.0 as int, c.1 as int)),
                None => self@.food is None,
            },
    {
        if self.food_exists {
            Some((self.food_x, self.food_y))
        } else {
            None
        }
    }

    pub fn is_over(&self) -> (over: bool)
        ensures
            over == self@.game_over,
    {
        self.game_over
    }

    /// The microseconds since the last move, or since the run ended.
    pub fn waiting_time(&self) -> (t: u64)
        ensures
            t == self@.waiting_time,
    {
        self.waiting_time
    }

    pub fn width(&self) -> (w: i32)
        ensures
            w == self@.width,
    {
        self.width
    }

    pub fn height(&self) -> (h: i32)
        ensures
            h == self@.height,
    {
        self.height
    }
}

} // verus!
