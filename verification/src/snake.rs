//! The snake: an ordered body of grid cells, a heading, and the cell that the
//! last move vacated.

use crate::canvas::{Paint, Rect};
use std::collections::VecDeque;
use vstd::prelude::*;

verus! {

/// One of the four headings on the grid. `y` grows downward.
#[derive(Clone, Copy, PartialEq, Eq, Structural, Debug)]
pub enum Direction {
    Up,
    Down,
    Left,
    Right,
}

impl Direction {
    /// The heading that points the other way.
    pub open spec fn reversed(self) -> Direction {
        match self {
            Direction::Up => Direction::Down,
            Direction::Down => Direction::Up,
            Direction::Left => Direction::Right,
            Direction::Right => Direction::Left,
        }
    }

    /// The cell one step away from `from` along this heading.
    pub open spec fn step(self, from: (int, int)) -> (int, int) {
        match self {
            Direction::Up => (from.0, from.1 - 1),
            Direction::Down => (from.0, from.1 + 1),
            Direction::Left => (from.0 - 1, from.1),
            Direction::Right => (from.0 + 1, from.1),
        }
    }

    pub fn opposite(&self) -> (r: Direction)
        ensures
            r == self.reversed(),
    {
        match *self {
            Direction::Up => Direction::Down,
            Direction::Down => Direction::Up,
            Direction::Left => Direction::Right,
            Direction::Right => Direction::Left,
        }
    }
}

/// Whether both coordinates of a cell can be held in an `i32`.
pub open spec fn representable(c: (int, int)) -> bool {
    i32::MIN <= c.0 <= i32::MAX && i32::MIN <= c.1 <= i32::MAX
}

/// Whether two cells are exactly one grid step apart.
pub open spec fn adjacent(a: (int, int), b: (int, int)) -> bool {
    ||| a.0 == b.0 && (a.1 - b.1 == 1 || b.1 - a.1 == 1)
    ||| a.1 == b.1 && (a.0 - b.0 == 1 || b.0 - a.0 == 1)
}

/// A single grid cell.
#[derive(Clone, Copy, Debug)]
struct Block {
    x: i32,
    y: i32,
}

impl Block {
    spec fn cell(self) -> (int, int) {
        (self.x as int, self.y as int)
    }
}

spec fn cells(blocks: Seq<Block>) -> Seq<(int, int)> {
    blocks.map_values(|b: Block| b.cell())
}

/// What a snake is: its cells from head to tail, its heading, and the cell
/// that its last move vacated, if it has moved.
pub struct SnakeView {
    pub body: Seq<(int, int)>,
    pub direction: Direction,
    pub tail: Option<(int, int)>,
}

impl SnakeView {
    /// The snake as it starts: three cells in a row that ends at `(x, y)`,
    /// head to the right and heading right.
    pub open spec fn initial(x: int, y: int) -> SnakeView {
        SnakeView { body: seq![(x + 2, y), (x + 1, y), (x, y)], direction: Direction::Right, tail: None }
    }

    /// A snake always has a head, and every cell of it has `i32`
    /// coordinates.
    pub open spec fn valid(self) -> bool {
        &&& self.body.len() >= 1
        &&& forall|i: int| 0 <= i < self.body.len() ==> representable(#[trigger] self.body[i])
        &&& self.tail matches Some(t) ==> representable(t)
    }

    /// Whether each cell of the body is one grid step from the next.
    pub open spec fn connected(self) -> bool {
        forall|i: int|
            0 <= i < self.body.len() - 1 ==> adjacent(#[trigger] self.body[i], self.body[i + 1])
    }

    pub open spec fn head(self) -> (int, int) {
        self.body[0]
    }

    /// The heading of the next step: `dir` where one is given, else the
    /// current heading.
    pub open spec fn heading(self, dir: Option<Direction>) -> Direction {
        match dir {
            Some(d) => d,
            None => self.direction,
        }
    }

    /// Where the head would be after one step.
    pub open spec fn next_head(self, dir: Option<Direction>) -> (int, int) {
        self.heading(dir).step(self.head())
    }

    /// The snake after one step: a new head in front, the last cell taken
    /// off and kept as `tail`.
    pub open spec fn moved(self, dir: Option<Direction>) -> SnakeView {
        SnakeView {
            body: seq![self.next_head(dir)] + self.body.drop_last(),
            direction: self.heading(dir),
            tail: Some(self.body.last()),
        }
    }

    /// The snake with the vacated cell put back behind its last cell.
    pub open spec fn grown(self) -> SnakeView {
        SnakeView { body: self.body.push(self.tail.unwrap()), ..self }
    }

    /// Whether `c` is one of the body's cells, the last one left aside.
    pub open spec fn overlaps(self, c: (int, int)) -> bool {
        self.body.drop_last().contains(c)
    }
}

pub struct Snake {
    direction: Direction,
    body: VecDeque<Block>,
    tail: Option<Block>,
}

impl View for Snake {
    type V = SnakeView;

    closed spec fn view(&self) -> SnakeView {
        SnakeView {
            body: cells(self.body@),
            direction: self.direction,
            tail: match self.tail {
                Some(b) => Some(b.cell()),
                None => None,
            },
        }
    }
}

impl Snake {
    /// A snake is well formed when what it stands for is valid.
    pub open spec fn wf(&self) -> bool {
        self@.valid()
    }

    /// A snake of three cells whose last cell is `(x, y)`, heading right.
    pub fn new(x: i32, y: i32) -> (s: Snake)
        requires
            x <= i32::MAX - 2,
        ensures
            s.wf(),
            s@ == SnakeView::initial(x as int, y as int),
    {
        let mut body: VecDeque<Block> = VecDeque::new();
        body.push_back(Block { x: x + 2, y });
        body.push_back(Block { x: x + 1, y });
        body.push_back(Block { x, y });
        let s = Snake { direction: Direction::Right, body, tail: None };
        proof {
            assert(s@.body =~= SnakeView::initial(x as int, y as int).body);
        }
        s
    }

    pub fn head_position(&self) -> (p: (i32, i32))
        requires
            self.wf(),
        ensures
            (p.0 as int, p.1 as int) == self@.head(),
    {
        let head_block = self.body[0];
        (head_block.x, head_block.y)
    }

    pub fn head_direction(&self) -> (d: Direction)
        ensures
            d == self@.direction,
    {
        self.direction
    }

    /// Where the head would be after one step, the snake left as it is.
    pub fn next_head(&self, dir: Option<Direction>) -> (p: (i32, i32))
        requires
            self.wf(),
            representable(self@.next_head(dir)),
        ensures
            (p.0 as int, p.1 as int) == self@.next_head(dir),
    {
        let (head_x, head_y) = self.head_position();
        let moving_dir = match dir {
            Some(d) => d,
            None => self.direction,
        };
        match moving_dir {
            Direction::Up => (head_x, head_y - 1),
            Direction::Down => (head_x, head_y + 1),
            Direction::Left => (head_x - 1, head_y),
            Direction::Right => (head_x + 1, head_y),
        }
    }

    /// Takes one step. A given `dir` becomes the heading, whatever it is.
    pub fn move_forward(&mut self, dir: Option<Direction>)
        requires
            old(self).wf(),
            representable(old(self)@.next_head(dir)),
        ensures
            final(self).wf(),
            final(self)@ == old(self)@.moved(dir),
    {
        let (next_x, next_y) = self.next_head(dir);
        match dir {
            Some(d) => self.direction = d,
            None => (),
        }
        self.body.push_front(Block { x: next_x, y: next_y });
        let removed_block = self.body.pop_back();
        self.tail = removed_block;
        proof {
            assert(self@.body =~= old(self)@.moved(dir).body);
        }
    }

    /// Grows by one cell: the cell that the last move vacated comes back
    /// behind the last cell.
    pub fn restore_tail(&mut self)
        requires
            old(self).wf(),
            old(self)@.tail is Some,
        ensures
            final(self).wf(),
            final(self)@ == old(self)@.grown(),
    {
        match self.tail {
            Some(blk) => {
                self.body.push_back(blk);
            },
            None => {},
        }
        proof {
            assert(self@.body =~= old(self)@.grown().body);
        }
    }

    /// Whether `(x, y)` is a cell of the body other than its last one.
    pub fn overlap_tail(&self, x: i32, y: i32) -> (hit: bool)
        requires
            self.wf(),
        ensures
            hit == self@.overlaps((x as int, y as int)),
    {
        let n: usize = self.body.len() - 1;
        let mut i: usize = 0;
        while i < n
            invariant
                n == self.body@.len() - 1,
                i <= n,
                forall|j: int| 0 <= j < i ==> self@.body.drop_last()[j] != (x as int, y as int),
            decreases n - i,
        {
            let block = self.body[i];
            if x == block.x && y == block.y {
                proof {
                    assert(self@.body.drop_last()[i as int] == (x as int, y as int));
                }
                return true;
            }
            i += 1;
        }
        false
    }

    /// The number of cells of the body.
    pub fn len(&self) -> (n: usize)
        ensures
            n == self@.body.len(),
    {
        self.body.len()
    }

    /// The body's cells, head first.
    pub fn body(&self) -> (out: Vec<(i32, i32)>)
        ensures
            out@.len() == self@.body.len(),
            forall|i: int| 0 <= i < out@.len() ==> (out@[i].0 as int, out@[i].1 as int) == self@.body[i],
    {
        let n: usize = self.body.len();
        let mut out: Vec<(i32, i32)> = Vec::new();
        let mut i: usize = 0;
        while i < n
            invariant
                n == self.body@.len(),
                i <= n,
                out@.len() == i,
                forall|j: int| 0 <= j < i ==> (out@[j].0 as int, out@[j].1 as int) == self@.body[j],
            decreases n - i,
        {
            let block = self.body[i];
            out.push((block.x, block.y));
            i += 1;
        }
        out
    }

    /// One unit square in the snake's paint for each cell of the body, head
    /// first.
    pub fn draw(&self) -> (out: Vec<Rect>)
        ensures
            out@.len() == self@.body.len(),
            forall|i: int|
                0 <= i < out@.len() ==> (#[trigger] out@[i]).is_block(Paint::Snake, self@.body[i]),
    {
        let n: usize = self.body.len();
        let mut out: Vec<Rect> = Vec::new();
        let mut i: usize = 0;
        while i < n
            invariant
                n == self.body@.len(),
                i <= n,
                out@.len() == i,
                forall|j: int|
                    0 <= j < i ==> (#[trigger] out@[j]).is_block(Paint::Snake, self@.body[j]),
            decreases n - i,
        {
            let block = self.body[i];
            out.push(Rect::block(Paint::Snake, block.x, block.y));
            i += 1;
        }
        out
    }

    /// The cell that the last move vacated; `None` before the first move.
    pub fn tail(&self) -> (t: Option<(i32, i32)>)
        ensures
            match t {
                Some(c) => self@.tail == Some((c.0 as int, c.1 as int)),
                None => self@.tail is None,
            },
    {
        match self.tail {
            Some(b) => Some((b.x, b.y)),
            None => None,
        }
    }
}

} // verus!
