//! The snake: its trail of cells, its buffer of direction requests, and the
//! step that one tick takes.

use crate::direction::Direction;
use crate::food::Food;
use crate::grid::{GridPosition, GRID_HEIGHT, GRID_WIDTH};
use std::collections::VecDeque;
use vstd::prelude::*;

verus! {

/// One cell of the snake. A segment is nothing but its position.
#[derive(Clone, Copy, Debug)]
pub struct Segment {
    pub pos: GridPosition,
}

impl Segment {
    /// The segment at the given cell.
    pub fn new(pos: GridPosition) -> (s: Segment)
        ensures
            s.pos == pos,
    {
        Segment { pos }
    }
}

/// What the head ran into on a tick.
#[derive(Clone, Copy, Debug, PartialEq, Eq, Structural)]
pub enum Ate {
    Itself,
    Food,
}

/// The snake as the rules see it: positions and directions only.
pub struct SnakeView {
    /// The cell of the head.
    pub head: GridPosition,
    /// The cells behind the head, the one next to the head first, the tail
    /// last.
    pub body: Seq<GridPosition>,
    /// The direction that the next tick moves in, unless a buffered request
    /// is promoted first.
    pub dir: Direction,
    /// The direction that the last tick moved in.
    pub last_update_dir: Direction,
    /// A second request made before the first was consumed by a tick.
    pub next_dir: Option<Direction>,
    /// What the last tick ran into.
    pub ate: Option<Ate>,
}

impl SnakeView {
    /// The snake at the start of a game: the head at `pos`, one segment in the
    /// cell to its left (across the edge if need be), facing right, with
    /// nothing buffered and nothing eaten.
    pub open spec fn start(pos: GridPosition, width: i16, height: i16) -> SnakeView {
        SnakeView {
            head: pos,
            body: seq![pos.moved(Direction::Left, width, height)],
            dir: Direction::Right,
            last_update_dir: Direction::Right,
            next_dir: None,
            ate: None,
        }
    }

    /// All cells of the snake, head first.
    pub open spec fn cells(self) -> Seq<GridPosition> {
        seq![self.head] + self.body
    }

    /// The number of cells of the snake, the head included.
    pub open spec fn length(self) -> nat {
        self.cells().len()
    }

    /// Whether a tick begins by promoting the buffered request: the last
    /// change of direction has been consumed and a request is waiting.
    pub open spec fn promotes(self) -> bool {
        self.dir == self.last_update_dir && self.next_dir is Some
    }

    /// The direction in which the next tick moves.
    pub open spec fn heading(self) -> Direction {
        if self.promotes() {
            self.next_dir->0
        } else {
            self.dir
        }
    }

    /// The cell that the head enters on the next tick.
    pub open spec fn next_head(self, width: i16, height: i16) -> GridPosition {
        self.head.moved(self.heading(), width, height)
    }

    /// What the next tick runs into. Contact with the snake itself, the cell
    /// that the head leaves included, goes before contact with the food.
    pub open spec fn outcome(self, food: GridPosition, width: i16, height: i16) -> Option<Ate> {
        let target = self.next_head(width, height);
        if self.cells().contains(target) {
            Some(Ate::Itself)
        } else if target == food {
            Some(Ate::Food)
        } else {
            None
        }
    }

    /// The snake after one tick. The head moves one cell and the cell it left
    /// becomes the front of the body. The tail is given up only if the head
    /// ran into nothing, so any contact makes the snake one cell longer.
    pub open spec fn step(self, food: GridPosition, width: i16, height: i16) -> SnakeView {
        let ate = self.outcome(food, width, height);
        SnakeView {
            head: self.next_head(width, height),
            body: if ate is None {
                self.cells().drop_last()
            } else {
                self.cells()
            },
            dir: self.heading(),
            last_update_dir: self.heading(),
            next_dir: if self.promotes() {
                None
            } else {
                self.next_dir
            },
            ate,
        }
    }

    /// The snake after a request to move in `requested`. While a change of
    /// direction waits for its tick, a request that does not reverse it is
    /// buffered, replacing any request buffered before. Otherwise a request
    /// that does not reverse the last move becomes the direction at once.
    /// Any other request is dropped.
    pub open spec fn steer(self, requested: Direction) -> SnakeView {
        if self.dir != self.last_update_dir && requested != self.dir.opposite() {
            SnakeView { next_dir: Some(requested), ..self }
        } else if requested != self.last_update_dir.opposite() {
            SnakeView { dir: requested, ..self }
        } else {
            self
        }
    }

    /// Whether every cell of the snake lies on a grid of the given size.
    pub open spec fn on_grid(self, width: int, height: int) -> bool {
        forall|i: int| 0 <= i < self.cells().len() ==> (#[trigger] self.cells()[i]).in_grid(width, height)
    }
}

/// The snake. `body` holds the cells behind the head, nearest first.
pub struct Snake {
    pub head: Segment,
    pub dir: Direction,
    pub body: VecDeque<Segment>,
    pub ate: Option<Ate>,
    pub last_update_dir: Direction,
    pub next_dir: Option<Direction>,
}

impl View for Snake {
    type V = SnakeView;

    open spec fn view(&self) -> SnakeView {
        SnakeView {
            head: self.head.pos,
            body: Seq::new(self.body@.len(), |i: int| self.body@[i].pos),
            dir: self.dir,
            last_update_dir: self.last_update_dir,
            next_dir: self.next_dir,
            ate: self.ate,
        }
    }
}

impl Snake {
    /// Whether the snake is one that the game can hold: all of it lies on the
    /// playing field.
    pub open spec fn wf(&self) -> bool {
        self@.on_grid(GRID_WIDTH as int, GRID_HEIGHT as int)
    }

    /// A snake of two cells with its head at `pos`, facing right.
    pub fn new(pos: GridPosition) -> (s: Snake)
        requires
            pos.in_grid(GRID_WIDTH as int, GRID_HEIGHT as int),
        ensures
            s@ == SnakeView::start(pos, GRID_WIDTH, GRID_HEIGHT),
            s.wf(),
    {
        let mut body: VecDeque<Segment> = VecDeque::new();
        let behind = GridPosition::new_from_move(pos, Direction::Left, GRID_WIDTH, GRID_HEIGHT);
        body.push_back(Segment::new(behind));
        let s = Snake {
            head: Segment::new(pos),
            dir: Direction::Right,
            last_update_dir: Direction::Right,
            body,
            ate: None,
            next_dir: None,
        };
        assert(s@.body =~= seq![behind]);
        s
    }

    /// Tells whether the snake lies on the playing field, which `update`
    /// asks of it.
    pub fn fits_grid(&self) -> (r: bool)
        ensures
            r == self.wf(),
    {
        if !self.head.pos.is_in_grid(GRID_WIDTH, GRID_HEIGHT) {
            assert(!self@.cells()[0].in_grid(GRID_WIDTH as int, GRID_HEIGHT as int));
            return false;
        }
        let mut i: usize = 0;
        while i < self.body.len()
            invariant
                i <= self.body@.len(),
                self@.head.in_grid(GRID_WIDTH as int, GRID_HEIGHT as int),
                forall|j: int|
                    0 <= j < i ==> (#[trigger] self@.body[j]).in_grid(
                        GRID_WIDTH as int,
                        GRID_HEIGHT as int,
                    ),
            decreases self.body@.len() - i,
        {
            if !self.body[i].pos.is_in_grid(GRID_WIDTH, GRID_HEIGHT) {
                assert(self@.cells()[i + 1] == self@.body[i as int]);
                return false;
            }
            i += 1;
        }
        assert forall|k: int| 0 <= k < self@.cells().len() implies (#[trigger] self@.cells()[k]).in_grid(
            GRID_WIDTH as int,
            GRID_HEIGHT as int,
        ) by {
            if k > 0 {
                assert(self@.cells()[k] == self@.body[k - 1]);
            }
        }
        true
    }

    /// The cells of the body, nearest to the head first, for a renderer.
    pub fn body_positions(&self) -> (cells: Vec<GridPosition>)
        ensures
            cells@ == self@.body,
    {
        let mut cells: Vec<GridPosition> = Vec::new();
        let mut i: usize = 0;
        while i < self.body.len()
            invariant
                i <= self.body@.len(),
                cells@.len() == i,
                forall|j: int| 0 <= j < i ==> cells@[j] == self@.body[j],
            decreases self.body@.len() - i,
        {
            cells.push(self.body[i].pos);
            i += 1;
        }
        assert(cells@ =~= self@.body);
        cells
    }

    /// Whether the head lies on the food.
    pub fn eats_food(&self, food: &Food) -> (r: bool)
        ensures
            r == (self@.head == food.pos),
    {
        self.head.pos == food.pos
    }

    /// Whether the head lies on a cell of the body.
    pub fn eats_self(&self) -> (r: bool)
        ensures
            r == self@.body.contains(self@.head),
    {
        let mut i: usize = 0;
        while i < self.body.len()
            invariant
                i <= self.body@.len(),
                forall|j: int| 0 <= j < i ==> self@.body[j] != self@.head,
            decreases self.body@.len() - i,
        {
            if self.head.pos == self.body[i].pos {
                assert(self@.body[i as int] == self@.head);
                return true;
            }
            i += 1;
        }
        false
    }

    /// Takes a request to move in `requested`, made between two ticks.
    pub fn handle_direction_input(&mut self, requested: Direction)
        ensures
            final(self)@ == old(self)@.steer(requested),
            old(self).wf() ==> final(self).wf(),
    {
        if self.dir != self.last_update_dir && requested.inverse() != self.dir {
            self.next_dir = Some(requested);
        } else if requested.inverse() != self.last_update_dir {
            self.dir = requested;
        }
        assert(self@.cells() == old(self)@.cells());
    }

    /// Moves the snake by one tick and returns what its head ran into, which
    /// is also kept in `ate`.
    pub fn update(&mut self, food: &Food) -> (outcome: Option<Ate>)
        requires
            old(self).wf(),
        ensures
            final(self)@ == old(self)@.step(food.pos, GRID_WIDTH, GRID_HEIGHT),
            outcome == final(self)@.ate,
            final(self).wf(),
    {
        if self.last_update_dir == self.dir {
            if let Some(next) = self.next_dir {
                self.dir = next;
                self.next_dir = None;
            }
        }
        proof {
            assert(old(self)@.cells()[0].in_grid(GRID_WIDTH as int, GRID_HEIGHT as int));
        }
        let new_head_pos = GridPosition::new_from_move(
            self.head.pos,
            self.dir,
            GRID_WIDTH,
            GRID_HEIGHT,
        );
        let new_head = Segment::new(new_head_pos);
        self.body.push_front(self.head);
        self.head = new_head;
        assert(self@.body =~= old(self)@.cells());

        if self.eats_self() {
            self.ate = Some(Ate::Itself);
        } else if self.eats_food(food) {
            self.ate = Some(Ate::Food);
        } else {
            self.ate = None;
        }

        if self.ate.is_none() {
            let _ = self.body.pop_back();
            assert(self@.body =~= old(self)@.cells().drop_last());
        }
        self.last_update_dir = self.dir;
        proof {
            let before = old(self)@;
            let after = self@;
            assert forall|i: int| 0 <= i < after.cells().len() implies (#[trigger] after.cells()[i]).in_grid(
                GRID_WIDTH as int,
                GRID_HEIGHT as int,
            ) by {
                if i > 0 {
                    assert(after.cells()[i] == before.cells()[i - 1]);
                }
            }
        }
        self.ate
    }
}

/// A new snake has two cells: the head at the start cell and one segment in
/// the cell to its left, the column taken modulo the width. It faces right.
pub proof fn lemma_start_shape(pos: GridPosition, width: i16, height: i16)
    ensures
        SnakeView::start(pos, width, height).length() == 2,
        SnakeView::start(pos, width, height).head == pos,
        SnakeView::start(pos, width, height).body.len() == 1,
        SnakeView::start(pos, width, height).body[0] == (GridPosition {
            x: ((pos.x - 1) % width as int) as i16,
            y: pos.y,
        }),
        SnakeView::start(pos, width, height).dir == Direction::Right,
        SnakeView::start(pos, width, height).last_update_dir == Direction::Right,
{
}

/// A tick that runs into nothing moves the snake: its length stays, the head
/// advances one cell in the direction of the tick, the cell it left becomes
/// the first of the body, every other segment moves one place back, and the
/// old tail is gone.
pub proof fn lemma_step_without_contact(s: SnakeView, food: GridPosition, width: i16, height: i16)
    requires
        s.outcome(food, width, height) is None,
    ensures
        s.step(food, width, height).ate is None,
        s.step(food, width, height).length() == s.length(),
        s.step(food, width, height).head == s.head.moved(s.heading(), width, height),
        s.step(food, width, height).body.len() == s.body.len(),
        forall|i: int|
            0 <= i < s.body.len() ==> #[trigger] s.step(food, width, height).body[i] == s.cells()[i],
        s.body.len() > 0 ==> s.step(food, width, height).body[0] == s.head,
{
}

/// A tick whose head lands on the food, and not on the snake, eats it: the
/// snake grows by one cell, the cell the head left becomes the first of the
/// body, and the whole old body, tail included, stays where it was.
pub proof fn lemma_step_onto_food(s: SnakeView, food: GridPosition, width: i16, height: i16)
    requires
        s.next_head(width, height) == food,
        !s.cells().contains(food),
    ensures
        s.step(food, width, height).ate == Some(Ate::Food),
        s.step(food, width, height).length() == s.length() + 1,
        s.step(food, width, height).head == food,
        s.step(food, width, height).body == s.cells(),
        s.step(food, width, height).body.len() == s.body.len() + 1,
        s.step(food, width, height).body[0] == s.head,
        forall|i: int|
            0 <= i < s.body.len() ==> #[trigger] s.step(food, width, height).body[i + 1] == s.body[i],
{
}

/// A tick whose head lands on a cell of the snake bites it, wherever the food
/// lies. The tail is kept, so the snake is one cell longer and the head's cell
/// occurs in the body.
pub proof fn lemma_step_onto_self(s: SnakeView, food: GridPosition, width: i16, height: i16)
    requires
        s.cells().contains(s.next_head(width, height)),
    ensures
        s.step(food, width, height).ate == Some(Ate::Itself),
        s.step(food, width, height).length() == s.length() + 1,
        s.step(food, width, height).body == s.cells(),
        s.step(food, width, height).body.contains(s.step(food, width, height).head),
{
}

/// A tick sets both directions to the one it moved in. It promotes a buffered
/// request, and empties the buffer, exactly when the direction had not changed
/// since the tick before; otherwise the buffer is left as it was.
pub proof fn lemma_step_commits_direction(s: SnakeView, food: GridPosition, width: i16, height: i16)
    ensures
        s.step(food, width, height).dir == s.step(food, width, height).last_update_dir,
        s.step(food, width, height).head == s.head.moved(
            s.step(food, width, height).dir,
            width,
            height,
        ),
        s.dir == s.last_update_dir && s.next_dir is Some ==> s.step(food, width, height).dir
            == s.next_dir->0 && s.step(food, width, height).next_dir is None,
        s.dir != s.last_update_dir || s.next_dir is None ==> s.step(food, width, height).dir
            == s.dir && s.step(food, width, height).next_dir == s.next_dir,
{
}

/// On a snake whose cells are all different, a tick leaves them all different
/// unless the snake bit itself, and then it does not: two cells of the snake
/// coincide exactly when the last tick ended the game.
pub proof fn lemma_step_cells_distinct(s: SnakeView, food: GridPosition, width: i16, height: i16)
    requires
        s.cells().no_duplicates(),
    ensures
        s.step(food, width, height).cells().no_duplicates() <==> s.step(food, width, height).ate
            != Some(Ate::Itself),
{
    let t = s.step(food, width, height);
    let target = s.next_head(width, height);
    if s.cells().contains(target) {
        let i = choose|i: int| 0 <= i < s.cells().len() && s.cells()[i] == target;
        assert(t.cells()[0] == target);
        assert(t.cells()[i + 1] == s.cells()[i]);
    } else {
        assert forall|i: int, j: int|
            0 <= i < t.cells().len() && 0 <= j < t.cells().len() && i != j implies t.cells()[i]
            != t.cells()[j] by {
            if i > 0 {
                assert(t.cells()[i] == s.cells()[i - 1]);
            }
            if j > 0 {
                assert(t.cells()[j] == s.cells()[j - 1]);
            }
        }
    }
}

/// A request changes no cell of the snake and not what it last ate.
pub proof fn lemma_steer_keeps_cells(s: SnakeView, requested: Direction)
    ensures
        s.steer(requested).cells() == s.cells(),
        s.steer(requested).ate == s.ate,
        s.steer(requested).last_update_dir == s.last_update_dir,
{
}

/// A request to reverse the last move changes neither the direction nor the
/// buffer, provided that no change of direction is waiting for its tick or
/// that the same request is buffered already.
pub proof fn lemma_reversal_rejected(s: SnakeView, requested: Direction)
    requires
        requested == s.last_update_dir.opposite(),
        s.dir == s.last_update_dir || s.next_dir == Some(requested),
    ensures
        s.steer(requested) == s,
{
}

/// A request never makes the direction the reverse of the last move, and a
/// request that is newly buffered never reverses the direction that waits for
/// its tick.
pub proof fn lemma_never_turns_back(s: SnakeView, requested: Direction)
    ensures
        s.steer(requested).dir != s.last_update_dir.opposite() || s.dir
            == s.last_update_dir.opposite(),
        s.steer(requested).next_dir == Some(requested) && s.next_dir != Some(requested)
            ==> requested != s.dir.opposite(),
{
}

/// A request for the direction in which the snake already moves, with no
/// change waiting for its tick, leaves the snake as it is, however often it
/// is made.
pub proof fn lemma_same_direction_idempotent(s: SnakeView, requested: Direction)
    requires
        s.dir == requested,
        s.last_update_dir == requested,
    ensures
        s.steer(requested) == s,
        s.steer(requested).steer(requested) == s,
{
}

/// Two requests inside one tick window: from a snake that has consumed its
/// last change, a turn to `first` takes effect at once, and a second request
/// that does not reverse `first` is buffered. The next tick moves in `first`
/// and keeps the buffer; the tick after it promotes the buffered request and
/// moves in `second`.
pub proof fn lemma_two_requests_queue(
    s: SnakeView,
    first: Direction,
    second: Direction,
    food: GridPosition,
    later_food: GridPosition,
    width: i16,
    height: i16,
)
    requires
        s.dir == s.last_update_dir,
        first != s.dir,
        first != s.dir.opposite(),
        second != first.opposite(),
    ensures
        s.steer(first).dir == first,
        s.steer(first).next_dir == s.next_dir,
        s.steer(first).steer(second).dir == first,
        s.steer(first).steer(second).next_dir == Some(second),
        s.steer(first).steer(second).step(food, width, height).head == s.head.moved(
            first,
            width,
            height,
        ),
        s.steer(first).steer(second).step(food, width, height).dir == first,
        s.steer(first).steer(second).step(food, width, height).next_dir == Some(second),
        s.steer(first).steer(second).step(food, width, height).step(later_food, width, height).dir
            == second,
        s.steer(first).steer(second).step(food, width, height).step(
            later_food,
            width,
            height,
        ).next_dir is None,
        s.steer(first).steer(second).step(food, width, height).step(later_food, width, height).head
            == s.head.moved(first, width, height).moved(second, width, height),
{
}

} // verus!
