use std::collections::VecDeque;

use vstd::prelude::*;

use crate::position::{moved, on_board, Direction, Position};

verus! {

/// What the head ran into on the last tick.
#[derive(Clone, Copy, Debug, PartialEq, Eq, Structural)]
pub enum Touched {
    Body,
    Food,
}

/// The food on the board.
#[derive(Clone, Copy, Debug, PartialEq, Eq, Structural)]
pub struct Food(pub Position);

/// The snake. Its body lists the occupied cells from head to tail: the head is
/// the body's first element and there is no separate copy of it.
pub struct Snake {
    pub body: VecDeque<Position>,
    /// Direction of the next step.
    pub dir: Direction,
    /// Direction of the last step taken.
    pub last_dir: Direction,
    /// A turn queued while another turn had not yet been taken.
    pub next_dir: Option<Direction>,
    /// What the head ran into on the last tick, if anything.
    pub touched: Option<Touched>,
}

/// The direction a tick moves in: a queued turn is taken only once the
/// current direction has been stepped in at least once.
pub open spec fn committed_dir(s: Snake) -> Direction {
    if s.last_dir == s.dir && s.next_dir is Some {
        s.next_dir->Some_0
    } else {
        s.dir
    }
}

/// The queued turn left after a tick.
pub open spec fn pending_after(s: Snake) -> Option<Direction> {
    if s.last_dir == s.dir && s.next_dir is Some {
        None
    } else {
        s.next_dir
    }
}

/// Where the head goes on the next tick.
pub open spec fn next_head(s: Snake) -> Position {
    moved(s.body@[0], committed_dir(s))
}

/// What the head runs into on the next tick: any cell of the body as it stood
/// before the tick (the old tail included), else the food.
pub open spec fn touch_of(s: Snake, food: Position) -> Option<Touched> {
    if s.body@.contains(next_head(s)) {
        Some(Touched::Body)
    } else if next_head(s) == food {
        Some(Touched::Food)
    } else {
        None
    }
}

/// The body after the next tick: the new head in front; the tail is dropped
/// unless the head ran into something.
pub open spec fn next_body(s: Snake, food: Position) -> Seq<Position> {
    if touch_of(s, food) is None {
        seq![next_head(s)] + s.body@.drop_last()
    } else {
        seq![next_head(s)] + s.body@
    }
}

/// `post` is the snake that one tick makes of `pre` with the food at `food`.
pub open spec fn stepped(pre: Snake, post: Snake, food: Position) -> bool {
    &&& post.body@ == next_body(pre, food)
    &&& post.dir == committed_dir(pre)
    &&& post.last_dir == committed_dir(pre)
    &&& post.next_dir == pending_after(pre)
    &&& post.touched == touch_of(pre, food)
}

impl Snake {
    /// The snake has a head and lies on the board.
    pub open spec fn wf(&self) -> bool {
        &&& self.body@.len() >= 1
        &&& forall|i: int| 0 <= i < self.body@.len() ==> on_board(#[trigger] self.body@[i])
    }

    /// A snake of two cells, its head at `pos` and its tail one cell to the
    /// left, moving right.
    pub fn new(pos: Position) -> (r: Self)
        requires
            on_board(pos),
        ensures
            r.wf(),
            r.body@ == seq![pos, moved(pos, Direction::Left)],
            r.dir == Direction::Right,
            r.last_dir == Direction::Right,
            r.next_dir is None,
            r.touched is None,
    {
        let mut body = VecDeque::new();
        body.push_back(pos);
        body.push_back(Position::new_from_move(pos, Direction::Left));
        Self {
            body,
            dir: Direction::Right,
            last_dir: Direction::Right,
            next_dir: None,
            touched: None,
        }
    }

    /// The head stands on the food.
    pub fn ate_food(&self, food: &Food) -> (r: bool)
        requires
            self.body@.len() >= 1,
        ensures
            r == (self.body@[0] == food.0),
    {
        self.body[0] == food.0
    }

    /// The head stands on a cell of the rest of the body.
    pub fn eats_body(&self) -> (r: bool)
        requires
            self.body@.len() >= 1,
        ensures
            r == self.body@.drop_first().contains(self.body@[0]),
    {
        let head = self.body[0];
        let n = self.body.len();
        let mut i: usize = 1;
        while i < n
            invariant
                1 <= i <= n,
                n == self.body@.len(),
                head == self.body@[0],
                forall|j: int| 1 <= j < i ==> self.body@[j] != head,
            decreases n - i,
        {
            if self.body[i] == head {
                assert(self.body@.drop_first()[i - 1] == head);
                return true;
            }
            i = i + 1;
        }
        proof {
            assert forall|k: int| 0 <= k < self.body@.drop_first().len() implies
                self.body@.drop_first()[k] != head by {
                assert(self.body@.drop_first()[k] == self.body@[k + 1]);
            }
        }
        false
    }

    /// One tick: take a queued turn if it is due, step the head forward, look
    /// for a collision with the body and then with the food, and drop the tail
    /// unless something was hit.
    pub fn update(&mut self, food: &Food)
        requires
            old(self).wf(),
        ensures
            final(self).wf(),
            stepped(*old(self), *final(self), food.0),
    {
        if self.last_dir == self.dir {
            if let Some(d) = self.next_dir {
                self.dir = d;
                self.next_dir = None;
            }
        }
        let ghost pre_body = self.body@;
        let new_head = Position::new_from_move(self.body[0], self.dir);
        self.body.push_front(new_head);
        assert(self.body@.drop_first() =~= pre_body);
        if self.eats_body() {
            self.touched = Some(Touched::Body);
        } else if self.ate_food(food) {
            self.touched = Some(Touched::Food);
        } else {
            self.touched = None;
        }
        if self.touched.is_none() {
            self.body.pop_back();
            assert(self.body@ =~= seq![new_head] + pre_body.drop_last());
        } else {
            assert(self.body@ =~= seq![new_head] + pre_body);
        }
        self.last_dir = self.dir;
        proof {
            assert forall|i: int| 0 <= i < self.body@.len() implies on_board(
                #[trigger] self.body@[i],
            ) by {
                if i > 0 {
                    assert(self.body@[i] == pre_body[i - 1]);
                }
            }
        }
    }
}

/// A tick whose new head lands on the body reports a collision with the body.
pub proof fn lemma_self_collision(s: Snake, food: Position)
    requires
        s.wf(),
        s.body@.contains(next_head(s)),
    ensures
        touch_of(s, food) == Some(Touched::Body),
{
}

/// A tick whose new head lands on the food, and not on the body, reports the
/// food and makes the body one cell longer.
pub proof fn lemma_food_grows(s: Snake, food: Position)
    requires
        s.wf(),
        !s.body@.contains(next_head(s)),
        next_head(s) == food,
    ensures
        touch_of(s, food) == Some(Touched::Food),
        next_body(s, food).len() == s.body@.len() + 1,
{
}

/// A tick that hits nothing leaves the body's length as it was.
pub proof fn lemma_plain_tick_keeps_length(s: Snake, food: Position)
    requires
        s.wf(),
        touch_of(s, food) is None,
    ensures
        next_body(s, food).len() == s.body@.len(),
{
}

} // verus!
