use oorandom::Rand32;
use vstd::prelude::*;

use crate::position::{on_board, opposite, Direction, Position, BOARD_H, BOARD_W};
use crate::snake::{lemma_self_collision, next_head, stepped, touch_of, Food, Snake, Touched};

verus! {

/// One game: the snake, the food, the generator that places the food, and
/// whether the game is over.
pub struct GameState {
    /// Set once the snake runs into itself; never cleared.
    pub over: bool,
    pub rng: Rand32,
    pub snake: Snake,
    pub food: Food,
}

/// The snake after a key press asking for `dir`. A request for the reverse of
/// the current direction is ignored; while a turn has not yet been stepped in,
/// the request is queued; otherwise it becomes the direction at once.
pub open spec fn turned(pre: Snake, post: Snake, dir: Direction) -> bool {
    &&& post.body@ == pre.body@
    &&& post.last_dir == pre.last_dir
    &&& post.touched == pre.touched
    &&& if dir == opposite(pre.dir) {
        post.dir == pre.dir && post.next_dir == pre.next_dir
    } else if pre.dir != pre.last_dir {
        post.dir == pre.dir && post.next_dir == Some(dir)
    } else {
        post.dir == dir && post.next_dir == pre.next_dir
    }
}

/// `post` is the game that one tick makes of `pre`. A game that is over stays
/// as it is. Otherwise the snake takes a step; the game is over exactly when
/// the head ran into the body, and the food stays where it was unless it was
/// eaten.
pub open spec fn ticked(pre: GameState, post: GameState) -> bool {
    if pre.over {
        &&& post.over
        &&& post.snake == pre.snake
        &&& post.food == pre.food
    } else {
        let touched = touch_of(pre.snake, pre.food.0);
        &&& stepped(pre.snake, post.snake, pre.food.0)
        &&& post.over == (touched == Some(Touched::Body))
        &&& touched != Some(Touched::Food) ==> post.food == pre.food
    }
}

impl GameState {
    /// The session invariant: a well-formed snake and food on the board.
    pub open spec fn wf(&self) -> bool {
        self.snake.wf() && on_board(self.food.0)
    }

    /// A new game: the snake's head a quarter of the way across and half way
    /// down the board, and the food placed by a generator seeded with `seed`.
    pub fn new(seed: u64) -> (r: Self)
        ensures
            r.wf(),
            !r.over,
            r.snake.body@ == seq![
                Position { x: 10, y: 20 },
                Position { x: 9, y: 20 },
            ],
            r.snake.dir == Direction::Right,
            r.snake.last_dir == Direction::Right,
            r.snake.next_dir is None,
            r.snake.touched is None,
    {
        let snake = Snake::new(Position::new(BOARD_W / 4, BOARD_H / 2));
        let mut rng = Rand32::new(seed);
        let food = Food(Position::random(&mut rng, BOARD_W, BOARD_H));
        Self { over: false, rng, snake, food }
    }

    /// One tick of the game. A game that is over stays as it is. Otherwise the
    /// snake takes a step; running into itself ends the game, and eating the
    /// food places new food at random.
    pub fn update(&mut self)
        requires
            old(self).wf(),
        ensures
            final(self).wf(),
            ticked(*old(self), *final(self)),
    {
        if !self.over {
            self.snake.update(&self.food);
            match self.snake.touched {
                Some(Touched::Body) => {
                    self.over = true;
                },
                Some(Touched::Food) => {
                    self.food = Food(Position::random(&mut self.rng, BOARD_W, BOARD_H));
                },
                None => {},
            }
        }
    }

    /// A key press asking for `dir`.
    pub fn key_down_event(&mut self, dir: Direction)
        ensures
            final(self).over == old(self).over,
            final(self).food == old(self).food,
            turned(old(self).snake, final(self).snake, dir),
    {
        if self.snake.dir == dir.inverse() {
        } else if self.snake.dir != self.snake.last_dir {
            self.snake.next_dir = Some(dir);
        } else {
            self.snake.dir = dir;
        }
    }
}

/// A tick on which the new head lands on the body reports the collision and
/// ends the game.
pub proof fn lemma_collision_ends_game(pre: GameState, post: GameState)
    requires
        pre.wf(),
        !pre.over,
        pre.snake.body@.contains(next_head(pre.snake)),
        ticked(pre, post),
    ensures
        post.snake.touched == Some(Touched::Body),
        post.over,
{
    lemma_self_collision(pre.snake, pre.food.0);
}

/// Once over, a game stays over and nothing in it moves.
pub proof fn lemma_over_is_final(pre: GameState, post: GameState)
    requires
        pre.over,
        ticked(pre, post),
    ensures
        post.over,
        post.snake == pre.snake,
        post.food == pre.food,
{
}

} // verus!
