//! One game session and the step that advances it by one tick: apply the
//! player's input, move the snake, then resolve food and self-collision.

use crate::apple::Apple;
use crate::geometry::{check_collision, placeable, Borders, Position};
use crate::snake::{next_heading, Direction, Snake};
use vstd::prelude::*;

verus! {

/// What the player asked for since the last tick.
#[derive(Clone, Copy, Debug, PartialEq, Eq, Structural)]
pub enum Input {
    /// Quit the game (window closed or Escape pressed).
    Quit,
    /// Turn towards a heading.
    Turn(Direction),
}

/// Whether the session goes on after a tick.
#[derive(Clone, Copy, Debug, PartialEq, Eq, Structural)]
pub enum Status {
    Running,
    Terminated,
}

/// The inputs hold a request to quit.
pub open spec fn quits(inputs: Seq<Input>) -> bool {
    exists|i: int| 0 <= i < inputs.len() && #[trigger] inputs[i] == Input::Quit
}

/// The heading after the turn requests of `inputs` are applied in order,
/// from `current`, up to the first request to quit.
pub open spec fn steer(current: Direction, inputs: Seq<Input>) -> Direction
    decreases inputs.len(),
{
    if inputs.len() == 0 {
        current
    } else {
        match inputs[0] {
            Input::Quit => current,
            Input::Turn(d) => steer(next_heading(current, d), inputs.drop_first()),
        }
    }
}

/// What a renderer needs of one moment of the game: the apple, the segment
/// positions tail first, and the index of the head among them.
#[derive(Debug)]
pub struct Frame {
    pub apple: Position,
    pub cells: Vec<Position>,
    pub head: usize,
}

/// A game session: the snake, the apple and the play field.
#[derive(Debug)]
pub struct Game {
    pub snake: Snake,
    pub apple: Apple,
    pub borders: Borders,
}

impl Game {
    /// The snake is well formed and moves within the session's valid borders.
    pub open spec fn wf(&self) -> bool {
        self.snake.wf() && self.borders.valid() && self.snake.borders == self.borders
    }

    /// The heading the snake takes for the next move.
    pub open spec fn heading_for(&self, inputs: Seq<Input>) -> Direction {
        steer(self.snake.direction, inputs)
    }

    /// The head position after the next move.
    pub open spec fn next_head(&self, inputs: Seq<Input>) -> Position {
        self.snake.head_after(self.heading_for(inputs))
    }

    /// The segment positions after the next move, before any growth.
    pub open spec fn next_body(&self, inputs: Seq<Input>) -> Seq<Position> {
        self.snake.body().drop_first().push(self.next_head(inputs))
    }

    /// After the next move, the head stands on the apple.
    pub open spec fn eats(&self, inputs: Seq<Input>) -> bool {
        self.next_head(inputs) == self.apple.position
    }

    /// After the next move, a segment other than the one at index `length`
    /// stands on the head.
    pub open spec fn bites(&self, inputs: Seq<Input>) -> bool {
        exists|i: int|
            0 <= i < self.next_body(inputs).len() && i != self.snake.length
                && #[trigger] self.next_body(inputs)[i] == self.next_head(inputs)
    }

    /// A new session: a snake at the origin with no heading, and an apple on
    /// a random cell.
    pub fn new(borders: Borders) -> (r: Game)
        requires
            borders.valid(),
        ensures
            r.wf(),
            r.borders == borders,
            r.snake.length == 0,
            r.snake.position == (Position { x: 0, y: 0 }),
            r.snake.body() == seq![Position { x: 0, y: 0 }],
            r.snake.direction == Direction::Unset,
            placeable(r.apple.position, borders),
    {
        let snake = Snake::new(Position { x: 0, y: 0 }, borders);
        let apple = Apple::new(borders);
        Game { snake, apple, borders }
    }

    /// Advances the session by one tick. The inputs are applied in order; a
    /// request to quit ends the session at once. Otherwise the snake moves;
    /// if its head lands on the apple it grows there and the apple moves to a
    /// random cell, else the session ends if the head lands on its body.
    pub fn tick(&mut self, inputs: &Vec<Input>) -> (r: Status)
        requires
            old(self).wf(),
            old(self).snake.length < u16::MAX,
        ensures
            final(self).wf(),
            final(self).borders == old(self).borders,
            final(self).snake.direction == old(self).heading_for(inputs@),
            quits(inputs@) ==> r == Status::Terminated && final(self).snake.position
                == old(self).snake.position && final(self).snake.body() == old(self).snake.body()
                && final(self).snake.length == old(self).snake.length && final(self).apple
                == old(self).apple,
            !quits(inputs@) ==> final(self).snake.position == old(self).next_head(inputs@),
            !quits(inputs@) && old(self).eats(inputs@) ==> r == Status::Running
                && final(self).snake.length == old(self).snake.length + 1 && final(self).snake.body()
                == old(self).next_body(inputs@).push(old(self).apple.position) && placeable(
                final(self).apple.position,
                final(self).borders,
            ),
            !quits(inputs@) && !old(self).eats(inputs@) ==> final(self).snake.length == old(
                self,
            ).snake.length && final(self).snake.body() == old(self).next_body(inputs@)
                && final(self).apple == old(self).apple && (r == Status::Terminated <==> old(
                self,
            ).bites(inputs@)),
    {
        let n = inputs.len();
        let mut i: usize = 0;
        assert(inputs@.subrange(0, n as int) =~= inputs@);
        while i < n
            invariant
                n == inputs@.len(),
                0 <= i <= n,
                self.wf(),
                steer(self.snake.direction, inputs@.subrange(i as int, n as int)) == old(
                    self,
                ).heading_for(inputs@),
                forall|j: int| 0 <= j < i ==> #[trigger] inputs@[j] != Input::Quit,
                self.snake.length == old(self).snake.length,
                self.snake.position == old(self).snake.position,
                self.snake.segments@ == old(self).snake.segments@,
                self.snake.speed == old(self).snake.speed,
                self.snake.borders == old(self).snake.borders,
                self.apple == old(self).apple,
                self.borders == old(self).borders,
            decreases n - i,
        {
            assert(inputs@.subrange(i as int, n as int).drop_first() =~= inputs@.subrange(
                i + 1,
                n as int,
            ));
            match inputs[i] {
                Input::Quit => {
                    assert(self.snake.body() == old(self).snake.body());
                    return Status::Terminated;
                },
                Input::Turn(d) => {
                    self.snake.change_direction(d);
                },
            }
            i = i + 1;
        }
        assert(inputs@.subrange(n as int, n as int).len() == 0);
        assert(!quits(inputs@));
        self.snake.move_forward();
        if check_collision(self.snake.position, self.apple.position) {
            self.snake.grow(self.apple.position);
            self.apple.relocate(self.borders);
            Status::Running
        } else if self.snake.hits_itself() {
            Status::Terminated
        } else {
            Status::Running
        }
    }

    /// The current moment of the game, for drawing.
    pub fn frame(&self) -> (r: Frame)
        ensures
            r.apple == self.apple.position,
            r.cells@ == self.snake.body(),
            r.head == self.snake.length,
    {
        let n = self.snake.segments.len();
        let mut cells: Vec<Position> = Vec::new();
        let mut i: usize = 0;
        while i < n
            invariant
                n == self.snake.segments@.len(),
                0 <= i <= n,
                cells@ == self.snake.body().subrange(0, i as int),
            decreases n - i,
        {
            cells.push(self.snake.segments[i].position);
            i = i + 1;
            assert(cells@ =~= self.snake.body().subrange(0, i as int));
        }
        assert(cells@ =~= self.snake.body());
        Frame { apple: self.apple.position, cells, head: self.snake.length as usize }
    }
}

} // verus!
