//! The snake: an ordered chain of segments with a heading, and the rules by
//! which it turns, moves and grows.

use crate::geometry::{check_collision, Borders, Position, CELL_SIZE};
use vstd::prelude::*;

verus! {

/// A heading; `Unset` only before the first move.
#[derive(Clone, Copy, Debug, PartialEq, Eq, Structural)]
pub enum Direction {
    Up,
    Down,
    Left,
    Right,
    Unset,
}

/// `requested` would turn the snake straight back on itself.
pub open spec fn is_reversal(current: Direction, requested: Direction) -> bool {
    (current == Direction::Up && requested == Direction::Down) || (current == Direction::Down
        && requested == Direction::Up) || (current == Direction::Left && requested
        == Direction::Right) || (current == Direction::Right && requested == Direction::Left)
}

/// The heading after a request: reversals are refused, anything else is taken.
pub open spec fn next_heading(current: Direction, requested: Direction) -> Direction {
    if is_reversal(current, requested) {
        current
    } else {
        requested
    }
}

/// `v + d`, held at the largest `u16`.
pub open spec fn add_clamped(v: u16, d: u16) -> u16 {
    if v + d > u16::MAX {
        u16::MAX
    } else {
        (v + d) as u16
    }
}

/// `v - d`, held at zero.
pub open spec fn sub_clamped(v: u16, d: u16) -> u16 {
    if v < d {
        0
    } else {
        (v - d) as u16
    }
}

/// `p` moved by `step` pixels towards `d`, clamped to the range of `u16`.
pub open spec fn displaced(p: Position, d: Direction, step: u16) -> Position {
    match d {
        Direction::Up => Position { y: sub_clamped(p.y, step), ..p },
        Direction::Down => Position { y: add_clamped(p.y, step), ..p },
        Direction::Left => Position { x: sub_clamped(p.x, step), ..p },
        Direction::Right => Position { x: add_clamped(p.x, step), ..p },
        Direction::Unset => p,
    }
}

/// One body unit of the snake.
#[derive(Clone, Copy, Debug, PartialEq, Eq, Structural)]
pub struct SnakeSegment {
    pub position: Position,
}

/// The snake. `segments` runs from the tail (index 0) to the head; `position`
/// is the head's position and `length` the number of segments less one.
#[derive(Debug)]
pub struct Snake {
    pub length: u16,
    pub position: Position,
    pub segments: Vec<SnakeSegment>,
    pub direction: Direction,
    pub speed: u16,
    pub borders: Borders,
}

impl Snake {
    /// The segment count is `length + 1` and the snake moves one cell per step.
    pub open spec fn wf(&self) -> bool {
        self.segments@.len() == self.length + 1 && self.speed == CELL_SIZE
    }

    /// The positions of the segments, tail first.
    pub open spec fn body(&self) -> Seq<Position> {
        self.segments@.map_values(|s: SnakeSegment| s.position)
    }

    /// The bound check made before a move: the head is displaced only when
    /// it is within the right border or within the bottom border.
    pub open spec fn may_move(&self) -> bool {
        self.position.x <= self.borders.w || self.position.y <= self.borders.h
    }

    /// Where the head stands after one move with heading `d`.
    pub open spec fn head_after(&self, d: Direction) -> Position {
        if self.may_move() {
            displaced(self.position, d, self.speed)
        } else {
            self.position
        }
    }

    /// Some segment other than the one at index `length` stands on the head.
    pub open spec fn bites_itself(&self) -> bool {
        exists|i: int|
            0 <= i < self.body().len() && i != self.length && #[trigger] self.body()[i]
                == self.position
    }

    /// A snake of one segment at `position`, with no heading yet.
    pub fn new(position: Position, borders: Borders) -> (r: Snake)
        ensures
            r.wf(),
            r.length == 0,
            r.position == position,
            r.body() == seq![position],
            r.direction == Direction::Unset,
            r.speed == CELL_SIZE,
            r.borders == borders,
    {
        let initial_segment = SnakeSegment { position };
        let r = Snake {
            length: 0,
            position,
            segments: vec![initial_segment],
            direction: Direction::Unset,
            speed: CELL_SIZE,
            borders,
        };
        assert(r.body() =~= seq![position]);
        r
    }

    /// Adds one unit of length and a segment at `apple_old_position`; the
    /// head does not move.
    pub fn grow(&mut self, apple_old_position: Position)
        requires
            old(self).wf(),
            old(self).length < u16::MAX,
        ensures
            final(self).wf(),
            final(self).length == old(self).length + 1,
            final(self).body() == old(self).body().push(apple_old_position),
            final(self).position == old(self).position,
            final(self).direction == old(self).direction,
            final(self).speed == old(self).speed,
            final(self).borders == old(self).borders,
    {
        self.length = self.length + 1;
        self.segments.push(
            SnakeSegment { position: Position { x: apple_old_position.x, y: apple_old_position.y } },
        );
        assert(self.body() =~= old(self).body().push(apple_old_position));
    }

    /// Takes the requested heading unless it reverses the current one.
    pub fn change_direction(&mut self, new_direction: Direction)
        ensures
            final(self).direction == next_heading(old(self).direction, new_direction),
            final(self).length == old(self).length,
            final(self).position == old(self).position,
            final(self).segments@ == old(self).segments@,
            final(self).speed == old(self).speed,
            final(self).borders == old(self).borders,
    {
        if self.direction == Direction::Left && new_direction == Direction::Right {
            return ;
        }
        if self.direction == Direction::Right && new_direction == Direction::Left {
            return ;
        }
        if self.direction == Direction::Up && new_direction == Direction::Down {
            return ;
        }
        if self.direction == Direction::Down && new_direction == Direction::Up {
            return ;
        }
        self.direction = new_direction;
    }

    /// Moves the head one step along the heading (when the bound check lets
    /// it), drops the tail segment and appends one at the head.
    pub fn move_forward(&mut self)
        requires
            old(self).wf(),
        ensures
            final(self).wf(),
            final(self).segments@.len() == old(self).segments@.len(),
            final(self).position == old(self).head_after(old(self).direction),
            final(self).body() == old(self).body().drop_first().push(final(self).position),
            final(self).length == old(self).length,
            final(self).direction == old(self).direction,
            final(self).speed == old(self).speed,
            final(self).borders == old(self).borders,
    {
        if self.position.x <= self.borders.w || self.position.y <= self.borders.h {
            match self.direction {
                Direction::Up => self.position.y = self.position.y.saturating_sub(self.speed),
                Direction::Down => self.position.y = self.position.y.saturating_add(self.speed),
                Direction::Right => self.position.x = self.position.x.saturating_add(self.speed),
                Direction::Left => self.position.x = self.position.x.saturating_sub(self.speed),
                Direction::Unset => {},
            }
        }
        self.segments.remove(0);
        self.segments.push(
            SnakeSegment { position: Position { x: self.position.x, y: self.position.y } },
        );
        assert(self.body() =~= old(self).body().drop_first().push(self.position));
    }

    /// Whether a segment other than the head's stands on the head.
    pub fn hits_itself(&self) -> (r: bool)
        requires
            self.wf(),
        ensures
            r == self.bites_itself(),
    {
        let n = self.segments.len();
        let head_index = self.length as usize;
        let mut i: usize = 0;
        while i < n
            invariant
                n == self.segments@.len(),
                head_index == self.length,
                0 <= i <= n,
                forall|j: int|
                    0 <= j < i && j != self.length ==> #[trigger] self.segments@[j].position
                        != self.position,
            decreases n - i,
        {
            if i != head_index && check_collision(self.position, self.segments[i].position) {
                assert(self.body()[i as int] == self.position);
                return true;
            }
            i = i + 1;
        }
        assert forall|j: int| 0 <= j < self.body().len() && j != self.length implies #[trigger] self.body()[j] != self.position by {
            assert(self.body()[j] == self.segments@[j].position);
        }
        false
    }
}

/// A move, where the bound check lets it happen, displaces the head by exactly
/// one cell size along the heading, held at zero and at the largest `u16`
/// instead of wrapping; without a heading the head stays put.
pub proof fn lemma_move_is_one_cell(s: Snake, d: Direction)
    requires
        s.wf(),
        s.may_move(),
    ensures
        ({
            let (x, y) = (s.position.x as int, s.position.y as int);
            let r = s.head_after(d);
            let step = CELL_SIZE as int;
            &&& d == Direction::Up ==> r.x == x && r.y == (if y >= step { y - step } else { 0 })
            &&& d == Direction::Down ==> r.x == x && r.y == (if y + step <= u16::MAX { y + step } else { u16::MAX as int })
            &&& d == Direction::Left ==> r.y == y && r.x == (if x >= step { x - step } else { 0 })
            &&& d == Direction::Right ==> r.y == y && r.x == (if x + step <= u16::MAX { x + step } else { u16::MAX as int })
            &&& d == Direction::Unset ==> r == s.position
        }),
{
}

/// Heading requests obey two rules: a reversal (Up/Down, Down/Up, Left/Right,
/// Right/Left) leaves the heading as it was and every other request, including
/// any request made while no heading is set, is taken; and making the same
/// request twice in a row has the effect of making it once.
pub proof fn lemma_heading_rules(current: Direction, requested: Direction)
    ensures
        is_reversal(current, requested) <==> (current, requested) == (Direction::Up, Direction::Down)
            || (current, requested) == (Direction::Down, Direction::Up) || (current, requested) == (
        Direction::Left, Direction::Right) || (current, requested) == (Direction::Right, Direction::Left),
        is_reversal(current, requested) ==> next_heading(current, requested) == current,
        !is_reversal(current, requested) ==> next_heading(current, requested) == requested,
        current == Direction::Unset ==> next_heading(current, requested) == requested,
        next_heading(next_heading(current, requested), requested) == next_heading(current, requested),
{
}

} // verus!
