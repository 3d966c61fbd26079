//! The snake: its body, its heading, and the requests queued between ticks.

use crate::grid::{wrap, wrap_spec, Position, GRID_HEIGHT, GRID_WIDTH};
use std::collections::VecDeque;
use vstd::prelude::*;

verus! {

/// One of the four headings a snake can travel in.
#[derive(Clone, Copy, Debug, PartialEq, Eq, Structural)]
pub enum Direction {
    Left,
    Right,
    Up,
    Down,
}

impl Direction {
    /// The heading that points the other way along the same axis.
    pub open spec fn opposite(self) -> Direction {
        match self {
            Direction::Left => Direction::Right,
            Direction::Right => Direction::Left,
            Direction::Up => Direction::Down,
            Direction::Down => Direction::Up,
        }
    }
}

/// The cell next to `from` in direction `heading`, across the board's edge
/// where `from` lies on it.
pub open spec fn neighbour(from: Position, heading: Direction) -> Position {
    match heading {
        Direction::Left => Position {
            x: wrap_spec(from.x - 1, GRID_WIDTH as int) as i16,
            y: from.y,
        },
        Direction::Right => Position {
            x: wrap_spec(from.x + 1, GRID_WIDTH as int) as i16,
            y: from.y,
        },
        Direction::Up => Position {
            x: from.x,
            y: wrap_spec(from.y - 1, GRID_HEIGHT as int) as i16,
        },
        Direction::Down => Position {
            x: from.x,
            y: wrap_spec(from.y + 1, GRID_HEIGHT as int) as i16,
        },
    }
}

/// A requested heading is taken up unless it repeats the current heading or
/// reverses it.
pub open spec fn turn_allowed(requested: Direction, current: Direction) -> bool {
    requested != current && requested != current.opposite()
}

/// The head of `body` lies on one of the segments behind it.
pub open spec fn head_hits_body(body: Seq<Position>) -> bool {
    exists|i: int| 1 <= i < body.len() && #[trigger] body[i] == body[0]
}

/// A snake as plain values: the body from head to tail, the heading, and the
/// requests that wait for the coming ticks, oldest first.
pub struct SnakeView {
    pub body: Seq<Position>,
    pub direction: Direction,
    pub queued_directions: Seq<Direction>,
    pub queued_grows: nat,
    pub is_alive: bool,
}

impl SnakeView {
    /// The body has a head, and every segment lies on the board.
    pub open spec fn valid(self) -> bool {
        &&& self.body.len() >= 1
        &&& forall|i: int| 0 <= i < self.body.len() ==> (#[trigger] self.body[i]).on_grid()
    }

    /// A snake of one segment that heads right, with nothing queued.
    pub open spec fn fresh(start: Position) -> SnakeView {
        SnakeView {
            body: seq![start],
            direction: Direction::Right,
            queued_directions: Seq::empty(),
            queued_grows: 0,
            is_alive: true,
        }
    }

    /// The snake with one more heading request at the back of the queue.
    pub open spec fn request(self, direction: Direction) -> SnakeView {
        SnakeView { queued_directions: self.queued_directions.push(direction), ..self }
    }

    /// The snake with one more pending growth.
    pub open spec fn request_growth(self) -> SnakeView {
        SnakeView { queued_grows: self.queued_grows + 1, ..self }
    }

    /// The heading for the coming tick: the oldest request where there is one
    /// and it is allowed, else the current heading.
    pub open spec fn next_direction(self) -> Direction {
        if self.queued_directions.len() > 0 && turn_allowed(
            self.queued_directions[0],
            self.direction,
        ) {
            self.queued_directions[0]
        } else {
            self.direction
        }
    }

    /// The body after one move: the head steps along the coming heading, each
    /// other segment takes the place of the one before it, and a pending
    /// growth adds a segment where the tail was.
    pub open spec fn next_body(self) -> Seq<Position> {
        let moved = seq![neighbour(self.body[0], self.next_direction())] + self.body.drop_last();
        if self.queued_grows > 0 {
            moved.push(self.body.last())
        } else {
            moved
        }
    }

    /// The snake one tick later. At most one heading request and at most one
    /// growth leave their queues. The snake dies where its head has come to
    /// lie on its body, and a dead snake stays dead.
    pub open spec fn advance(self) -> SnakeView {
        SnakeView {
            body: self.next_body(),
            direction: self.next_direction(),
            queued_directions: if self.queued_directions.len() > 0 {
                self.queued_directions.drop_first()
            } else {
                self.queued_directions
            },
            queued_grows: if self.queued_grows > 0 {
                (self.queued_grows - 1) as nat
            } else {
                0
            },
            is_alive: self.is_alive && !head_hits_body(self.next_body()),
        }
    }
}

/// The snake. Its body is never empty: the head is the first segment, the
/// tail the last. Requests to turn and to grow wait in their queues for the
/// ticks to come.
pub struct Snake {
    bits: Vec<Position>,
    is_alive: bool,
    queued_grows: VecDeque<bool>,
    queued_directions: VecDeque<Direction>,
    direction: Direction,
}

impl View for Snake {
    type V = SnakeView;

    closed spec fn view(&self) -> SnakeView {
        SnakeView {
            body: self.bits@,
            direction: self.direction,
            queued_directions: self.queued_directions@,
            queued_grows: self.queued_grows@.len(),
            is_alive: self.is_alive,
        }
    }
}

/// Moves one cell from `from` in direction `heading`.
fn step(from: Position, heading: Direction) -> (to: Position)
    requires
        from.on_grid(),
    ensures
        to == neighbour(from, heading),
        to.on_grid(),
{
    match heading {
        Direction::Left => Position { x: wrap(from.x - 1, GRID_WIDTH), y: from.y },
        Direction::Right => Position { x: wrap(from.x + 1, GRID_WIDTH), y: from.y },
        Direction::Up => Position { x: from.x, y: wrap(from.y - 1, GRID_HEIGHT) },
        Direction::Down => Position { x: from.x, y: wrap(from.y + 1, GRID_HEIGHT) },
    }
}

impl Snake {
    /// The body has a head, and every segment lies on the board.
    pub open spec fn wf(&self) -> bool {
        self@.valid()
    }

    /// A live snake of one segment at `start_rect`, heading right.
    pub fn new(start_rect: Position) -> (snake: Self)
        requires
            start_rect.on_grid(),
        ensures
            snake.wf(),
            snake@ == SnakeView::fresh(start_rect),
    {
        let mut snake = Snake {
            bits: Vec::new(),
            is_alive: true,
            queued_grows: VecDeque::new(),
            queued_directions: VecDeque::new(),
            direction: Direction::Right,
        };

        snake.bits.push(start_rect);
        assert(snake.bits@ =~= seq![start_rect]);
        snake
    }

    /// The segments of the body, from the head to the tail.
    pub fn segments(&self) -> (segments: &Vec<Position>)
        ensures
            segments@ == self@.body,
    {
        &self.bits
    }

    /// The heading that the snake travels in.
    pub fn direction(&self) -> (direction: Direction)
        ensures
            direction == self@.direction,
    {
        self.direction
    }

    /// Whether the snake is alive.
    pub fn is_alive(&self) -> (alive: bool)
        ensures
            alive == self@.is_alive,
    {
        self.is_alive
    }

    /// Ends the snake's life. Nothing else about it changes.
    pub fn kill(&mut self)
        ensures
            final(self)@ == (SnakeView { is_alive: false, ..old(self)@ }),
    {
        self.is_alive = false;
    }

    /// Sets whether the snake is alive. Only a power-up brings a snake back
    /// to life, so this is for the simulation alone.
    pub(crate) fn set_alive(&mut self, is_alive: bool)
        ensures
            final(self)@ == (SnakeView { is_alive, ..old(self)@ }),
    {
        self.is_alive = is_alive;
    }

    /// Asks for a new heading. The request waits in the queue; the heading
    /// itself changes on a tick at the earliest.
    pub fn set_direction(&mut self, direction: Direction)
        ensures
            final(self)@ == old(self)@.request(direction),
    {
        self.queued_directions.push_back(direction);
    }

    /// Asks for one more segment. The body grows on a tick, by one segment a
    /// tick, however many requests wait.
    pub fn grow(&mut self)
        ensures
            final(self)@ == old(self)@.request_growth(),
    {
        self.queued_grows.push_back(true);
    }

    /// Whether the head lies on `r`. The other segments do not count.
    pub fn check_collison(&self, r: &Position) -> (hit: bool)
        requires
            self.wf(),
        ensures
            hit == (self@.body[0] == *r),
    {
        self.bits[0] == *r
    }

    /// Whether the head lies on another segment of the body.
    pub fn check_self_collision(&self) -> (hit: bool)
        requires
            self.wf(),
        ensures
            hit == head_hits_body(self@.body),
    {
        let mut i: usize = 1;
        while i < self.bits.len()
            invariant
                1 <= i <= self.bits@.len(),
                forall|j: int| 1 <= j < i ==> #[trigger] self.bits@[j] != self.bits@[0],
            decreases self.bits@.len() - i,
        {
            if self.bits[i] == self.bits[0] {
                return true;
            }
            i += 1;
        }
        false
    }

    /// Whether a request for `new_direction` would be taken up now: it is,
    /// unless it repeats the heading or reverses it.
    pub fn should_change_direction(&self, new_direction: &Direction) -> (change: bool)
        ensures
            change == turn_allowed(*new_direction, self@.direction),
    {
        match (*new_direction, self.direction) {
            (Direction::Left, Direction::Left)
            | (Direction::Right, Direction::Right)
            | (Direction::Up, Direction::Up)
            | (Direction::Down, Direction::Down)
            | (Direction::Left, Direction::Right)
            | (Direction::Right, Direction::Left)
            | (Direction::Up, Direction::Down)
            | (Direction::Down, Direction::Up) => false,
            (_, _) => true,
        }
    }

    /// One tick. The oldest heading request leaves the queue and is taken up
    /// if it is allowed. The head moves one cell along the heading, across
    /// the edge of the board where it stands on it, and every other segment
    /// moves to where the one before it was. If a growth is pending, one
    /// leaves the queue and a segment is added where the tail was before the
    /// move. After that the snake dies if its head lies on its body.
    pub fn update(&mut self)
        requires
            old(self).wf(),
        ensures
            final(self).wf(),
            final(self)@ == old(self)@.advance(),
            final(self)@.body[0].on_grid(),
    {
        if let Some(direction) = self.queued_directions.pop_front() {
            if self.should_change_direction(&direction) {
                self.direction = direction;
            }
        }
        assert(self.queued_directions@ =~= old(self)@.advance().queued_directions);

        let ghost turned = self@;
        let ghost previous_state = self.bits@;
        let len = self.bits.len();
        let last = self.bits[len - 1];

        let mut i: usize = len - 1;
        while i > 0
            invariant
                i < len,
                self.bits@.len() == len,
                previous_state.len() == len,
                self@ == (SnakeView { body: self.bits@, ..turned }),
                forall|j: int| 0 <= j <= i ==> self.bits@[j] == previous_state[j],
                forall|j: int| i < j < len ==> self.bits@[j] == previous_state[j - 1],
            decreases i,
        {
            let ahead = self.bits[i - 1];
            self.bits.set(i, ahead);
            i -= 1;
        }
        let head = step(self.bits[0], self.direction);
        self.bits.set(0, head);
        assert(self.bits@ =~= seq![head] + previous_state.drop_last());

        // Can only grow once per update
        if self.queued_grows.pop_front().is_some() {
            self.bits.push(last);
        }
        assert(self.bits@ =~= old(self)@.next_body());

        if self.check_self_collision() {
            self.kill();
        }
    }
}

/// After a tick every segment lies on the board, the head among them,
/// whatever the heading and wherever on the board the snake was.
pub proof fn lemma_advance_stays_on_grid(snake: SnakeView)
    requires
        snake.valid(),
    ensures
        snake.advance().valid(),
        snake.advance().body[0].on_grid(),
        snake.advance().body[0] == neighbour(snake.body[0], snake.advance().direction),
{
    let next = snake.advance().body;
    assert forall|i: int| 0 <= i < next.len() implies (#[trigger] next[i]).on_grid() by {
        if 1 <= i {
            assert(next[i] == snake.body[i - 1]);
        }
    }
}

/// A request to reverse the heading is dropped: it leaves the queue, and the
/// heading stays as it was.
pub proof fn lemma_reverse_request_is_discarded(snake: SnakeView)
    requires
        snake.queued_directions.len() > 0,
        snake.queued_directions[0] == snake.direction.opposite(),
    ensures
        snake.advance().direction == snake.direction,
        snake.advance().queued_directions == snake.queued_directions.drop_first(),
{
}

/// A request for the heading that the snake already has is dropped: it leaves
/// the queue, and the heading stays as it was.
pub proof fn lemma_same_request_is_discarded(snake: SnakeView)
    requires
        snake.queued_directions.len() > 0,
        snake.queued_directions[0] == snake.direction,
    ensures
        snake.advance().direction == snake.direction,
        snake.advance().queued_directions == snake.queued_directions.drop_first(),
{
}

/// A request to turn onto the other axis is taken up on the next tick.
pub proof fn lemma_turn_request_is_applied(snake: SnakeView)
    requires
        snake.queued_directions.len() > 0,
        turn_allowed(snake.queued_directions[0], snake.direction),
    ensures
        snake.advance().direction == snake.queued_directions[0],
        snake.advance().queued_directions == snake.queued_directions.drop_first(),
{
}

/// Two growth requests followed by one tick lengthen the body by one segment,
/// not by two; the second request stays queued.
pub proof fn lemma_two_grows_one_advance(snake: SnakeView)
    requires
        snake.valid(),
    ensures
        snake.request_growth().request_growth().advance().body.len() == snake.body.len() + 1,
        snake.request_growth().request_growth().advance().queued_grows == snake.queued_grows + 1,
{
}

/// A tick with no growth pending leaves the body's length as it was.
pub proof fn lemma_advance_without_growth(snake: SnakeView)
    requires
        snake.valid(),
        snake.queued_grows == 0,
    ensures
        snake.advance().body.len() == snake.body.len(),
        snake.advance().queued_grows == 0,
{
}

/// One growth request, made while none is pending, lengthens the body by one
/// segment on the next tick and by nothing on the tick after it.
pub proof fn lemma_one_grow_two_advances(snake: SnakeView)
    requires
        snake.valid(),
        snake.queued_grows == 0,
    ensures
        snake.request_growth().advance().body.len() == snake.body.len() + 1,
        snake.request_growth().advance().advance().body.len() == snake.body.len() + 1,
{
    let grown = snake.request_growth().advance();
    lemma_advance_stays_on_grid(snake.request_growth());
    lemma_advance_without_growth(grown);
}

/// A tick that brings the head onto another segment kills the snake.
pub proof fn lemma_self_collision_kills(snake: SnakeView)
    requires
        snake.valid(),
        head_hits_body(snake.next_body()),
    ensures
        !snake.advance().is_alive,
{
}

/// Death is final for the snake itself: no tick and no request brings a dead
/// snake back to life.
pub proof fn lemma_dead_stays_dead(snake: SnakeView, direction: Direction)
    requires
        !snake.is_alive,
    ensures
        !snake.advance().is_alive,
        !snake.request(direction).is_alive,
        !snake.request_growth().is_alive,
{
}

} // verus!
