//! The agent model: a heading and an ordered body of square segments,
//! stored tail first, head last.

use vstd::prelude::*;

verus! {

/// Side length of one body segment, in surface units.
pub const SNAKE_BLOCK_SIZE: i32 = 10;

/// Distance the head travels in one step: the block size minus a margin
/// of 5, which leaves a visible gap between consecutive segments.
pub const SNAKE_STEP: i32 = SNAKE_BLOCK_SIZE - 5;

/// Number of segments the snake starts with.
pub const SNAKE_INITIAL_SIZE: usize = 4;

/// Minimum corner of the tail segment at startup.
pub const SNAKE_START_X: i32 = 100;
pub const SNAKE_START_Y: i32 = 100;

/// A direction of travel, used both as the current heading and as a
/// requested change.
#[derive(Clone, Copy, PartialEq, Eq, Structural, Debug)]
pub enum SnakeDirection {
    Up,
    Down,
    Left,
    Right,
}

/// The direct reverse of a direction.
pub open spec fn opposite(d: SnakeDirection) -> SnakeDirection {
    match d {
        SnakeDirection::Up => SnakeDirection::Down,
        SnakeDirection::Down => SnakeDirection::Up,
        SnakeDirection::Left => SnakeDirection::Right,
        SnakeDirection::Right => SnakeDirection::Left,
    }
}

/// One body segment: an axis-aligned square of side `SNAKE_BLOCK_SIZE`,
/// identified by its minimum corner.
#[derive(Clone, Copy, PartialEq, Eq, Structural, Debug)]
pub struct Segment {
    pub x: i32,
    pub y: i32,
}

impl Segment {
    /// The x coordinate of the maximum corner of the square.
    pub fn max_x(&self) -> (r: i32)
        requires
            self.x + SNAKE_BLOCK_SIZE <= i32::MAX,
        ensures
            r == self.x + SNAKE_BLOCK_SIZE,
    {
        self.x + SNAKE_BLOCK_SIZE
    }

    /// The y coordinate of the maximum corner of the square.
    pub fn max_y(&self) -> (r: i32)
        requires
            self.y + SNAKE_BLOCK_SIZE <= i32::MAX,
        ensures
            r == self.y + SNAKE_BLOCK_SIZE,
    {
        self.y + SNAKE_BLOCK_SIZE
    }
}

/// Horizontal displacement of one step in direction `d`.
pub open spec fn step_dx(d: SnakeDirection) -> int {
    match d {
        SnakeDirection::Up => 0,
        SnakeDirection::Down => 0,
        SnakeDirection::Left => -SNAKE_STEP as int,
        SnakeDirection::Right => SNAKE_STEP as int,
    }
}

/// Vertical displacement of one step in direction `d`. The surface's
/// y axis grows downward, so `Up` decreases y.
pub open spec fn step_dy(d: SnakeDirection) -> int {
    match d {
        SnakeDirection::Up => -SNAKE_STEP as int,
        SnakeDirection::Down => SNAKE_STEP as int,
        SnakeDirection::Left => 0,
        SnakeDirection::Right => 0,
    }
}

/// A coordinate from which one step in either sense stays within `i32`.
pub open spec fn step_fits(c: int) -> bool {
    i32::MIN + SNAKE_STEP <= c <= i32::MAX - SNAKE_STEP
}

/// The head moved one step in direction `d`.
pub open spec fn stepped(head: Segment, d: SnakeDirection) -> Segment {
    Segment { x: (head.x + step_dx(d)) as i32, y: (head.y + step_dy(d)) as i32 }
}

/// One movement step of the whole body: the tail is dropped and the
/// stepped head is appended, so the length never changes.
pub open spec fn walked(body: Seq<Segment>, d: SnakeDirection) -> Seq<Segment>
    recommends
        body.len() > 0,
{
    body.drop_first().push(stepped(body.last(), d))
}

/// The heading after a change request: an exact reversal is silently
/// ignored, every other request (including a no-op repeat) is taken.
pub open spec fn redirected(current: SnakeDirection, requested: SnakeDirection) -> SnakeDirection {
    if requested == opposite(current) {
        current
    } else {
        requested
    }
}

/// Segment `i` of the freshly created body, counted from the tail.
pub open spec fn initial_segment(i: int) -> Segment {
    Segment { x: (SNAKE_START_X + i * SNAKE_BLOCK_SIZE) as i32, y: SNAKE_START_Y }
}

/// The whole agent as a freshly created snake has it.
pub open spec fn initial_snake() -> SnakeModel {
    SnakeModel {
        direction: SnakeDirection::Right,
        body: Seq::new(SNAKE_INITIAL_SIZE as nat, |i: int| initial_segment(i)),
    }
}

/// The body after a whole run of movement steps, one per entry of `ds`.
pub open spec fn walked_n(body: Seq<Segment>, ds: Seq<SnakeDirection>) -> Seq<Segment>
    decreases ds.len(),
{
    if ds.len() == 0 {
        body
    } else {
        walked_n(walked(body, ds.first()), ds.drop_first())
    }
}

/// Length invariance: however many steps are taken, in whatever
/// directions, the body keeps its length.
pub proof fn lemma_length_invariance(body: Seq<Segment>, ds: Seq<SnakeDirection>)
    requires
        body.len() > 0,
    ensures
        walked_n(body, ds).len() == body.len(),
    decreases ds.len(),
{
    if ds.len() > 0 {
        assert(walked(body, ds.first()).len() == body.len());
        lemma_length_invariance(walked(body, ds.first()), ds.drop_first());
    }
}

/// No reversal: whatever is requested, the heading after a change
/// request is never the direct reverse of the heading just before it.
pub proof fn lemma_no_reversal(current: SnakeDirection, requested: SnakeDirection)
    ensures
        redirected(current, requested) != opposite(current),
{
}

/// Requesting the current heading again changes nothing.
pub proof fn lemma_same_direction_idempotent(current: SnakeDirection)
    ensures
        redirected(current, current) == current,
{
}

/// Head displacement: one movement step moves the head's minimum corner
/// by exactly one step vector of the heading, and keeps the length.
pub proof fn lemma_head_displacement(body: Seq<Segment>, d: SnakeDirection)
    requires
        body.len() > 0,
        step_fits(body.last().x as int),
        step_fits(body.last().y as int),
    ensures
        walked(body, d).last().x == body.last().x + step_dx(d),
        walked(body, d).last().y == body.last().y + step_dy(d),
        walked(body, d).len() == body.len(),
{
}

/// Mathematical model of a snake: its heading and the sequence of its
/// segments, tail first.
#[verifier::ext_equal]
pub ghost struct SnakeModel {
    pub direction: SnakeDirection,
    pub body: Seq<Segment>,
}

impl SnakeModel {
    /// The body is never empty.
    pub open spec fn wf(self) -> bool {
        self.body.len() > 0
    }

    /// The head is the last segment.
    pub open spec fn head(self) -> Segment {
        self.body.last()
    }
}

/// The moving agent: current heading and body, tail at index 0.
pub struct Snake {
    pub direction: SnakeDirection,
    pub body: Vec<Segment>,
}

impl View for Snake {
    type V = SnakeModel;

    open spec fn view(&self) -> SnakeModel {
        SnakeModel { direction: self.direction, body: self.body@ }
    }
}

impl Snake {
    /// A fresh snake: four segments in a row starting at the configured
    /// corner, heading right.
    pub fn new() -> (s: Snake)
        ensures
            s@ == initial_snake(),
            s@.wf(),
    {
        let mut body: Vec<Segment> = Vec::new();
        let mut i: usize = 0;
        while i < SNAKE_INITIAL_SIZE
            invariant
                i <= SNAKE_INITIAL_SIZE,
                body@.len() == i,
                forall|j: int| 0 <= j < i ==> body@[j] == initial_segment(j),
            decreases SNAKE_INITIAL_SIZE - i,
        {
            let x: i32 = SNAKE_START_X + (i as i32) * SNAKE_BLOCK_SIZE;
            body.push(Segment { x, y: SNAKE_START_Y });
            i = i + 1;
        }
        let s = Snake { direction: SnakeDirection::Right, body };
        proof {
            assert(s@.body =~= initial_snake().body);
            assert(s@ =~= initial_snake());
        }
        s
    }

    /// Advance by one step: drop the tail segment and append a new head,
    /// one step away from the previous head in the current heading.
    /// The heading and the body length are unchanged.
    pub fn walk(&mut self)
        requires
            old(self)@.wf(),
            step_fits(old(self)@.head().x as int),
            step_fits(old(self)@.head().y as int),
        ensures
            final(self)@.wf(),
            final(self)@.direction == old(self)@.direction,
            final(self)@.body == walked(old(self)@.body, old(self)@.direction),
            final(self)@.body.len() == old(self)@.body.len(),
    {
        let (dx, dy): (i32, i32) = match self.direction {
            SnakeDirection::Up => (0, -SNAKE_STEP),
            SnakeDirection::Down => (0, SNAKE_STEP),
            SnakeDirection::Left => (-SNAKE_STEP, 0),
            SnakeDirection::Right => (SNAKE_STEP, 0),
        };
        let head_idx: usize = self.body.len() - 1;
        let head: Segment = self.body[head_idx];
        self.body.remove(0);
        self.body.push(Segment { x: head.x + dx, y: head.y + dy });
        proof {
            assert(self@.body =~= walked(old(self)@.body, old(self)@.direction));
        }
    }

    /// Request a heading change: a request for the direct reverse of the
    /// current heading is silently ignored, anything else is taken. The
    /// body is untouched, and the new heading is never the reverse of
    /// the heading that held just before the call.
    pub fn change_direction(&mut self, direction: SnakeDirection)
        ensures
            final(self)@.body == old(self)@.body,
            final(self)@.direction == redirected(old(self)@.direction, direction),
            final(self)@.direction != opposite(old(self)@.direction),
    {
        match direction {
            SnakeDirection::Up => {
                if self.direction != SnakeDirection::Down {
                    self.direction = direction;
                }
            }
            SnakeDirection::Down => {
                if self.direction != SnakeDirection::Up {
                    self.direction = direction;
                }
            }
            SnakeDirection::Left => {
                if self.direction != SnakeDirection::Right {
                    self.direction = direction;
                }
            }
            SnakeDirection::Right => {
                if self.direction != SnakeDirection::Left {
                    self.direction = direction;
                }
            }
        }
    }
}

} // verus!
