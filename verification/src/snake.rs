//! The authoritative snake state and its transition rules: construction,
//! the anti-reversal steering rule, the one-cell advance, and the boundary
//! collision predicate.

use vstd::prelude::*;

verus! {

/// The snake's current heading on the grid.
#[derive(Copy, Clone, Debug, PartialEq, Eq, Structural)]
pub enum Direction {
    Up,
    Down,
    Left,
    Right,
}

/// A grid coordinate. `x` grows rightward, `y` grows downward; the playable
/// area of a `width x height` grid is `[1, width - 2] x [1, height - 2]`,
/// the outermost ring of cells being the wall.
#[derive(Copy, Clone, Debug, PartialEq, Eq, Structural)]
pub struct Point {
    pub x: u16,
    pub y: u16,
}

pub type SnakeScore = u32;

/// The whole game state: heading, score, and the body as an ordered sequence
/// of points, head at the front, tail at the back.
pub struct SnakeState {
    pub direction: Direction,
    pub score: SnakeScore,
    pub body: Vec<Point>,
}

/// A heading that moves along the y axis.
pub open spec fn vertical(d: Direction) -> bool {
    d == Direction::Up || d == Direction::Down
}

/// Two headings at a right angle to each other: the only direction changes
/// the steering rule accepts.
pub open spec fn perpendicular(a: Direction, b: Direction) -> bool {
    vertical(a) != vertical(b)
}

/// The x coordinate one unit-step from `p` in heading `d`, as a mathematical
/// integer (it may leave the `u16` range).
pub open spec fn step_x(p: Point, d: Direction) -> int {
    match d {
        Direction::Left => p.x - 1,
        Direction::Right => p.x + 1,
        _ => p.x as int,
    }
}

/// The y coordinate one unit-step from `p` in heading `d`.
pub open spec fn step_y(p: Point, d: Direction) -> int {
    match d {
        Direction::Up => p.y - 1,
        Direction::Down => p.y + 1,
        _ => p.y as int,
    }
}

/// True iff the single next step from `head` in heading `d` lands on the
/// boundary ring of a `width x height` grid.
pub open spec fn hits_wall(head: Point, d: Direction, width: u16, height: u16) -> bool {
    match d {
        Direction::Up => head.y - 1 == 0,
        Direction::Down => head.y + 1 == height - 1,
        Direction::Left => head.x - 1 == 0,
        Direction::Right => head.x + 1 == width - 1,
    }
}

impl SnakeState {
    /// The body is never empty during play.
    pub open spec fn wf(&self) -> bool {
        self.body@.len() >= 1
    }

    /// The head of the snake: the front of the body.
    pub open spec fn spec_head(&self) -> Point {
        self.body@[0]
    }

    /// The tail of the snake: the back of the body.
    pub open spec fn spec_tail(&self) -> Point {
        self.body@.last()
    }

    /// The state is playable on a `width x height` grid: the body is
    /// non-empty and the head sits strictly inside the playable area,
    /// off the boundary ring.
    pub open spec fn in_play(&self, width: u16, height: u16) -> bool {
        &&& self.wf()
        &&& 1 <= self.spec_head().x
        &&& self.spec_head().x + 1 < width
        &&& 1 <= self.spec_head().y
        &&& self.spec_head().y + 1 < height
    }
}

/// What a freshly constructed state looks like: three body cells on one row,
/// x strictly increasing from `width / 2`, heading Left.
pub open spec fn initial_invariant(s: SnakeState, width: u16, height: u16) -> bool {
    &&& s.direction == Direction::Left
    &&& s.body@.len() == 3
    &&& s.body@[0].x == width as int / 2
    &&& forall|i: int| 0 <= i < 3 ==> #[trigger] s.body@[i].y == height as int / 2
    &&& forall|i: int| 0 <= i < 2 ==> #[trigger] s.body@[i].x + 1 == s.body@[i + 1].x
}

/// The steering rule: a perpendicular request yields the new heading, a
/// request equal or opposite to the current heading yields nothing.
pub fn new_direction(current: Direction, requested: Direction) -> (r: Option<Direction>)
    ensures
        r == if perpendicular(current, requested) {
            Some(requested)
        } else {
            None::<Direction>
        },
{
    match (current, requested) {
        (Direction::Up, Direction::Left) => Some(Direction::Left),
        (Direction::Up, Direction::Right) => Some(Direction::Right),
        (Direction::Down, Direction::Left) => Some(Direction::Left),
        (Direction::Down, Direction::Right) => Some(Direction::Right),
        (Direction::Left, Direction::Up) => Some(Direction::Up),
        (Direction::Left, Direction::Down) => Some(Direction::Down),
        (Direction::Right, Direction::Up) => Some(Direction::Up),
        (Direction::Right, Direction::Down) => Some(Direction::Down),
        _ => None,
    }
}

impl SnakeState {
    /// The initial state on an `x` by `y` grid: a three-cell horizontal body
    /// whose head is the grid's center cell (by floor division), heading
    /// Left, score zero. No bounds check is made: the caller supplies
    /// dimensions large enough for the body and a one-cell border.
    pub fn new(x: u16, y: u16) -> (s: SnakeState)
        ensures
            s.direction == Direction::Left,
            s.score == 0,
            s.body@.len() == 3,
            s.spec_head().x == x as int / 2 && s.spec_head().y == y as int / 2,
            s.body@[1].x == x as int / 2 + 1 && s.body@[1].y == y as int / 2,
            s.body@[2].x == x as int / 2 + 2 && s.body@[2].y == y as int / 2,
            initial_invariant(s, x, y),
    {
        let center = Point { x: x / 2, y: y / 2 };
        let mut init_body: Vec<Point> = Vec::new();
        init_body.push(Point { x: center.x, y: center.y });
        init_body.push(Point { x: center.x + 1, y: center.y });
        init_body.push(Point { x: center.x + 2, y: center.y });
        SnakeState { direction: Direction::Left, score: 0, body: init_body }
    }

    /// Whether the state is playable on a `width` by `height` grid: the
    /// decision procedure for [`Self::in_play`], so an unverified driver can
    /// test the game loop's precondition before entering it.
    pub fn head_in_play(&self, width: u16, height: u16) -> (r: bool)
        ensures
            r == self.in_play(width, height),
    {
        if self.body.len() < 1 || width < 2 || height < 2 {
            return false;
        }
        let head = self.body[0];
        1 <= head.x && head.x <= width - 2 && 1 <= head.y && head.y <= height - 2
    }

    /// Redirect the snake. The heading changes exactly when the request is
    /// perpendicular to the current heading; an equal or directly reversed
    /// request is silently ignored (the anti-reversal rule). Body and score
    /// are untouched.
    pub fn change_direction(&mut self, direction: Direction)
        ensures
            final(self).direction == if perpendicular(old(self).direction, direction) {
                direction
            } else {
                old(self).direction
            },
            final(self).body@ == old(self).body@,
            final(self).score == old(self).score,
    {
        if let Some(dir) = new_direction(self.direction, direction) {
            self.direction = dir;
        }
    }
}

/// Advance the snake one cell in its current heading: the new head is one
/// unit-step from the old one, the old tail is dropped, the body length is
/// unchanged. The caller must have ruled out a boundary collision first:
/// the step must stay within the coordinate range.
pub fn update_snake(state: &mut SnakeState)
    requires
        old(state).wf(),
        0 <= step_x(old(state).spec_head(), old(state).direction) <= u16::MAX,
        0 <= step_y(old(state).spec_head(), old(state).direction) <= u16::MAX,
    ensures
        final(state).wf(),
        final(state).body@.len() == old(state).body@.len(),
        final(state).spec_head().x == step_x(old(state).spec_head(), old(state).direction),
        final(state).spec_head().y == step_y(old(state).spec_head(), old(state).direction),
        final(state).body@ == seq![final(state).spec_head()] + old(state).body@.drop_last(),
        final(state).direction == old(state).direction,
        final(state).score == old(state).score,
{
    let head = state.body[0];
    let new_head = match state.direction {
        Direction::Up => Point { x: head.x, y: head.y - 1 },
        Direction::Down => Point { x: head.x, y: head.y + 1 },
        Direction::Left => Point { x: head.x - 1, y: head.y },
        Direction::Right => Point { x: head.x + 1, y: head.y },
    };
    state.body.insert(0, new_head);
    let _ = state.body.pop();
    proof {
        assert(state.body@ =~= seq![new_head] + old(state).body@.drop_last());
    }
}

/// The boundary collision predicate, evaluated against the current head and
/// heading before advancing: true iff the single next step would land on the
/// boundary ring. The head must be in play, so no coordinate arithmetic can
/// leave the `u16` range.
pub fn check_for_collision(state: &SnakeState, width: u16, height: u16) -> (r: bool)
    requires
        state.in_play(width, height),
    ensures
        r == hits_wall(state.spec_head(), state.direction, width, height),
{
    let head = state.body[0];
    match state.direction {
        Direction::Up => head.y - 1 == 0,
        Direction::Down => head.y + 1 == height - 1,
        Direction::Left => head.x - 1 == 0,
        Direction::Right => head.x + 1 == width - 1,
    }
}

/// A step that lands strictly inside the playable area, one or more cells
/// away from the boundary ring, is never reported as a collision.
pub proof fn lemma_no_collision_when_clear(head: Point, d: Direction, width: u16, height: u16)
    requires
        1 <= step_x(head, d) < width - 1,
        1 <= step_y(head, d) < height - 1,
    ensures
        !hits_wall(head, d, width, height),
{
}

} // verus!
