use vstd::prelude::*;

verus! {

/// An absolute screen coordinate, with its origin at the display's top-left corner.
#[derive(Clone, Copy, Debug, PartialEq, Eq, Structural)]
pub struct Position {
    pub x: i32,
    pub y: i32,
}

impl Position {
    /// Lies on a display of the given size.
    pub open spec fn within(self, width: int, height: int) -> bool {
        0 <= self.x < width && 0 <= self.y < height
    }
}

/// The middle of a display, each coordinate rounded down.
pub fn center_of(width: i32, height: i32) -> (r: Position)
    requires
        width > 0,
        height > 0,
    ensures
        r.x == width / 2,
        r.y == height / 2,
        r.within(width as int, height as int),
{
    Position { x: width / 2, y: height / 2 }
}

/// Number of samples taken along a curved segment at the slowest speed.
pub const SLOWEST_STEPS: usize = 256;

/// Number of samples taken along a curved segment at the fastest speed.
pub const FASTEST_STEPS: usize = 32;

/// The sampling density of a curved segment for a speed in `1..=100`.
pub open spec fn step_count(speed: int) -> int {
    256 - (speed - 1) * (256 - 32) / 99
}

/// How many steps a curved segment is cut into: dense at low speed, coarse at
/// high speed.
pub fn calculate_step_size(mouse_speed: u8) -> (r: usize)
    requires
        1 <= mouse_speed <= 100,
    ensures
        r as int == step_count(mouse_speed as int),
        FASTEST_STEPS <= r <= SLOWEST_STEPS,
{
    let speed = mouse_speed as usize;
    assert(0 <= (speed - 1) * 224 / 99 <= 224) by (nonlinear_arith)
        requires
            1 <= speed <= 100,
    ;
    SLOWEST_STEPS - ((speed - 1) * (SLOWEST_STEPS - FASTEST_STEPS) / 99)
}

/// A faster speed never asks for more steps than a slower one.
pub proof fn lemma_step_count_non_increasing(slow: int, fast: int)
    requires
        1 <= slow <= fast <= 100,
    ensures
        step_count(fast) <= step_count(slow),
        step_count(1) == 256,
        step_count(100) == 32,
{
    assert((slow - 1) * 224 / 99 <= (fast - 1) * 224 / 99) by (nonlinear_arith)
        requires
            1 <= slow <= fast,
    ;
}

/// The segment being walked: the cursor leaves `start` and heads for `end`.
#[derive(Clone, Copy, Debug, PartialEq, Eq, Structural)]
pub struct Plan {
    pub start: Position,
    pub end: Position,
}

impl Plan {
    /// The plan after one ping-pong tick: the two ends trade places.
    pub open spec fn swapped(self) -> Plan {
        Plan { start: self.end, end: self.start }
    }

    /// The plan after `n` ping-pong ticks.
    pub open spec fn after_ticks(self, n: nat) -> Plan
        decreases n,
    {
        if n == 0 {
            self
        } else {
            self.after_ticks((n - 1) as nat).swapped()
        }
    }

    pub open spec fn new_spec(start: Position, end: Position) -> Plan {
        Plan { start, end }
    }

    /// A segment from `start` to `end`.
    #[verifier::when_used_as_spec(new_spec)]
    pub fn new(start: Position, end: Position) -> (r: Plan)
        ensures
            r == Plan::new_spec(start, end),
    {
        Plan { start, end }
    }

    /// Ping-pong between two fixed points: the next segment runs back the way
    /// the last one came.
    pub fn ping_pong(&mut self)
        ensures
            *final(self) == old(self).swapped(),
    {
        let previous_start = self.start;
        self.start = self.end;
        self.end = previous_start;
    }

    /// A curved walk: the next segment starts where the last one ended and
    /// heads for a fresh point.
    pub fn advance_to(&mut self, next: Position)
        ensures
            final(self).start == old(self).end,
            final(self).end == next,
    {
        self.start = self.end;
        self.end = next;
    }
}

/// Ping-pong is periodic with period two: one tick swaps the ends, and a second
/// tick restores the plan it started from.
pub proof fn lemma_ping_pong_period_two(plan: Plan)
    ensures
        plan.after_ticks(1) == (Plan { start: plan.end, end: plan.start }),
        plan.after_ticks(2) == plan,
        forall|n: nat| #[trigger] plan.after_ticks(n + 2) == plan.after_ticks(n),
{
    assert(plan.after_ticks(0) == plan);
    assert(plan.after_ticks(1) == plan.after_ticks(0).swapped());
    assert(plan.after_ticks(2) == plan.after_ticks(1).swapped());
    assert forall|n: nat| #[trigger] plan.after_ticks(n + 2) == plan.after_ticks(n) by {
        assert(plan.after_ticks(n + 1) == plan.after_ticks(n).swapped());
        assert(plan.after_ticks(n + 2) == plan.after_ticks(n + 1).swapped());
    }
}

/// Relies on rand's `Rng::random_range` with a half-open integer range: the
/// value drawn lies in that range.
#[verifier::external_body]
fn random_below(bound: i32) -> (r: i32)
    requires
        bound > 0,
    ensures
        0 <= r < bound,
{
    rand::Rng::random_range(&mut rand::rng(), 0..bound)
}

/// A point drawn at random from the whole display.
pub fn random_position(width: i32, height: i32) -> (r: Position)
    requires
        width > 0,
        height > 0,
    ensures
        r.within(width as int, height as int),
{
    let x = random_below(width);
    let y = random_below(height);
    Position { x, y }
}

/// The four points of a cubic curve from `start` to `end`, bent by two
/// control points.
#[derive(Clone, Copy, Debug, PartialEq, Eq, Structural)]
pub struct CurveSegment {
    pub start: Position,
    pub ctrl1: Position,
    pub ctrl2: Position,
    pub end: Position,
}

/// A curve from `start` to `end` whose two control points are drawn at random
/// from the display.
pub fn create_bez_curve(start: Position, end: Position, width: i32, height: i32) -> (r:
    CurveSegment)
    requires
        width > 0,
        height > 0,
    ensures
        r.start == start,
        r.end == end,
        r.ctrl1.within(width as int, height as int),
        r.ctrl2.within(width as int, height as int),
{
    let ctrl1 = random_position(width, height);
    let ctrl2 = random_position(width, height);
    CurveSegment { start, ctrl1, ctrl2, end }
}

} // verus!
