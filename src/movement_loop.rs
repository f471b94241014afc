use vstd::prelude::*;
use crate::movement::{center_of, lemma_ping_pong_period_two, random_position, Plan, Position};
use crate::signal::{CheckOutcome, WaitOutcome};

verus! {

/// Where the loop stands between two events.
#[derive(Clone, Copy, Debug, PartialEq, Eq, Structural)]
pub enum Stage {
    /// About to look at the stop signal before the next movement.
    PreCheck,
    /// A movement was handed out; the interval wait comes next.
    Waiting,
    /// The loop has ended.
    Stopped,
}

/// What the driver is told to do after a pre-check.
#[derive(Clone, Copy, Debug, PartialEq, Eq, Structural)]
pub enum Step {
    /// End the loop without moving.
    Stop,
    /// Move the cursor to `target`, then click there if `click` is set.
    Move { target: Position, click: bool },
}

/// The decisions of the movement loop, fed by what the driver observes: the
/// outcome of the pre-check, then the outcome of the interval wait, in turn.
pub struct MovementLoop {
    pub plan: Plan,
    pub click: bool,
    pub ticks: u64,
    pub stage: Stage,
}

impl MovementLoop {
    /// A loop that first heads from `start` to `first_target`.
    pub fn new(start: Position, first_target: Position, click: bool) -> (r: MovementLoop)
        ensures
            r.plan == Plan::new_spec(start, first_target),
            r.click == click,
            r.ticks == 0,
            r.stage == Stage::PreCheck,
    {
        MovementLoop { plan: Plan::new(start, first_target), click, ticks: 0, stage: Stage::PreCheck }
    }

    /// A loop that starts at the cursor's current place and first heads for
    /// the display's center when `center` is set, else for a random point.
    pub fn starting_at(current: Position, width: i32, height: i32, center: bool, click: bool) -> (r:
        MovementLoop)
        requires
            width > 0,
            height > 0,
        ensures
            r.plan.start == current,
            center ==> r.plan.end.x == width / 2 && r.plan.end.y == height / 2,
            r.plan.end.within(width as int, height as int),
            r.click == click,
            r.ticks == 0,
            r.stage == Stage::PreCheck,
    {
        let first_target = if center {
            center_of(width, height)
        } else {
            random_position(width, height)
        };
        MovementLoop::new(current, first_target, click)
    }

    /// The loop is still running.
    pub fn is_running(&self) -> (r: bool)
        ensures
            r == (self.stage != Stage::Stopped),
    {
        match self.stage {
            Stage::Stopped => false,
            _ => true,
        }
    }

    /// The state after a pre-check that saw `seen`.
    pub open spec fn after_check(self, seen: CheckOutcome) -> MovementLoop {
        match seen {
            CheckOutcome::Notified => MovementLoop { stage: Stage::Stopped, ..self },
            CheckOutcome::Empty => MovementLoop {
                plan: self.plan.swapped(),
                ticks: if self.ticks < u64::MAX {
                    (self.ticks + 1) as u64
                } else {
                    self.ticks
                },
                stage: Stage::Waiting,
                ..self
            },
        }
    }

    /// What a pre-check that saw `seen` tells the driver to do.
    pub open spec fn step_for(self, seen: CheckOutcome) -> Step {
        match seen {
            CheckOutcome::Notified => Step::Stop,
            CheckOutcome::Empty => Step::Move { target: self.plan.end, click: self.click },
        }
    }

    /// The state after an interval wait that saw `seen`.
    pub open spec fn after_wait(self, seen: WaitOutcome) -> MovementLoop {
        MovementLoop {
            stage: if seen == WaitOutcome::TimedOut {
                Stage::PreCheck
            } else {
                Stage::Stopped
            },
            ..self
        }
    }

    /// The state after `n` whole ticks in which no stop was pending and every
    /// wait timed out.
    pub open spec fn after_quiet_ticks(self, n: nat) -> MovementLoop
        decreases n,
    {
        if n == 0 {
            self
        } else {
            self.after_quiet_ticks((n - 1) as nat).after_check(CheckOutcome::Empty).after_wait(
                WaitOutcome::TimedOut,
            )
        }
    }

    /// Takes the pre-check's outcome. A pending stop ends the loop with no
    /// movement; otherwise the current target is handed out, the plan swaps
    /// its ends and the tick is counted.
    pub fn on_check(&mut self, seen: CheckOutcome) -> (r: Step)
        requires
            old(self).stage == Stage::PreCheck,
        ensures
            r == old(self).step_for(seen),
            *final(self) == old(self).after_check(seen),
    {
        match seen {
            CheckOutcome::Notified => {
                self.stage = Stage::Stopped;
                Step::Stop
            },
            CheckOutcome::Empty => {
                let target = self.plan.end;
                self.plan.ping_pong();
                self.ticks = self.ticks.saturating_add(1);
                self.stage = Stage::Waiting;
                Step::Move { target, click: self.click }
            },
        }
    }

    /// Takes the interval wait's outcome: a timeout leads to the next
    /// pre-check; a notification or a vanished writer ends the loop.
    pub fn on_wait(&mut self, seen: WaitOutcome) -> (r: bool)
        requires
            old(self).stage == Stage::Waiting,
        ensures
            r == (seen == WaitOutcome::TimedOut),
            *final(self) == old(self).after_wait(seen),
    {
        match seen {
            WaitOutcome::TimedOut => {
                self.stage = Stage::PreCheck;
                true
            },
            _ => {
                self.stage = Stage::Stopped;
                false
            },
        }
    }
}

/// With no stop ever requested, the loop keeps running: after `n` ticks it has
/// counted exactly `n` more, and its plan has swapped ends `n` times, so it
/// is back where it began after every even number of ticks.
pub proof fn lemma_quiet_ticks(l: MovementLoop, n: nat)
    requires
        l.stage == Stage::PreCheck,
        l.ticks + n <= u64::MAX,
    ensures
        l.after_quiet_ticks(n).stage == Stage::PreCheck,
        l.after_quiet_ticks(n).ticks == l.ticks + n,
        l.after_quiet_ticks(n).plan == l.plan.after_ticks(n),
        l.after_quiet_ticks(n).click == l.click,
        n % 2 == 0 ==> l.after_quiet_ticks(n).plan == l.plan,
    decreases n,
{
    if n > 0 {
        lemma_quiet_ticks(l, (n - 1) as nat);
        assert(l.plan.after_ticks(n) == l.plan.after_ticks((n - 1) as nat).swapped());
        if n % 2 == 0 {
            lemma_quiet_ticks(l, (n - 2) as nat);
            lemma_ping_pong_period_two(l.plan);
            assert(l.plan.after_ticks(((n - 2) as nat + 2) as nat) == l.plan.after_ticks(
                (n - 2) as nat,
            ));
        }
    }
}

/// A stop that is pending at the pre-check, or that arrives during the wait,
/// ends the loop without another tick.
pub proof fn lemma_stop_ends_without_extra_tick(l: MovementLoop, during_wait: WaitOutcome)
    requires
        during_wait != WaitOutcome::TimedOut,
    ensures
        l.after_check(CheckOutcome::Notified).stage == Stage::Stopped,
        l.after_check(CheckOutcome::Notified).ticks == l.ticks,
        l.after_wait(during_wait).stage == Stage::Stopped,
        l.after_wait(during_wait).ticks == l.ticks,
{
}

} // verus!
