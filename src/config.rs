use vstd::prelude::*;
use crate::movement::calculate_step_size;

verus! {

/// Seconds between movements when none is given.
pub const DEFAULT_INTERVAL_SECS: u64 = 5;

/// Curve speed when none is given.
pub const DEFAULT_MOUSE_SPEED: u8 = 75;

/// The slowest accepted curve speed.
pub const MIN_MOUSE_SPEED: u64 = 1;

/// The fastest accepted curve speed.
pub const MAX_MOUSE_SPEED: u64 = 100;

/// Why a set of options was refused.
#[derive(Clone, Copy, Debug, PartialEq, Eq, Structural)]
pub enum ArgError {
    /// The curve speed lies outside `1..=100`; the value is the one given.
    SpeedOutOfRange(u64),
}

/// The options of one run.
///
/// An interval of zero is accepted as given: the loop then never pauses
/// between movements.
#[derive(Clone, Copy, Debug, PartialEq, Eq, Structural)]
pub struct BusyArgs {
    /// Seconds between movements.
    pub update_interval: u64,
    /// Click at the end of each movement.
    pub click: bool,
    /// Head for the display's center first.
    pub center_mouse: bool,
    /// Curve sampling speed, from 1 (slowest) to 100 (fastest).
    pub mouse_speed: u8,
    /// Set up diagnostic logging at startup.
    pub enable_logging: bool,
}

pub open spec fn speed_in_range(speed: int) -> bool {
    MIN_MOUSE_SPEED <= speed <= MAX_MOUSE_SPEED
}

impl BusyArgs {
    /// The speed lies in its accepted range.
    pub open spec fn wf(self) -> bool {
        speed_in_range(self.mouse_speed as int)
    }

    /// Checks and gathers the options. The speed is checked here, before any
    /// movement can start.
    pub fn new(
        update_interval: u64,
        click: bool,
        center_mouse: bool,
        mouse_speed: u64,
        enable_logging: bool,
    ) -> (r: Result<BusyArgs, ArgError>)
        ensures
            speed_in_range(mouse_speed as int) <==> r is Ok,
            r matches Ok(a) ==> {
                &&& a.wf()
                &&& a.update_interval == update_interval
                &&& a.click == click
                &&& a.center_mouse == center_mouse
                &&& a.mouse_speed as int == mouse_speed as int
                &&& a.enable_logging == enable_logging
            },
            r matches Err(e) ==> e == ArgError::SpeedOutOfRange(mouse_speed),
    {
        if mouse_speed < MIN_MOUSE_SPEED || mouse_speed > MAX_MOUSE_SPEED {
            return Err(ArgError::SpeedOutOfRange(mouse_speed));
        }
        Ok(BusyArgs {
            update_interval,
            click,
            center_mouse,
            mouse_speed: mouse_speed as u8,
            enable_logging,
        })
    }

    /// Every option at its default: a five second interval, speed 75, no
    /// click, no centering, no logging.
    pub open spec fn defaults_spec() -> BusyArgs {
        BusyArgs {
            update_interval: DEFAULT_INTERVAL_SECS,
            click: false,
            center_mouse: false,
            mouse_speed: DEFAULT_MOUSE_SPEED,
            enable_logging: false,
        }
    }

    pub fn defaults() -> (r: BusyArgs)
        ensures
            r == BusyArgs::defaults_spec(),
            r.wf(),
    {
        BusyArgs {
            update_interval: DEFAULT_INTERVAL_SECS,
            click: false,
            center_mouse: false,
            mouse_speed: DEFAULT_MOUSE_SPEED,
            enable_logging: false,
        }
    }

    /// Whether the speed lies in its accepted range.
    pub fn has_valid_speed(&self) -> (r: bool)
        ensures
            r == self.wf(),
    {
        self.mouse_speed as u64 >= MIN_MOUSE_SPEED && self.mouse_speed as u64 <= MAX_MOUSE_SPEED
    }

    /// How many steps a curved segment is cut into at this speed.
    pub fn steps(&self) -> (r: usize)
        requires
            self.wf(),
        ensures
            r as int == crate::movement::step_count(self.mouse_speed as int),
    {
        calculate_step_size(self.mouse_speed)
    }
}

impl Default for BusyArgs {
    fn default() -> (r: BusyArgs)
        ensures
            r == BusyArgs::defaults_spec(),
    {
        BusyArgs::defaults()
    }
}

} // verus!
