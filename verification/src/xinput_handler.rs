//! The controller snapshot and the polling state machine that produces it.
//!
//! Stick positions are held in polar fixed point: the radius in millionths
//! of full deflection, the bearing in microdegrees clockwise from twelve
//! o'clock. The conversion from the device's coordinates is the caller's.

use vstd::prelude::*;

verus! {

/// Radius of a fully deflected stick.
pub const FULL_DEFLECTION: u32 = 1_000_000;

/// Half a revolution in bearing units; six o'clock lies at `HALF_TURN`.
pub const HALF_TURN: i32 = 180_000_000;

/// Consecutive failed reads after which the controller counts as gone.
pub const MAX_ERRORS: u32 = 5;

/// One stick's position in polar fixed point.
#[derive(Clone, Copy, Debug, PartialEq, Eq, Structural)]
pub struct StickPosition {
    /// Distance from the centre, `FULL_DEFLECTION` at the rim.
    pub radius: u32,
    /// Clockwise angle from twelve o'clock, positive on the right half.
    pub bearing: i32,
}

impl StickPosition {
    /// A centred stick.
    pub open spec fn origin() -> StickPosition {
        StickPosition { radius: 0, bearing: 0 }
    }

    /// Whether the position is the centre itself, which carries no angle.
    pub open spec fn is_origin(self) -> bool {
        self.radius == 0
    }

    /// The bearing with six o'clock approached from the left read as
    /// `HALF_TURN`, so that the boundary has one representation.
    pub open spec fn canonical_bearing(bearing: i32) -> i32 {
        if bearing == -HALF_TURN {
            HALF_TURN
        } else {
            bearing
        }
    }

    pub fn centered() -> (pos: StickPosition)
        ensures
            pos == Self::origin(),
    {
        StickPosition { radius: 0, bearing: 0 }
    }

    /// Builds a position, settling the six o'clock tie on `HALF_TURN`.
    pub fn from_polar(radius: u32, bearing: i32) -> (pos: StickPosition)
        ensures
            pos.radius == radius,
            pos.bearing == Self::canonical_bearing(bearing),
    {
        if bearing == -HALF_TURN {
            StickPosition { radius, bearing: HALF_TURN }
        } else {
            StickPosition { radius, bearing }
        }
    }
}

/// Both sticks at one polling instant.
#[derive(Clone, Copy, Debug, PartialEq, Eq, Structural)]
pub struct StickState {
    pub left: StickPosition,
    pub right: StickPosition,
}

/// Names one tracked button.
#[derive(Clone, Copy, Debug, PartialEq, Eq, Structural)]
pub enum ButtonId {
    South,
    East,
    West,
    North,
    Up,
    Down,
    Left,
    Right,
    L,
    Lt,
    R,
    Rt,
    LStick,
    RStick,
    Start,
    Select,
}

/// Every tracked button at one polling instant; `true` is pressed.
#[derive(Clone, Copy, Debug, PartialEq, Eq, Structural)]
pub struct ButtonState {
    pub south: bool,
    pub east: bool,
    pub west: bool,
    pub north: bool,
    pub up: bool,
    pub down: bool,
    pub left: bool,
    pub right: bool,
    pub l: bool,
    pub lt: bool,
    pub r: bool,
    pub rt: bool,
    pub l_stick: bool,
    pub r_stick: bool,
    pub start: bool,
    pub select: bool,
}

impl ButtonState {
    /// The state with nothing pressed.
    pub open spec fn all_released() -> ButtonState {
        ButtonState {
            south: false,
            east: false,
            west: false,
            north: false,
            up: false,
            down: false,
            left: false,
            right: false,
            l: false,
            lt: false,
            r: false,
            rt: false,
            l_stick: false,
            r_stick: false,
            start: false,
            select: false,
        }
    }

    /// Whether `id` is pressed.
    pub open spec fn pressed(self, id: ButtonId) -> bool {
        match id {
            ButtonId::South => self.south,
            ButtonId::East => self.east,
            ButtonId::West => self.west,
            ButtonId::North => self.north,
            ButtonId::Up => self.up,
            ButtonId::Down => self.down,
            ButtonId::Left => self.left,
            ButtonId::Right => self.right,
            ButtonId::L => self.l,
            ButtonId::Lt => self.lt,
            ButtonId::R => self.r,
            ButtonId::Rt => self.rt,
            ButtonId::LStick => self.l_stick,
            ButtonId::RStick => self.r_stick,
            ButtonId::Start => self.start,
            ButtonId::Select => self.select,
        }
    }

    pub fn released() -> (buttons: ButtonState)
        ensures
            buttons == Self::all_released(),
    {
        ButtonState {
            south: false,
            east: false,
            west: false,
            north: false,
            up: false,
            down: false,
            left: false,
            right: false,
            l: false,
            lt: false,
            r: false,
            rt: false,
            l_stick: false,
            r_stick: false,
            start: false,
            select: false,
        }
    }
}

/// Reads one button out of a snapshot's button state.
pub fn get_button(buttons: &ButtonState, id: ButtonId) -> (down: bool)
    ensures
        down == buttons.pressed(id),
{
    match id {
        ButtonId::South => buttons.south,
        ButtonId::East => buttons.east,
        ButtonId::West => buttons.west,
        ButtonId::North => buttons.north,
        ButtonId::Up => buttons.up,
        ButtonId::Down => buttons.down,
        ButtonId::Left => buttons.left,
        ButtonId::Right => buttons.right,
        ButtonId::L => buttons.l,
        ButtonId::Lt => buttons.lt,
        ButtonId::R => buttons.r,
        ButtonId::Rt => buttons.rt,
        ButtonId::LStick => buttons.l_stick,
        ButtonId::RStick => buttons.r_stick,
        ButtonId::Start => buttons.start,
        ButtonId::Select => buttons.select,
    }
}

/// The whole controller at one polling instant.
#[derive(Clone, Copy, Debug, PartialEq, Eq, Structural)]
pub struct ControllerState {
    pub sticks: StickState,
    pub buttons: ButtonState,
}

/// What the poller keeps between reads.
#[derive(Clone, Copy, Debug, PartialEq, Eq, Structural)]
pub struct PollerState {
    /// Whether a polling loop is alive.
    pub running: bool,
    /// Failed reads since the last good one.
    pub consecutive_errors: u32,
}

/// What the polling loop does after one read.
#[derive(Clone, Copy, Debug, PartialEq, Eq, Structural)]
pub enum PollAction {
    /// The read failed but the controller is not given up yet: read again.
    Retry,
    /// Hand the snapshot to the mapping engine.
    Forward(ControllerState),
    /// Too many reads failed in a row: leave the loop.
    Disconnected,
}

impl PollerState {
    /// The poller before the first start.
    pub open spec fn idle() -> PollerState {
        PollerState { running: false, consecutive_errors: 0 }
    }

    /// The poller after one read, `None` standing for a failed one.
    pub open spec fn after_read(self, reading: Option<ControllerState>) -> PollerState {
        match reading {
            Some(_) => PollerState { running: self.running, consecutive_errors: 0 },
            None => if self.consecutive_errors + 1 >= MAX_ERRORS {
                Self::idle()
            } else {
                PollerState {
                    running: self.running,
                    consecutive_errors: (self.consecutive_errors + 1) as u32,
                }
            },
        }
    }

    /// What the loop does with one read, `None` standing for a failed one.
    pub open spec fn action_for(self, reading: Option<ControllerState>) -> PollAction {
        match reading {
            Some(snapshot) => PollAction::Forward(snapshot),
            None => if self.consecutive_errors + 1 >= MAX_ERRORS {
                PollAction::Disconnected
            } else {
                PollAction::Retry
            },
        }
    }

    pub fn new() -> (poller: PollerState)
        ensures
            poller == Self::idle(),
    {
        PollerState { running: false, consecutive_errors: 0 }
    }

    /// Accounts for one read of the controller. A good read clears the error
    /// count and is forwarded; the `MAX_ERRORS`-th failure in a row stops the
    /// poller.
    pub fn record_read(&mut self, reading: Option<ControllerState>) -> (action: PollAction)
        ensures
            *final(self) == old(self).after_read(reading),
            action == old(self).action_for(reading),
    {
        match reading {
            Some(snapshot) => {
                self.consecutive_errors = 0;
                PollAction::Forward(snapshot)
            },
            None => {
                if self.consecutive_errors >= MAX_ERRORS - 1 {
                    self.running = false;
                    self.consecutive_errors = 0;
                    PollAction::Disconnected
                } else {
                    self.consecutive_errors = self.consecutive_errors + 1;
                    PollAction::Retry
                }
            },
        }
    }
}

/// Marks the poller as running. Returns whether the caller has to bring the
/// polling loop up: `false` means one is alive already and nothing changed.
pub fn start_xinput_thread(poller: &mut PollerState) -> (started: bool)
    ensures
        started == !old(poller).running,
        old(poller).running ==> *final(poller) == *old(poller),
        !old(poller).running ==> *final(poller) == (PollerState {
            running: true,
            consecutive_errors: 0,
        }),
{
    if poller.running {
        false
    } else {
        poller.running = true;
        poller.consecutive_errors = 0;
        true
    }
}

/// Asks the polling loop to end; it leaves before its next read.
pub fn stop_xinput_thread(poller: &mut PollerState)
    ensures
        !final(poller).running,
        final(poller).consecutive_errors == old(poller).consecutive_errors,
{
    poller.running = false;
}

/// The first failure of a started poller is not yet a disconnect, and
/// `MAX_ERRORS` failures in a row always are, whatever came before the last
/// good read.
pub proof fn law_disconnect_after_max_errors(poller: PollerState, snapshot: ControllerState)
    requires
        poller.running,
    ensures
        ({
            let fresh = poller.after_read(Some(snapshot));
            let once = fresh.after_read(None);
            let twice = once.after_read(None);
            let thrice = twice.after_read(None);
            let fourth = thrice.after_read(None);
            &&& fresh.action_for(None) == PollAction::Retry
            &&& once.action_for(None) == PollAction::Retry
            &&& twice.action_for(None) == PollAction::Retry
            &&& thrice.action_for(None) == PollAction::Retry
            &&& fourth.action_for(None) == PollAction::Disconnected
            &&& fourth.running
            &&& !fourth.after_read(None).running
        }),
{
}

} // verus!
