//! One racer's progress through the race: laps, the checkpoint that must be
//! passed before a lap counts, and spin-outs on ice.

use vstd::prelude::*;

verus! {

/// Laps in a race; crossing the goal on this lap (after the checkpoint) wins.
pub const RACE_LAPS: usize = 3;
/// Race frames a spin-out lasts.
pub const SPIN_OUT_FRAMES: u32 = 40;

/// What the race logic keeps of a car between frames.
#[derive(Clone, Copy, Debug, PartialEq, Eq, Structural)]
pub struct Racer {
    /// The lap the car is on, from 1 to `RACE_LAPS`.
    pub lap: usize,
    /// Whether the car has passed the checkpoint since it last crossed the goal.
    pub can_lap: bool,
    /// Frames of spin-out left; 0 when the driver is in control.
    pub spinning_out: u32,
}

/// Where a car stood at the end of one race frame, as measured by the
/// physics: whether it touched ice, and whether it is inside the checkpoint
/// area and inside the goal area.
#[derive(Clone, Copy, Debug, PartialEq, Eq, Structural)]
pub struct CarSample {
    pub hit_ice: bool,
    pub at_checkpoint: bool,
    pub at_goal: bool,
}

/// What a car's position means for its lap count in one frame.
#[derive(Clone, Copy, Debug, PartialEq, Eq, Structural)]
pub enum LapEvent {
    /// Nothing changes.
    Nothing,
    /// The car is in the checkpoint: its next goal crossing counts.
    Checkpoint,
    /// The car crossed the goal on the last lap after the checkpoint: it wins.
    Won,
    /// The car crossed the goal after the checkpoint: it starts the next lap.
    NewLap,
    /// The car is on the goal on its last lap without having passed the
    /// checkpoint: the "final lap" notice is shown.
    FinalLapNotice,
}

impl Racer {
    /// A racer is valid when its lap is within the race and its spin-out
    /// lasts no longer than a full spin-out.
    pub open spec fn valid(self) -> bool {
        &&& 1 <= self.lap <= RACE_LAPS
        &&& self.spinning_out <= SPIN_OUT_FRAMES
    }

    /// A car on the starting grid: first lap, checkpoint not passed, in control.
    pub fn new() -> (r: Racer)
        ensures
            r == (Racer { lap: 1, can_lap: false, spinning_out: 0 }),
            r.valid(),
    {
        Racer { lap: 1, can_lap: false, spinning_out: 0 }
    }

    /// Whether the car is spinning out (the driver has no control this frame).
    pub fn is_spinning(&self) -> (b: bool)
        ensures
            b == (self.spinning_out > 0),
    {
        self.spinning_out > 0
    }
}

/// The lap event of a car on `lap`, having passed the checkpoint or not
/// (`can_lap`), inside the checkpoint area or the goal area.
/// The checkpoint is looked at first, then a win, then a new lap, then the
/// final-lap notice.
pub open spec fn lap_event_of(lap: usize, can_lap: bool, at_checkpoint: bool, at_goal: bool) -> LapEvent {
    if at_checkpoint {
        LapEvent::Checkpoint
    } else if at_goal && lap == RACE_LAPS && can_lap {
        LapEvent::Won
    } else if at_goal && can_lap {
        LapEvent::NewLap
    } else if at_goal && lap == RACE_LAPS {
        LapEvent::FinalLapNotice
    } else {
        LapEvent::Nothing
    }
}

/// The racer after a lap event: the checkpoint arms the next lap, a new lap
/// counts one more lap and disarms it; a win and the others change nothing.
pub open spec fn after_lap_event(r: Racer, e: LapEvent) -> Racer {
    match e {
        LapEvent::Checkpoint => Racer { can_lap: true, ..r },
        LapEvent::NewLap => Racer { lap: (r.lap + 1) as usize, can_lap: false, ..r },
        _ => r,
    }
}

/// The spin-out frames left after one race frame: a running spin-out counts
/// down by one; a car in control that hits ice starts a full spin-out.
pub open spec fn spin_after(spinning_out: u32, hit_ice: bool) -> u32 {
    if spinning_out > 0 {
        (spinning_out - 1) as u32
    } else if hit_ice {
        SPIN_OUT_FRAMES
    } else {
        0
    }
}

/// The racer after one race frame in which the physics measured `s`.
pub open spec fn racer_after(r: Racer, s: CarSample) -> Racer {
    let e = lap_event_of(r.lap, r.can_lap, s.at_checkpoint, s.at_goal);
    Racer { spinning_out: spin_after(r.spinning_out, s.hit_ice), ..after_lap_event(r, e) }
}

/// Decides the lap event of a car (see `lap_event_of`).
pub fn lap_event(lap: usize, can_lap: bool, at_checkpoint: bool, at_goal: bool) -> (e: LapEvent)
    ensures
        e == lap_event_of(lap, can_lap, at_checkpoint, at_goal),
{
    if at_checkpoint {
        LapEvent::Checkpoint
    } else if at_goal && lap == RACE_LAPS && can_lap {
        LapEvent::Won
    } else if at_goal && can_lap {
        LapEvent::NewLap
    } else if at_goal && lap == RACE_LAPS {
        LapEvent::FinalLapNotice
    } else {
        LapEvent::Nothing
    }
}

/// Counts a spin-out down by one frame, or starts one on ice (see `spin_after`).
pub fn spin_tick(spinning_out: u32, hit_ice: bool) -> (left: u32)
    ensures
        left == spin_after(spinning_out, hit_ice),
{
    if spinning_out > 0 {
        spinning_out - 1
    } else if hit_ice {
        SPIN_OUT_FRAMES
    } else {
        0
    }
}

impl Racer {
    /// Advances the racer by one race frame: spin-out clock and lap count.
    /// Returns the new racer and the lap event of this frame.
    pub fn advance(&self, s: CarSample) -> (res: (Racer, LapEvent))
        requires
            self.valid(),
        ensures
            res.0 == racer_after(*self, s),
            res.1 == lap_event_of(self.lap, self.can_lap, s.at_checkpoint, s.at_goal),
            res.0.valid(),
            // the checkpoint arms the next lap
            s.at_checkpoint ==> res.0.can_lap && res.0.lap == self.lap && res.1
                == LapEvent::Checkpoint,
            // away from both areas nothing about the laps changes
            !s.at_checkpoint && !s.at_goal ==> res.0.can_lap == self.can_lap && res.0.lap
                == self.lap && res.1 == LapEvent::Nothing,
            // an armed goal crossing before the last lap counts one lap and disarms
            !s.at_checkpoint && s.at_goal && self.can_lap && self.lap < RACE_LAPS ==> res.0.lap
                == self.lap + 1 && !res.0.can_lap && res.1 == LapEvent::NewLap,
            // an armed goal crossing on the last lap wins
            !s.at_checkpoint && s.at_goal && self.can_lap && self.lap == RACE_LAPS ==> res.0.lap
                == self.lap && res.0.can_lap && res.1 == LapEvent::Won,
            // an unarmed goal crossing counts nothing
            !s.at_checkpoint && s.at_goal && !self.can_lap ==> res.0.lap == self.lap
                && !res.0.can_lap && res.1 == (if self.lap == RACE_LAPS {
                LapEvent::FinalLapNotice
            } else {
                LapEvent::Nothing
            }),
            self.spinning_out > 0 ==> res.0.spinning_out == self.spinning_out - 1,
            self.spinning_out == 0 ==> res.0.spinning_out == (if s.hit_ice {
                SPIN_OUT_FRAMES
            } else {
                0
            }),
    {
        let e = lap_event(self.lap, self.can_lap, s.at_checkpoint, s.at_goal);
        let spin = spin_tick(self.spinning_out, s.hit_ice);
        let r = match e {
            LapEvent::Checkpoint => Racer { lap: self.lap, can_lap: true, spinning_out: spin },
            LapEvent::NewLap => Racer { lap: self.lap + 1, can_lap: false, spinning_out: spin },
            _ => Racer { lap: self.lap, can_lap: self.can_lap, spinning_out: spin },
        };
        (r, e)
    }
}

} // verus!
