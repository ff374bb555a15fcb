//! Animation clocks: every animated picture of the game cycles through a
//! fixed number of frames, advancing one frame every fixed number of ticks.

use vstd::prelude::*;

verus! {

/// Pictures in the animated title background.
pub const TITLE_FRAMES: usize = 99;
/// Ticks each title picture stays on screen.
pub const TITLE_TICKS: usize = 12;
/// Pictures in the starry track background.
pub const BACKGROUND_FRAMES: usize = 22;
/// Ticks each track background picture stays on screen.
pub const BACKGROUND_TICKS: usize = 5;
/// Pictures in a car's wheel animation.
pub const CAR_FRAMES: usize = 4;
/// Ticks each car picture stays on screen.
pub const CAR_TICKS: usize = 20;
/// Digits shown by the start countdown ("3", "2", "1").
pub const COUNTDOWN_FRAMES: usize = 3;
/// Ticks each countdown digit stays on screen.
pub const COUNTDOWN_TICKS: usize = 68;
/// Pictures in the victory animation.
pub const VICTORY_FRAMES: usize = 31;
/// Ticks each victory picture stays on screen.
pub const VICTORY_TICKS: usize = 5;

/// Title background picture shown at tick `counter`.
pub open spec fn title_frame_of(counter: usize) -> usize {
    (counter / TITLE_TICKS) % TITLE_FRAMES
}

/// Track background picture shown at sprite tick `counter`.
pub open spec fn background_frame_of(counter: usize) -> usize {
    (counter / BACKGROUND_TICKS) % BACKGROUND_FRAMES
}

/// Car wheel picture shown at sprite tick `counter`.
pub open spec fn car_frame_of(counter: usize) -> usize {
    (counter / CAR_TICKS) % CAR_FRAMES
}

/// Countdown digit picture shown at countdown tick `timer`.
pub open spec fn countdown_frame_of(timer: usize) -> usize {
    (timer / COUNTDOWN_TICKS) % COUNTDOWN_FRAMES
}

/// Victory picture shown at victory tick `counter`.
pub open spec fn victory_frame_of(counter: usize) -> usize {
    (counter / VICTORY_TICKS) % VICTORY_FRAMES
}

/// The tick that follows `counter`; a counter at its largest value wraps to 0.
pub open spec fn next_tick(counter: usize) -> usize {
    if counter == usize::MAX {
        0
    } else {
        (counter + 1) as usize
    }
}

/// Advances an animation counter by one tick, wrapping at the largest value.
pub fn advance_tick(counter: usize) -> (next: usize)
    ensures
        next == next_tick(counter),
{
    if counter == usize::MAX {
        0
    } else {
        counter + 1
    }
}

/// Title background picture for the title counter.
pub fn title_frame(counter: usize) -> (frame: usize)
    ensures
        frame == title_frame_of(counter),
        frame < TITLE_FRAMES,
{
    (counter / TITLE_TICKS) % TITLE_FRAMES
}

/// Track background picture for the race sprite counter.
pub fn background_frame(counter: usize) -> (frame: usize)
    ensures
        frame == background_frame_of(counter),
        frame < BACKGROUND_FRAMES,
{
    (counter / BACKGROUND_TICKS) % BACKGROUND_FRAMES
}

/// Car wheel picture for the race sprite counter.
pub fn car_frame(counter: usize) -> (frame: usize)
    ensures
        frame == car_frame_of(counter),
        frame < CAR_FRAMES,
{
    (counter / CAR_TICKS) % CAR_FRAMES
}

/// Countdown digit picture for the countdown timer.
pub fn countdown_frame(timer: usize) -> (frame: usize)
    ensures
        frame == countdown_frame_of(timer),
        frame < COUNTDOWN_FRAMES,
{
    (timer / COUNTDOWN_TICKS) % COUNTDOWN_FRAMES
}

/// Victory animation picture for the victory counter.
pub fn victory_frame(counter: usize) -> (frame: usize)
    ensures
        frame == victory_frame_of(counter),
        frame < VICTORY_FRAMES,
{
    (counter / VICTORY_TICKS) % VICTORY_FRAMES
}

} // verus!
