//! Standalone animation settings: repeat policies and the named speed
//! table used by software-driven effects.

use vstd::prelude::*;

verus! {

/// How often an animation repeats: a finite number of times, or until the
/// driving loop is stopped from outside.
#[derive(Clone, Copy, PartialEq, Eq, Structural, Debug)]
pub enum AnimationRepeat {
    FiniteCount(i32),
    InfiniteCount,
}

/// The seven named speeds of an animation.
#[derive(Clone, Copy, PartialEq, Eq, Structural, Debug)]
pub enum AnimationSpeed {
    Slowest,
    Slower,
    Slow,
    Normal,
    Fast,
    Faster,
    Fastest,
}

/// The pause between two animation steps, in milliseconds, for each named
/// speed. Faster names map to strictly smaller intervals.
pub open spec fn interval_ms(speed: AnimationSpeed) -> u64 {
    match speed {
        AnimationSpeed::Fastest => 5,
        AnimationSpeed::Faster => 20,
        AnimationSpeed::Fast => 50,
        AnimationSpeed::Normal => 200,
        AnimationSpeed::Slow => 300,
        AnimationSpeed::Slower => 400,
        AnimationSpeed::Slowest => 600,
    }
}

/// Maps a named animation speed to the pause between two animation steps,
/// in milliseconds.
pub fn animation_speed(speed: &AnimationSpeed) -> (interval: u64)
    ensures
        interval == interval_ms(*speed),
{
    match speed {
        AnimationSpeed::Fastest => 5,
        AnimationSpeed::Faster => 20,
        AnimationSpeed::Fast => 50,
        AnimationSpeed::Normal => 200,
        AnimationSpeed::Slow => 300,
        AnimationSpeed::Slower => 400,
        AnimationSpeed::Slowest => 600,
    }
}

} // verus!
