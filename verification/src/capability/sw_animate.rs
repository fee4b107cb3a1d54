//! The software animation capability: breathing effects synthesized from
//! repeated brightness writes at a fixed cadence.

use vstd::prelude::*;

use crate::capability::brightness::BrightnessOption;
use crate::capability::color::ColorOption;
use crate::communication_protocol::{GenericRGB, Protocol};
use crate::error::CapabilityError;

verus! {

/// Software animation options.
#[derive(Clone, Copy, PartialEq, Eq, Structural, Debug)]
pub enum SWAnimateOption {
    Breathing(ColorOption, SWAnimationRepeat, SWAnimationSpeed),
}

/// How often a software animation repeats: a finite number of times, or
/// until the driving loop is stopped from outside.
#[derive(Clone, Copy, PartialEq, Eq, Structural, Debug)]
pub enum SWAnimationRepeat {
    FiniteCount(i32),
    InfiniteCount,
}

/// The seven named speeds of a software animation.
#[derive(Clone, Copy, PartialEq, Eq, Structural, Debug)]
pub enum SWAnimationSpeed {
    Slowest,
    Slower,
    Slow,
    Normal,
    Fast,
    Faster,
    Fastest,
}

/// The pause between two animation steps, in milliseconds, for each named
/// speed. Faster names map to strictly smaller intervals.
pub open spec fn sw_interval_ms(speed: SWAnimationSpeed) -> u64 {
    match speed {
        SWAnimationSpeed::Fastest => 5,
        SWAnimationSpeed::Faster => 20,
        SWAnimationSpeed::Fast => 50,
        SWAnimationSpeed::Normal => 200,
        SWAnimationSpeed::Slow => 300,
        SWAnimationSpeed::Slower => 400,
        SWAnimationSpeed::Slowest => 600,
    }
}

/// Maps a named software animation speed to the pause between two
/// animation steps, in milliseconds.
pub fn sw_animation_speed(speed: &SWAnimationSpeed) -> (interval: u64)
    ensures
        interval == sw_interval_ms(*speed),
{
    match speed {
        SWAnimationSpeed::Fastest => 5,
        SWAnimationSpeed::Faster => 20,
        SWAnimationSpeed::Fast => 50,
        SWAnimationSpeed::Normal => 200,
        SWAnimationSpeed::Slow => 300,
        SWAnimationSpeed::Slower => 400,
        SWAnimationSpeed::Slowest => 600,
    }
}

/// Law: the interval table is strictly monotonic — every faster named
/// speed pauses strictly less between steps than every slower one.
pub proof fn lemma_sw_interval_strictly_ordered()
    ensures
        sw_interval_ms(SWAnimationSpeed::Fastest) < sw_interval_ms(SWAnimationSpeed::Faster),
        sw_interval_ms(SWAnimationSpeed::Faster) < sw_interval_ms(SWAnimationSpeed::Fast),
        sw_interval_ms(SWAnimationSpeed::Fast) < sw_interval_ms(SWAnimationSpeed::Normal),
        sw_interval_ms(SWAnimationSpeed::Normal) < sw_interval_ms(SWAnimationSpeed::Slow),
        sw_interval_ms(SWAnimationSpeed::Slow) < sw_interval_ms(SWAnimationSpeed::Slower),
        sw_interval_ms(SWAnimationSpeed::Slower) < sw_interval_ms(SWAnimationSpeed::Slowest),
{
}

/// The brightness level of frame `k` of one breath: levels walk from 0 up
/// to 100 inclusive and back down to 0 inclusive, 202 frames in all.
pub open spec fn breath_level(k: int) -> u8
    recommends
        0 <= k < 202,
{
    if k <= 100 {
        k as u8
    } else {
        (201 - k) as u8
    }
}

/// The brightness option written at frame `k` of a breath in `color`.
pub open spec fn breath_option(k: int, color: ColorOption) -> BrightnessOption {
    BrightnessOption::LevelWithColor(breath_level(k), color)
}

/// Encodes one full breath in `color`: exactly 202 frames — 101 ascending
/// and 101 descending brightness levels — each the protocol's encoding of
/// the corresponding brightness option. Fails exactly when the protocol
/// cannot encode one of the levels, with that encoding error.
pub fn breathing_frames<P: Protocol>(protocol: &P, color: &ColorOption) -> (r: Result<
    Vec<Vec<u8>>,
    CapabilityError,
>)
    ensures
        r matches Ok(frames) ==> frames@.len() == 202 && (forall|k: int| 0 <= k < 202
            ==> ((#[trigger] protocol.brightness_spec(breath_option(k, *color))) matches Ok(bytes)
                && frames@[k]@ == bytes)),
        r matches Err(e) ==> exists|k: int| 0 <= k < 202
            && (#[trigger] protocol.brightness_spec(breath_option(k, *color)))
                == Err::<Seq<u8>, CapabilityError>(e),
        (forall|k: int| 0 <= k < 202
            ==> (#[trigger] protocol.brightness_spec(breath_option(k, *color))) is Ok) ==> r is Ok,
{
    let mut frames: Vec<Vec<u8>> = Vec::new();
    let mut step: usize = 0;
    while step < 202
        invariant
            step <= 202,
            frames@.len() == step,
            forall|k: int| 0 <= k < step
                ==> ((#[trigger] protocol.brightness_spec(breath_option(k, *color))) matches Ok(bytes)
                    && frames@[k]@ == bytes),
        decreases 202 - step,
    {
        let level: u8 = if step <= 100 {
            step as u8
        } else {
            (201 - step) as u8
        };
        assert(level == breath_level(step as int));
        let option = BrightnessOption::LevelWithColor(level, *color);
        match protocol.brightness(&option) {
            Ok(frame) => {
                frames.push(frame);
                step = step + 1;
            }
            Err(e) => {
                proof {
                    assert(protocol.brightness_spec(breath_option(step as int, *color))
                        == Err::<Seq<u8>, CapabilityError>(e));
                }
                return Err(e);
            }
        }
    }
    Ok(frames)
}

/// Law: the GenericRGB protocol defines a layout for every breath frame
/// — each one carries a color — so encoding one breath succeeds for
/// every requested color, and the breath is exactly its 202 frames.
pub proof fn lemma_generic_rgb_breath_always_encodes(color: ColorOption)
    ensures
        forall|k: int| 0 <= k < 202
            ==> (#[trigger] (GenericRGB {}).brightness_spec(breath_option(k, color))) is Ok,
{
}

/// The position of a breathing run between two frames: how many breaths
/// are still owed (the current, partly emitted one included) and the
/// frame index inside the current breath.
#[derive(Clone, Copy, PartialEq, Eq, Structural, Debug)]
pub struct BreathingState {
    /// The repeats not yet completed, the current breath included.
    pub repeat: SWAnimationRepeat,
    /// The next frame to emit within the current breath, below 202.
    pub step: usize,
}

impl BreathingState {
    /// A state is well formed while its frame index stays inside one
    /// breath and an exhausted finite run rests at frame zero.
    pub open spec fn wf(&self) -> bool {
        &&& self.step < 202
        &&& (self.repeat matches SWAnimationRepeat::FiniteCount(n) && n <= 0 ==> self.step == 0)
    }

    /// How many frames the run will still emit: 202 per owed breath, less
    /// the frames of the current breath already emitted; an unbounded run
    /// has no such number.
    pub open spec fn frames_remaining(&self) -> Option<int> {
        match self.repeat {
            SWAnimationRepeat::FiniteCount(n) => Some(
                if n <= 0 {
                    0int
                } else {
                    202 * (n as int) - (self.step as int)
                },
            ),
            SWAnimationRepeat::InfiniteCount => None,
        }
    }

    /// The state a breathing run starts from.
    pub open spec fn initial(repeat: SWAnimationRepeat) -> BreathingState {
        BreathingState { repeat, step: 0 }
    }

    /// Starts a breathing run with the given repeat policy.
    pub fn start(repeat: &SWAnimationRepeat) -> (s: BreathingState)
        ensures
            s == BreathingState::initial(*repeat),
            s.wf(),
    {
        BreathingState { repeat: *repeat, step: 0 }
    }
}

/// The state after one more frame has been emitted: the frame index
/// advances, and completing a breath closes one finite repeat.
pub open spec fn advanced(s: BreathingState) -> BreathingState {
    if s.step == 201 {
        BreathingState {
            repeat: match s.repeat {
                SWAnimationRepeat::FiniteCount(n) => SWAnimationRepeat::FiniteCount((n - 1) as i32),
                SWAnimationRepeat::InfiniteCount => SWAnimationRepeat::InfiniteCount,
            },
            step: 0,
        }
    } else {
        BreathingState { repeat: s.repeat, step: (s.step + 1) as usize }
    }
}

/// Law: every emitted frame lowers the count of owed frames by exactly
/// one, and never leaves a well-formed state; a run without such a count
/// keeps none. With `lemma_finite_run_total` this pins the length of a
/// finite run: from `FiniteCount(n)` the machine emits exactly `202 * n`
/// frames before it reports completion.
pub proof fn lemma_advanced_decrements(s: BreathingState)
    requires
        s.wf(),
        s.frames_remaining() != Some(0int),
    ensures
        advanced(s).wf(),
        s.frames_remaining() matches Some(k) ==> advanced(s).frames_remaining() == Some(k - 1),
        s.frames_remaining() is None ==> advanced(s).frames_remaining() is None,
{
    match s.repeat {
        SWAnimationRepeat::FiniteCount(n) => {
            assert(n >= 1);
            if s.step == 201 {
                assert(202 * (n as int) - 202 == 202 * ((n - 1) as int));
            }
        }
        SWAnimationRepeat::InfiniteCount => {
        }
    }
}

/// Law: a run over `FiniteCount(n)` breaths owes exactly `202 * n` frames
/// at its start — each breath is 101 ascending and 101 descending writes.
pub proof fn lemma_finite_run_total(n: i32)
    requires
        n >= 0,
    ensures
        BreathingState::initial(SWAnimationRepeat::FiniteCount(n)).frames_remaining()
            == Some(202 * n as int),
{
}

/// Emits the next frame of a breathing run: `Ok(Some(frame))` carries the
/// encoded brightness write of the current step and advances the state;
/// `Ok(None)` reports a completed finite run and changes nothing; an
/// encoding error aborts the run, also changing nothing.
pub fn breathing_step<P: Protocol>(
    protocol: &P,
    color: &ColorOption,
    state: &mut BreathingState,
) -> (r: Result<Option<Vec<u8>>, CapabilityError>)
    requires
        old(state).wf(),
    ensures
        final(state).wf(),
        match r {
            Ok(opt) => match opt {
                Some(frame) => {
                    &&& old(state).frames_remaining() != Some(0int)
                    &&& protocol.brightness_spec(breath_option(old(state).step as int, *color))
                        matches Ok(bytes) && frame@ == bytes
                    &&& *final(state) == advanced(*old(state))
                },
                None => old(state).frames_remaining() == Some(0int) && *final(state) == *old(state),
            },
            Err(e) => {
                &&& old(state).frames_remaining() != Some(0int)
                &&& protocol.brightness_spec(breath_option(old(state).step as int, *color))
                    == Err::<Seq<u8>, CapabilityError>(e)
                &&& *final(state) == *old(state)
            },
        },
{
    match state.repeat {
        SWAnimationRepeat::FiniteCount(n) => {
            if n <= 0 {
                return Ok(None);
            }
        }
        SWAnimationRepeat::InfiniteCount => {
        }
    }
    let level: u8 = if state.step <= 100 {
        state.step as u8
    } else {
        (201 - state.step) as u8
    };
    assert(level == breath_level(state.step as int));
    let option = BrightnessOption::LevelWithColor(level, *color);
    let frame = match protocol.brightness(&option) {
        Ok(f) => f,
        Err(e) => {
            return Err(e);
        }
    };
    if state.step == 201 {
        state.step = 0;
        match state.repeat {
            SWAnimationRepeat::FiniteCount(n) => {
                state.repeat = SWAnimationRepeat::FiniteCount(n - 1);
            }
            SWAnimationRepeat::InfiniteCount => {
            }
        }
    } else {
        state.step = state.step + 1;
    }
    Ok(Some(frame))
}

} // verus!
