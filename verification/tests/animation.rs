use ble_ledly::animation::{animation_speed, AnimationSpeed};
use ble_ledly::capability::color::ColorOption;
use ble_ledly::capability::sw_animate::{
    breathing_frames, breathing_step, sw_animation_speed, BreathingState, SWAnimationRepeat,
    SWAnimationSpeed,
};
use ble_ledly::communication_protocol::GenericRGB;

#[test]
fn sw_speed_table_is_exact_and_strictly_decreasing() {
    let table = [
        (SWAnimationSpeed::Fastest, 5),
        (SWAnimationSpeed::Faster, 20),
        (SWAnimationSpeed::Fast, 50),
        (SWAnimationSpeed::Normal, 200),
        (SWAnimationSpeed::Slow, 300),
        (SWAnimationSpeed::Slower, 400),
        (SWAnimationSpeed::Slowest, 600),
    ];
    let mut previous: Option<u64> = None;
    for (speed, interval) in table {
        assert_eq!(sw_animation_speed(&speed), interval);
        if let Some(faster) = previous {
            assert!(faster < interval);
        }
        previous = Some(interval);
    }
}

#[test]
fn standalone_speed_table_matches() {
    let table = [
        (AnimationSpeed::Fastest, 5),
        (AnimationSpeed::Faster, 20),
        (AnimationSpeed::Fast, 50),
        (AnimationSpeed::Normal, 200),
        (AnimationSpeed::Slow, 300),
        (AnimationSpeed::Slower, 400),
        (AnimationSpeed::Slowest, 600),
    ];
    for (speed, interval) in table {
        assert_eq!(animation_speed(&speed), interval);
    }
}

#[test]
fn one_breath_is_202_frames_for_any_color() {
    let protocol = GenericRGB {};
    for color in [
        ColorOption::RGB(255, 0, 0),
        ColorOption::RGB(200, 100, 50),
        ColorOption::RGB(0, 0, 0),
    ] {
        let frames = breathing_frames(&protocol, &color).unwrap();
        assert_eq!(frames.len(), 202);
    }
}

#[test]
fn breath_frames_walk_up_then_down() {
    let protocol = GenericRGB {};
    let frames = breathing_frames(&protocol, &ColorOption::RGB(200, 100, 50)).unwrap();
    // level 0 at both ends
    assert_eq!(frames[0], vec![0x56, 0, 0, 0, 0x00, 0xF0, 0xAA]);
    assert_eq!(frames[201], vec![0x56, 0, 0, 0, 0x00, 0xF0, 0xAA]);
    // full level at the turning point, reached in both directions
    assert_eq!(frames[100], vec![0x56, 200, 100, 50, 0x00, 0xF0, 0xAA]);
    assert_eq!(frames[101], vec![0x56, 200, 100, 50, 0x00, 0xF0, 0xAA]);
    // the walk is symmetric around the turning point
    for k in 0..101 {
        assert_eq!(frames[k], frames[201 - k]);
    }
}

#[test]
fn finite_breathing_run_emits_exactly_404_frames() {
    let protocol = GenericRGB {};
    let color = ColorOption::RGB(255, 0, 0);
    assert_eq!(sw_animation_speed(&SWAnimationSpeed::Fastest), 5);
    let mut state = BreathingState::start(&SWAnimationRepeat::FiniteCount(2));
    let mut emitted: u64 = 0;
    while let Some(frame) = breathing_step(&protocol, &color, &mut state).unwrap() {
        assert_eq!(frame[0], 0x56);
        emitted += 1;
        assert!(emitted <= 404);
    }
    assert_eq!(emitted, 404);
    // a finished run stays finished
    assert!(breathing_step(&protocol, &color, &mut state).unwrap().is_none());
}

#[test]
fn zero_repeat_breathing_run_emits_nothing() {
    let protocol = GenericRGB {};
    let color = ColorOption::RGB(1, 2, 3);
    let mut state = BreathingState::start(&SWAnimationRepeat::FiniteCount(0));
    assert!(breathing_step(&protocol, &color, &mut state).unwrap().is_none());
}

#[test]
fn unbounded_breathing_run_keeps_emitting() {
    let protocol = GenericRGB {};
    let color = ColorOption::RGB(10, 20, 30);
    let mut state = BreathingState::start(&SWAnimationRepeat::InfiniteCount);
    for _ in 0..500 {
        assert!(breathing_step(&protocol, &color, &mut state).unwrap().is_some());
    }
}

#[test]
fn breathing_run_frames_match_single_breath() {
    let protocol = GenericRGB {};
    let color = ColorOption::RGB(200, 100, 50);
    let frames = breathing_frames(&protocol, &color).unwrap();
    let mut state = BreathingState::start(&SWAnimationRepeat::FiniteCount(1));
    let mut seen = Vec::new();
    while let Some(frame) = breathing_step(&protocol, &color, &mut state).unwrap() {
        seen.push(frame);
        assert!(seen.len() <= 202);
    }
    assert_eq!(seen, frames);
}
