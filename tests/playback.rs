use aseprite_anim::animation::{
    Animation, AnimationDirection, AnimationRepeat, AnimationState, PlayDirection,
};
use aseprite_anim::loader::{Aseprite, FrameRange, TagMeta};
use aseprite_anim::playback::{
    advance, advance_by, initial_state, next_frame, resolve_range, revalidate,
    update_aseprite_animation, AnimationEvents, FrameTransition,
};

const MS: u64 = 1_000_000;

fn sheet(durations_ms: &[u64], tags: &[(&str, AnimationDirection, u16, u16)]) -> Aseprite {
    Aseprite {
        tags: tags
            .iter()
            .map(|(name, direction, start, end)| {
                (
                    name.to_string(),
                    TagMeta {
                        direction: *direction,
                        range: FrameRange { start: *start, end: *end },
                        repeat: 0,
                    },
                )
            })
            .collect(),
        frame_durations: durations_ms.iter().map(|d| d * MS).collect(),
        frame_indicies: (0..durations_ms.len()).collect(),
    }
}

fn at(frame: u16, start: u16) -> AnimationState {
    AnimationState {
        current_frame: frame,
        relative_frame: frame - start,
        ..AnimationState::default()
    }
}

#[test]
fn forward_loop_returns_to_start_after_one_cycle() {
    let range = FrameRange { start: 2, end: 5 };
    let mut anim = Animation::default();
    let mut state = at(2, 2);
    let mut frames = Vec::new();
    let mut transitions = Vec::new();
    for _ in 0..4 {
        transitions.push(advance(&mut anim, &mut state, range, AnimationDirection::Forward));
        frames.push(state.current_frame);
    }
    assert_eq!(frames, vec![3, 4, 5, 2]);
    assert_eq!(
        transitions,
        vec![
            FrameTransition::FrameChanged,
            FrameTransition::FrameChanged,
            FrameTransition::FrameChanged,
            FrameTransition::LoopCycleFinished,
        ]
    );
    assert_eq!(state.relative_frame, 0);
}

#[test]
fn count_finishes_on_the_last_of_n_plus_one_cycles() {
    let range = FrameRange { start: 0, end: 1 };
    let mut anim = Animation::default().with_repeat(AnimationRepeat::Count(2));
    let mut state = at(0, 0);
    let mut transitions = Vec::new();
    for _ in 0..6 {
        transitions.push(advance(&mut anim, &mut state, range, AnimationDirection::Forward));
    }
    assert!(transitions[..5]
        .iter()
        .all(|t| *t == FrameTransition::FrameChanged));
    assert_eq!(transitions[5], FrameTransition::Finished);
    assert_eq!(anim.repeat, AnimationRepeat::Count(0));
    assert_eq!(state.current_frame, 1);
}

#[test]
fn count_exhaustion_hands_over_to_the_queue() {
    let range = FrameRange { start: 0, end: 1 };
    let mut anim = Animation::tag("a")
        .with_repeat(AnimationRepeat::Count(1))
        .with_then("b".to_string(), AnimationRepeat::Loop);
    let mut state = at(0, 0);
    let mut transitions = Vec::new();
    for _ in 0..4 {
        transitions.push(advance(&mut anim, &mut state, range, AnimationDirection::Forward));
    }
    assert!(transitions.iter().all(|t| *t == FrameTransition::FrameChanged));
    assert_eq!(anim.tag.as_deref(), Some("b"));
    assert_eq!(anim.repeat, AnimationRepeat::Loop);
    assert!(anim.queue.is_empty());
}

#[test]
fn ping_pong_mirrors_at_both_ends() {
    let range = FrameRange { start: 0, end: 3 };
    let mut anim = Animation::default();
    let mut state = at(0, 0);
    let mut frames = Vec::new();
    let mut sweeps = Vec::new();
    let mut transitions = Vec::new();
    for _ in 0..8 {
        transitions.push(advance(&mut anim, &mut state, range, AnimationDirection::PingPong));
        frames.push(state.current_frame);
        sweeps.push(state.current_direction);
    }
    assert_eq!(frames, vec![1, 2, 3, 2, 1, 0, 1, 2]);
    let turns: Vec<usize> = transitions
        .iter()
        .enumerate()
        .filter(|(_, t)| **t == FrameTransition::LoopCycleFinished)
        .map(|(i, _)| i)
        .collect();
    // the turns happen on the advances that land on frame 3 and on frame 0
    assert_eq!(turns, vec![2, 5]);
    let (f, b) = (PlayDirection::Forward, PlayDirection::Backward);
    assert_eq!(sweeps, vec![f, f, b, b, b, f, f, f]);
    assert_eq!(state.relative_frame, 2);
}

#[test]
fn ping_pong_direction_flips_at_the_ends() {
    let range = FrameRange { start: 0, end: 3 };
    let mut anim = Animation::default();
    let mut state = at(2, 0);
    let t = advance(&mut anim, &mut state, range, AnimationDirection::PingPong);
    assert_eq!(t, FrameTransition::LoopCycleFinished);
    assert_eq!(state.current_direction, PlayDirection::Backward);
    assert_eq!(state.current_frame, 3);
    assert_eq!(state.relative_frame, 3);
    let mut state = AnimationState {
        current_direction: PlayDirection::Backward,
        ..at(1, 0)
    };
    let t = advance(&mut anim, &mut state, range, AnimationDirection::PingPongReverse);
    assert_eq!(t, FrameTransition::LoopCycleFinished);
    assert_eq!(state.current_direction, PlayDirection::Forward);
    assert_eq!(state.current_frame, 0);
    assert_eq!(state.relative_frame, 0);
}

#[test]
fn ping_pong_on_one_frame_stays_inside() {
    let range = FrameRange { start: 4, end: 4 };
    let mut anim = Animation::default();
    let mut state = at(4, 4);
    for _ in 0..3 {
        let t = advance(&mut anim, &mut state, range, AnimationDirection::PingPong);
        assert_eq!(t, FrameTransition::LoopCycleFinished);
        assert_eq!(state.current_frame, 4);
        assert_eq!(state.relative_frame, 0);
    }
}

#[test]
fn reverse_wraps_to_the_frame_below_the_end() {
    let range = FrameRange { start: 0, end: 3 };
    let mut anim = Animation::default();
    let mut state = at(0, 0);
    let t = advance(&mut anim, &mut state, range, AnimationDirection::Reverse);
    assert_eq!(t, FrameTransition::LoopCycleFinished);
    assert_eq!(state.current_frame, 2);
    assert_eq!(state.relative_frame, 2);
    let t = advance(&mut anim, &mut state, range, AnimationDirection::Reverse);
    assert_eq!(t, FrameTransition::FrameChanged);
    assert_eq!(state.current_frame, 1);
    assert_eq!(state.relative_frame, 1);
}

#[test]
fn revalidating_twice_changes_nothing_more() {
    let range = FrameRange { start: 2, end: 5 };
    let mut anim = Animation::default().with_relative_frame_hold(true);
    let mut state = AnimationState {
        current_frame: 9,
        relative_frame: 6,
        elapsed: 40 * MS,
        current_direction: PlayDirection::Forward,
    };
    revalidate(&mut anim, &mut state, range, AnimationDirection::Forward);
    assert_eq!(state.current_frame, 4);
    assert_eq!(state.relative_frame, 2);
    assert_eq!(state.elapsed, 40 * MS);
    let once = state;
    let group = (anim.relative_group, anim.new_relative_group);
    revalidate(&mut anim, &mut state, range, AnimationDirection::Forward);
    assert_eq!(state, once);
    assert_eq!((anim.relative_group, anim.new_relative_group), group);
}

#[test]
fn revalidation_without_hold_restarts_and_clears_groups() {
    let range = FrameRange { start: 4, end: 7 };
    let mut anim = Animation::default();
    anim.relative_group = 3;
    anim.new_relative_group = 5;
    let mut state = AnimationState {
        current_frame: 1,
        relative_frame: 1,
        elapsed: 30 * MS,
        current_direction: PlayDirection::Backward,
    };
    revalidate(&mut anim, &mut state, range, AnimationDirection::Forward);
    assert_eq!(state.current_frame, 4);
    assert_eq!(state.relative_frame, 0);
    assert_eq!(state.elapsed, 30 * MS);
    assert_eq!(state.current_direction, PlayDirection::Forward);
    assert_eq!((anim.relative_group, anim.new_relative_group), (0, 0));
}

#[test]
fn revalidation_with_a_new_group_restarts_and_clears_elapsed() {
    let range = FrameRange { start: 4, end: 7 };
    let mut anim = Animation::default().with_relative_frame_hold(true);
    anim.play_with_relative_group("walk".to_string(), AnimationRepeat::Loop, 2);
    let mut state = AnimationState {
        current_frame: 1,
        relative_frame: 1,
        elapsed: 30 * MS,
        current_direction: PlayDirection::Forward,
    };
    revalidate(&mut anim, &mut state, range, AnimationDirection::PingPongReverse);
    assert_eq!(state.current_frame, 4);
    assert_eq!(state.relative_frame, 0);
    assert_eq!(state.elapsed, 0);
    assert_eq!(state.current_direction, PlayDirection::Backward);
    assert_eq!(anim.relative_group, 2);
}

#[test]
fn revalidation_leaves_a_cursor_inside_the_range() {
    let range = FrameRange { start: 0, end: 3 };
    let mut anim = Animation::default();
    anim.relative_group = 7;
    let mut state = AnimationState {
        current_frame: 2,
        relative_frame: 2,
        elapsed: 5,
        current_direction: PlayDirection::Backward,
    };
    let before = state;
    revalidate(&mut anim, &mut state, range, AnimationDirection::Forward);
    assert_eq!(state, before);
    assert_eq!(anim.relative_group, 7);
}

#[test]
fn queue_round_trip_without_finishing() {
    let table = sheet(
        &[100, 100, 100, 100],
        &[
            ("a", AnimationDirection::Forward, 0, 1),
            ("b", AnimationDirection::Forward, 2, 3),
        ],
    );
    let mut anim = Animation::tag("a")
        .with_repeat(AnimationRepeat::Count(0))
        .with_then("b".to_string(), AnimationRepeat::Count(1));
    anim.start();
    let mut state = AnimationState::default();
    let mut events = Vec::new();
    for _ in 0..2 {
        let e = update_aseprite_animation(&mut anim, &mut state, &table, false, 150 * MS, 7);
        events.push(e.unwrap());
    }
    assert_eq!(anim.tag.as_deref(), Some("b"));
    assert_eq!(anim.repeat, AnimationRepeat::Count(1));
    assert!(anim.queue.is_empty());
    assert!(anim.playing);
    assert_eq!(
        events,
        vec![
            Some(AnimationEvents::FrameChanged(7)),
            Some(AnimationEvents::FrameChanged(7)),
        ]
    );
    // the next tick moves the cursor into the range of "b"
    update_aseprite_animation(&mut anim, &mut state, &table, false, 0, 7).unwrap();
    assert_eq!(state.current_frame, 2);
}

#[test]
fn one_tick_advances_one_frame_and_keeps_the_rest() {
    let table = sheet(
        &[100, 100, 100, 100],
        &[("walk", AnimationDirection::Forward, 0, 3)],
    );
    let mut anim = Animation::tag("walk");
    anim.start();
    let mut state = AnimationState::default();
    let event = update_aseprite_animation(&mut anim, &mut state, &table, false, 250 * MS, 1);
    assert_eq!(event.unwrap(), Some(AnimationEvents::FrameChanged(1)));
    assert_eq!(state.current_frame(), 1);
    assert_eq!(state.relative_frame(), 1);
    assert_eq!(state.elapsed, 150 * MS);
    // the time left over advances the next tick, even without new time
    let event = update_aseprite_animation(&mut anim, &mut state, &table, false, 0, 1);
    assert_eq!(event.unwrap(), Some(AnimationEvents::FrameChanged(1)));
    assert_eq!(state.current_frame, 2);
    assert_eq!(state.elapsed, 50 * MS);
}

#[test]
fn a_tick_within_the_frame_only_accumulates() {
    let table = sheet(&[100, 100], &[]);
    let mut anim = Animation::default();
    anim.start();
    let mut state = AnimationState::default();
    let event = update_aseprite_animation(&mut anim, &mut state, &table, false, 100 * MS, 1);
    assert_eq!(event.unwrap(), None);
    assert_eq!(state.current_frame, 0);
    assert_eq!(state.elapsed, 100 * MS);
}

#[test]
fn speed_scales_the_elapsed_time() {
    let table = sheet(&[100, 100], &[]);
    let mut anim = Animation::default().with_speed(3, 2);
    anim.start();
    let mut state = AnimationState::default();
    let event = update_aseprite_animation(&mut anim, &mut state, &table, false, 60 * MS, 1);
    assert_eq!(event.unwrap(), None);
    assert_eq!(state.elapsed, 90 * MS);
    let event = update_aseprite_animation(&mut anim, &mut state, &table, false, 20 * MS, 1);
    assert_eq!(event.unwrap(), Some(AnimationEvents::FrameChanged(1)));
    assert_eq!(state.current_frame, 1);
    assert_eq!(state.elapsed, 20 * MS);
}

#[test]
fn elapsed_time_saturates() {
    let table = sheet(&[], &[]);
    let mut anim = Animation::default().with_speed(4, 1);
    anim.start();
    let mut state = AnimationState {
        elapsed: u64::MAX - 5,
        ..AnimationState::default()
    };
    let event = update_aseprite_animation(&mut anim, &mut state, &table, false, u64::MAX, 1);
    assert_eq!(event.unwrap(), None);
    assert_eq!(state.elapsed, u64::MAX);
}

#[test]
fn a_loop_cycle_is_reported() {
    let table = sheet(&[10, 10], &[]);
    let mut anim = Animation::default();
    anim.start();
    let mut state = at(1, 0);
    let event = update_aseprite_animation(&mut anim, &mut state, &table, false, 11 * MS, 3);
    assert_eq!(event.unwrap(), Some(AnimationEvents::LoopCycleFinished(3)));
    assert_eq!(state.current_frame, 0);
    assert_eq!(state.elapsed, MS);
}

#[test]
fn a_finished_animation_stops_playing() {
    let table = sheet(&[10, 10], &[("once", AnimationDirection::Forward, 0, 1)]);
    let mut anim = Animation::tag("once").with_repeat(AnimationRepeat::Count(0));
    anim.start();
    let mut state = at(1, 0);
    let event = update_aseprite_animation(&mut anim, &mut state, &table, false, 11 * MS, 3);
    assert_eq!(event.unwrap(), Some(AnimationEvents::Finished(3)));
    assert!(!anim.playing);
    assert_eq!(state.current_frame, 1);
    let event = update_aseprite_animation(&mut anim, &mut state, &table, false, 11 * MS, 3);
    assert_eq!(event.unwrap(), None);
}

#[test]
fn an_unknown_tag_is_an_error_and_changes_nothing() {
    let table = sheet(&[10, 10], &[("idle", AnimationDirection::Forward, 0, 1)]);
    let mut anim = Animation::tag("run");
    anim.start();
    let mut state = at(1, 0);
    let err = update_aseprite_animation(&mut anim, &mut state, &table, false, 11 * MS, 3)
        .unwrap_err();
    assert_eq!(err.tag, "run");
    assert_eq!(err.message(), "unknown tag run");
    assert_eq!(state, at(1, 0));
    let err = next_frame(&mut anim, &mut state, &table).unwrap_err();
    assert_eq!(err.tag, "run");
    assert_eq!(state, at(1, 0));
}

#[test]
fn a_frame_without_duration_advances_nothing() {
    let table = sheet(&[], &[]);
    let mut anim = Animation::default();
    anim.start();
    let mut state = AnimationState::default();
    let event = update_aseprite_animation(&mut anim, &mut state, &table, false, 500 * MS, 1);
    assert_eq!(event.unwrap(), None);
    assert_eq!(state.current_frame, 0);
    assert_eq!(state.elapsed, 500 * MS);
}

#[test]
fn manual_and_paused_instances_only_revalidate() {
    let table = sheet(&[10, 10, 10], &[("tail", AnimationDirection::Forward, 1, 2)]);
    let mut anim = Animation::tag("tail");
    anim.start();
    let mut state = AnimationState::default();
    let event = update_aseprite_animation(&mut anim, &mut state, &table, true, 50 * MS, 1);
    assert_eq!(event.unwrap(), None);
    assert_eq!(state.current_frame, 1);
    assert_eq!(state.elapsed, 0);
    anim.pause();
    state.current_frame = 0;
    let event = update_aseprite_animation(&mut anim, &mut state, &table, false, 50 * MS, 1);
    assert_eq!(event.unwrap(), None);
    assert_eq!(state.current_frame, 1);
    assert_eq!(state.elapsed, 0);
}

#[test]
fn manual_next_frame_uses_the_tag_direction() {
    let table = sheet(&[10, 10, 10, 10], &[("back", AnimationDirection::Reverse, 1, 3)]);
    let mut anim = Animation::tag("back");
    let mut state = at(3, 1);
    let t = next_frame(&mut anim, &mut state, &table).unwrap();
    assert_eq!(t, FrameTransition::FrameChanged);
    assert_eq!(state.current_frame, 2);
    let mut anim = anim.with_direction(AnimationDirection::Forward);
    let t = next_frame(&mut anim, &mut state, &table).unwrap();
    assert_eq!(t, FrameTransition::FrameChanged);
    assert_eq!(state.current_frame, 3);
}

#[test]
fn resolution_of_tags_and_of_the_whole_sheet() {
    let table = sheet(
        &[10, 10, 10, 10, 10],
        &[
            ("walk", AnimationDirection::PingPong, 0, 1),
            ("walk", AnimationDirection::Reverse, 2, 4),
        ],
    );
    let anim = Animation::tag("walk");
    let (range, direction) = resolve_range(&anim, &table).unwrap();
    assert_eq!(range, FrameRange { start: 2, end: 4 });
    assert_eq!(direction, AnimationDirection::Reverse);
    let anim = Animation::default();
    let (range, direction) = resolve_range(&anim, &table).unwrap();
    assert_eq!(range, FrameRange { start: 0, end: 4 });
    assert_eq!(direction, AnimationDirection::Forward);
    let anim = Animation::default().with_direction(AnimationDirection::PingPong);
    assert_eq!(
        resolve_range(&anim, &table).unwrap().1,
        AnimationDirection::PingPong
    );
    let empty = sheet(&[], &[]);
    let (range, _) = resolve_range(&Animation::default(), &empty).unwrap();
    assert_eq!(range, FrameRange { start: 0, end: 0 });
}

#[test]
fn ping_pong_reverse_sweeps_backward_first() {
    let range = FrameRange { start: 0, end: 3 };
    let mut state = initial_state(range, AnimationDirection::PingPongReverse);
    assert_eq!(state.current_frame, 3);
    assert_eq!(state.relative_frame, 3);
    assert_eq!(state.current_direction, PlayDirection::Backward);
    let mut anim = Animation::default();
    let mut frames = Vec::new();
    for _ in 0..5 {
        advance(&mut anim, &mut state, range, AnimationDirection::PingPongReverse);
        frames.push(state.current_frame);
    }
    assert_eq!(frames, vec![2, 1, 0, 1, 2]);
    let start = initial_state(range, AnimationDirection::PingPong);
    assert_eq!(start.current_frame, 0);
    assert_eq!(start.current_direction, PlayDirection::Forward);
}

#[test]
fn ping_pong_finishing_lands_on_the_end() {
    let range = FrameRange { start: 0, end: 2 };
    let mut anim = Animation::default().with_repeat(AnimationRepeat::Count(0));
    let mut state = at(1, 0);
    let t = advance(&mut anim, &mut state, range, AnimationDirection::PingPong);
    assert_eq!(t, FrameTransition::Finished);
    assert_eq!(state.current_frame, 2);
    assert_eq!(state.current_direction, PlayDirection::Backward);
}

#[test]
fn advancing_several_times_reports_each_transition() {
    let range = FrameRange { start: 2, end: 5 };
    let mut anim = Animation::default();
    let mut state = at(2, 2);
    let ts = advance_by(&mut anim, &mut state, range, AnimationDirection::Forward, 4);
    assert_eq!(
        ts,
        vec![
            FrameTransition::FrameChanged,
            FrameTransition::FrameChanged,
            FrameTransition::FrameChanged,
            FrameTransition::LoopCycleFinished,
        ]
    );
    assert_eq!(state.current_frame, 2);
    let mut anim = Animation::default().with_repeat(AnimationRepeat::Count(1));
    let ts = advance_by(&mut anim, &mut state, range, AnimationDirection::Forward, 8);
    assert_eq!(ts[7], FrameTransition::Finished);
    assert!(ts[..7].iter().all(|t| *t == FrameTransition::FrameChanged));
    assert!(advance_by(&mut anim, &mut state, range, AnimationDirection::Forward, 0).is_empty());
}

#[test]
fn a_reset_reverse_ping_pong_lands_on_the_start() {
    let table = sheet(&[10, 10, 10, 10, 10], &[("swing", AnimationDirection::PingPongReverse, 2, 4)]);
    let mut anim = Animation::tag("swing");
    let mut state = AnimationState {
        current_frame: 0,
        relative_frame: 3,
        elapsed: 7,
        current_direction: PlayDirection::Forward,
    };
    let event = update_aseprite_animation(&mut anim, &mut state, &table, false, 0, 1);
    assert_eq!(event.unwrap(), None);
    assert_eq!(state.current_frame, 2);
    assert_eq!(state.relative_frame, 0);
    assert_eq!(state.elapsed, 7);
    assert_eq!(state.current_direction, PlayDirection::Backward);
}
