use crate::animation::{
    Animation, AnimationDirection, AnimationRepeat, AnimationState, AnimationView, PlayDirection,
    Speed,
};
use crate::error::UnknownTagError;
use crate::loader::{find_tag, Aseprite, FrameRange, TagMeta};
use vstd::prelude::*;

verus! {

/// What one step of the cursor did.
#[derive(Clone, Copy, Debug, PartialEq, Eq, Structural)]
pub enum FrameTransition {
    FrameChanged,
    LoopCycleFinished,
    Finished,
}

/// The cursor placed on `frame`, with its offset from the start of `range`.
pub open spec fn placed(state: AnimationState, range: FrameRange, frame: u16) -> AnimationState {
    AnimationState { current_frame: frame, relative_frame: (frame - range.start) as u16, ..state }
}

/// The frame below the end of a range, or its start when it holds one frame.
pub open spec fn below_end(range: FrameRange) -> u16 {
    if range.start < range.end {
        (range.end - 1) as u16
    } else {
        range.start
    }
}

/// The end of a cycle under the repeat policy: `restarted` is where the next cycle
/// begins. With no cycle left the cursor is left as `state`, and the first queued
/// animation, if any, takes over.
pub open spec fn cycle_end(
    anim: AnimationView,
    state: AnimationState,
    restarted: AnimationState,
) -> (AnimationView, AnimationState, FrameTransition) {
    match anim.repeat {
        AnimationRepeat::Loop => (anim, restarted, FrameTransition::LoopCycleFinished),
        AnimationRepeat::Count(n) => if n > 0 {
            (
                AnimationView { repeat: AnimationRepeat::Count((n - 1) as u32), ..anim },
                restarted,
                FrameTransition::FrameChanged,
            )
        } else if anim.queue.len() == 0 {
            (anim, state, FrameTransition::Finished)
        } else {
            (
                AnimationView {
                    tag: Some(anim.queue[0].0),
                    repeat: anim.queue[0].1,
                    queue: anim.queue.drop_first(),
                    ..anim
                },
                state,
                FrameTransition::FrameChanged,
            )
        },
    }
}

/// The cursor one frame later, its offset capped at `u16::MAX`.
pub open spec fn stepped_up(state: AnimationState) -> AnimationState {
    AnimationState {
        current_frame: (state.current_frame + 1) as u16,
        relative_frame: if state.relative_frame < u16::MAX {
            (state.relative_frame + 1) as u16
        } else {
            u16::MAX
        },
        ..state
    }
}

/// The cursor one frame earlier, its offset floored at zero.
pub open spec fn stepped_down(state: AnimationState) -> AnimationState {
    AnimationState {
        current_frame: (state.current_frame - 1) as u16,
        relative_frame: if state.relative_frame > 0 {
            (state.relative_frame - 1) as u16
        } else {
            0
        },
        ..state
    }
}

/// One advance of the cursor over `range` in `direction`.
///
/// Forward wraps from the end to the start, reverse from the start to the frame below
/// the end. Ping-pong turns round at either end: the advance that reaches the end
/// lands on it and turns the sweep backward, the one that reaches the start lands on
/// it and turns the sweep forward, so that over `[0, 3]` the frames run 1, 2, 3, 2,
/// 1, 0, 1 with the turns on 3 and on 0. Every wrap or turn ends a cycle.
pub open spec fn step(
    anim: AnimationView,
    state: AnimationState,
    range: FrameRange,
    direction: AnimationDirection,
) -> (AnimationView, AnimationState, FrameTransition) {
    let up = state.current_frame >= range.end;
    let down = state.current_frame <= range.start;
    match direction {
        AnimationDirection::Forward => if up {
            cycle_end(anim, state, placed(state, range, range.start))
        } else {
            (anim, stepped_up(state), FrameTransition::FrameChanged)
        },
        AnimationDirection::Reverse => if down {
            cycle_end(anim, state, placed(state, range, below_end(range)))
        } else {
            (anim, stepped_down(state), FrameTransition::FrameChanged)
        },
        _ => match state.current_direction {
            PlayDirection::Forward => if state.current_frame + 1 >= range.end {
                let turned = AnimationState { current_direction: PlayDirection::Backward, ..state };
                let landed = placed(turned, range, range.end);
                cycle_end(anim, landed, landed)
            } else {
                (anim, stepped_up(state), FrameTransition::FrameChanged)
            },
            PlayDirection::Backward => if state.current_frame <= range.start + 1 {
                let turned = AnimationState { current_direction: PlayDirection::Forward, ..state };
                let landed = placed(turned, range, range.start);
                cycle_end(anim, landed, landed)
            } else {
                (anim, stepped_down(state), FrameTransition::FrameChanged)
            },
        },
    }
}

/// Ends a cycle under the repeat policy; see `cycle_end`.
fn finish_cycle(anim: &mut Animation, state: &mut AnimationState, restarted: AnimationState) -> (t:
    FrameTransition)
    ensures
        (final(anim)@, *final(state), t) == cycle_end(old(anim)@, *old(state), restarted),
{
    match anim.repeat {
        AnimationRepeat::Loop => {
            *state = restarted;
            FrameTransition::LoopCycleFinished
        },
        AnimationRepeat::Count(n) => {
            if n > 0 {
                *state = restarted;
                anim.repeat = AnimationRepeat::Count(n - 1);
                FrameTransition::FrameChanged
            } else if anim.queue.len() == 0 {
                FrameTransition::Finished
            } else {
                anim.next();
                FrameTransition::FrameChanged
            }
        },
    }
}

/// Places the cursor on `frame` of `range`.
fn place(state: &mut AnimationState, range: FrameRange, frame: u16)
    requires
        range.start <= frame,
    ensures
        *final(state) == placed(*old(state), range, frame),
{
    state.current_frame = frame;
    state.relative_frame = frame - range.start;
}

fn step_up(state: &mut AnimationState)
    requires
        old(state).current_frame < u16::MAX,
    ensures
        *final(state) == stepped_up(*old(state)),
{
    state.current_frame = state.current_frame + 1;
    state.relative_frame = state.relative_frame.saturating_add(1);
}

fn step_down(state: &mut AnimationState)
    requires
        old(state).current_frame > 0,
    ensures
        *final(state) == stepped_down(*old(state)),
{
    state.current_frame = state.current_frame - 1;
    state.relative_frame = state.relative_frame.saturating_sub(1);
}

/// Advances the cursor by one frame over `range` in `direction`; the repeat policy
/// and the queue decide what happens at the end of a cycle.
pub fn advance(
    anim: &mut Animation,
    state: &mut AnimationState,
    range: FrameRange,
    direction: AnimationDirection,
) -> (t: FrameTransition)
    requires
        range.wf(),
    ensures
        (final(anim)@, *final(state), t) == step(old(anim)@, *old(state), range, direction),
{
    let up = state.current_frame >= range.end;
    let down = state.current_frame <= range.start;
    let below_end = if range.start < range.end {
        range.end - 1
    } else {
        range.start
    };
    match direction {
        AnimationDirection::Forward => {
            if up {
                let mut restarted = *state;
                place(&mut restarted, range, range.start);
                finish_cycle(anim, state, restarted)
            } else {
                step_up(state);
                FrameTransition::FrameChanged
            }
        },
        AnimationDirection::Reverse => {
            if down {
                let mut restarted = *state;
                place(&mut restarted, range, below_end);
                finish_cycle(anim, state, restarted)
            } else {
                step_down(state);
                FrameTransition::FrameChanged
            }
        },
        _ => {
            match state.current_direction {
                PlayDirection::Forward => {
                    if state.current_frame as u32 + 1 >= range.end as u32 {
                        state.current_direction = PlayDirection::Backward;
                        place(state, range, range.end);
                        let landed = *state;
                        finish_cycle(anim, state, landed)
                    } else {
                        step_up(state);
                        FrameTransition::FrameChanged
                    }
                },
                PlayDirection::Backward => {
                    if state.current_frame as u32 <= range.start as u32 + 1 {
                        state.current_direction = PlayDirection::Forward;
                        place(state, range, range.start);
                        let landed = *state;
                        finish_cycle(anim, state, landed)
                    } else {
                        step_down(state);
                        FrameTransition::FrameChanged
                    }
                },
            }
        },
    }
}

/// `k` successive advances: the animation, the cursor, and the transitions in order.
/// `advance_by` makes exactly these calls of `advance`.
pub open spec fn run(
    anim: AnimationView,
    state: AnimationState,
    range: FrameRange,
    direction: AnimationDirection,
    k: nat,
) -> (AnimationView, AnimationState, Seq<FrameTransition>)
    decreases k,
{
    if k == 0 {
        (anim, state, Seq::empty())
    } else {
        let (a, s, ts) = run(anim, state, range, direction, (k - 1) as nat);
        let (a2, s2, t) = step(a, s, range, direction);
        (a2, s2, ts.push(t))
    }
}

/// Advances the cursor `k` times over `range` in `direction`, and returns the
/// transitions in order; see `run`.
pub fn advance_by(
    anim: &mut Animation,
    state: &mut AnimationState,
    range: FrameRange,
    direction: AnimationDirection,
    k: usize,
) -> (ts: Vec<FrameTransition>)
    requires
        range.wf(),
    ensures
        (final(anim)@, *final(state), ts@) == run(old(anim)@, *old(state), range, direction, k as nat),
{
    let mut ts: Vec<FrameTransition> = Vec::new();
    let mut i: usize = 0;
    while i < k
        invariant
            i <= k,
            range.wf(),
            (anim@, *state, ts@) == run(old(anim)@, *old(state), range, direction, i as nat),
        decreases k - i,
    {
        let t = advance(anim, state, range, direction);
        ts.push(t);
        i = i + 1;
    }
    ts
}

/// The range and direction that an animation plays on a sheet, or the name of its
/// tag when the sheet lacks it. Without a tag every frame is played forward; a
/// direction set on the animation overrides the one of the tag.
pub open spec fn resolution(
    tag: Option<Seq<char>>,
    direction: Option<AnimationDirection>,
    sheet: &Aseprite,
) -> Result<(FrameRange, AnimationDirection), Seq<char>> {
    match tag {
        Some(name) => match find_tag(sheet.tags_view(), name) {
            Some(meta) => Ok(
                (
                    meta.range,
                    match direction {
                        Some(d) => d,
                        None => meta.direction,
                    },
                ),
            ),
            None => Err(name),
        },
        None => Ok(
            (
                sheet.full_range(),
                match direction {
                    Some(d) => d,
                    None => AnimationDirection::Forward,
                },
            ),
        ),
    }
}

proof fn lemma_found_tag_is_ordered(tags: Seq<(Seq<char>, TagMeta)>, name: Seq<char>)
    requires
        forall|i: int| 0 <= i < tags.len() ==> (#[trigger] tags[i]).1.range.wf(),
    ensures
        find_tag(tags, name) matches Some(meta) ==> meta.range.wf(),
    decreases tags.len(),
{
    if tags.len() > 0 && tags.last().0 != name {
        let rest = tags.drop_last();
        assert forall|i: int| 0 <= i < rest.len() implies (#[trigger] rest[i]).1.range.wf() by {
            assert(rest[i] == tags[i]);
        }
        lemma_found_tag_is_ordered(rest, name);
    }
}

/// A range that resolves on a well-formed sheet is ordered.
pub proof fn lemma_resolved_range_is_ordered(
    tag: Option<Seq<char>>,
    direction: Option<AnimationDirection>,
    sheet: &Aseprite,
)
    requires
        sheet.wf(),
    ensures
        resolution(tag, direction, sheet) matches Ok(v) ==> v.0.wf(),
{
    if let Some(name) = tag {
        let tv = sheet.tags_view();
        assert forall|i: int| 0 <= i < tv.len() implies (#[trigger] tv[i]).1.range.wf() by {
            assert(tv[i].1 == sheet.tags@[i].1);
        }
        lemma_found_tag_is_ordered(tv, name);
    }
}

/// Resolves the range and direction that `anim` plays on `sheet`.
pub fn resolve_range(anim: &Animation, sheet: &Aseprite) -> (r: Result<
    (FrameRange, AnimationDirection),
    UnknownTagError,
>)
    requires
        sheet.wf(),
    ensures
        r matches Ok(v) ==> resolution(anim@.tag, anim.direction, sheet) == Ok::<
            (FrameRange, AnimationDirection),
            Seq<char>,
        >(v) && v.0.wf(),
        r matches Err(e) ==> resolution(anim@.tag, anim.direction, sheet) == Err::<
            (FrameRange, AnimationDirection),
            Seq<char>,
        >(e.tag@),
{
    match &anim.tag {
        Some(name) => {
            proof {
                lemma_resolved_range_is_ordered(anim@.tag, anim.direction, sheet);
            }
            match sheet.resolve_tag(name.as_str()) {
                Some(meta) => {
                    let direction = match anim.direction {
                        Some(d) => d,
                        None => meta.direction,
                    };
                    Ok((meta.range, direction))
                },
                None => Err(UnknownTagError { tag: name.clone() }),
            }
        },
        None => {
            let count = sheet.frame_count();
            let end = if count == 0 {
                0
            } else {
                count - 1
            };
            let direction = match anim.direction {
                Some(d) => d,
                None => AnimationDirection::Forward,
            };
            Ok((FrameRange { start: 0, end }, direction))
        },
    }
}

/// The sweep that a direction starts with: backward for reverse ping-pong only.
pub open spec fn initial_sweep(direction: AnimationDirection) -> PlayDirection {
    match direction {
        AnimationDirection::PingPongReverse => PlayDirection::Backward,
        _ => PlayDirection::Forward,
    }
}

/// The cursor reset to the start of `range`, with offset zero, sweeping as
/// `direction` starts.
pub open spec fn restarted(
    state: AnimationState,
    range: FrameRange,
    direction: AnimationDirection,
) -> AnimationState {
    AnimationState { current_direction: initial_sweep(direction), ..placed(state, range, range.start) }
}

/// Resets the cursor to the start of `range`; see `restarted`.
fn restart(state: &mut AnimationState, range: FrameRange, direction: AnimationDirection)
    ensures
        *final(state) == restarted(*old(state), range, direction),
{
    place(state, range, range.start);
    state.current_direction = match direction {
        AnimationDirection::PingPongReverse => PlayDirection::Backward,
        _ => PlayDirection::Forward,
    };
}

/// The frame that a fresh animation starts on: the end for reverse ping-pong, which
/// sweeps backward first, and the start otherwise.
pub open spec fn initial_frame(range: FrameRange, direction: AnimationDirection) -> u16 {
    match direction {
        AnimationDirection::PingPongReverse => range.end,
        _ => range.start,
    }
}

/// The cursor of a fresh animation that starts playing `range` in `direction`: on
/// its first frame, with no time elapsed, sweeping as the direction starts. Unlike a
/// reset by re-validation, which always lands on the start, a fresh reverse
/// ping-pong begins its backward sweep from the end.
pub fn initial_state(range: FrameRange, direction: AnimationDirection) -> (r: AnimationState)
    requires
        range.wf(),
    ensures
        r.current_frame == initial_frame(range, direction),
        r.relative_frame == initial_frame(range, direction) - range.start,
        r.elapsed == 0,
        r.current_direction == initial_sweep(direction),
{
    let frame = match direction {
        AnimationDirection::PingPongReverse => range.end,
        _ => range.start,
    };
    AnimationState {
        relative_frame: frame - range.start,
        current_frame: frame,
        elapsed: 0,
        current_direction: match direction {
            AnimationDirection::PingPongReverse => PlayDirection::Backward,
            _ => PlayDirection::Forward,
        },
    }
}

/// The animation and cursor once the cursor is back inside `range`.
///
/// A cursor inside the range is left alone. Otherwise it restarts on the start of
/// the range with offset zero (see `restarted`) and the relative groups are cleared; with a relative frame hold it
/// keeps its offset, taken modulo the length of the range, while the new relative
/// group equals the current one, and when the group changed it restarts, its
/// elapsed time cleared, and the new group becomes the current one.
pub open spec fn revalidated(
    anim: AnimationView,
    state: AnimationState,
    range: FrameRange,
    direction: AnimationDirection,
) -> (AnimationView, AnimationState) {
    if range.holds(state.current_frame) {
        (anim, state)
    } else if !anim.hold_relative_frame {
        (
            AnimationView { relative_group: 0, new_relative_group: 0, ..anim },
            restarted(state, range, direction),
        )
    } else if anim.new_relative_group != anim.relative_group {
        (
            AnimationView { relative_group: anim.new_relative_group, ..anim },
            AnimationState { elapsed: 0, ..restarted(state, range, direction) },
        )
    } else {
        (anim, placed(state, range, (range.start + (state.relative_frame as int) % range.count()) as u16))
    }
}

/// Brings the cursor back inside `range`; see `revalidated`.
pub fn revalidate(
    anim: &mut Animation,
    state: &mut AnimationState,
    range: FrameRange,
    direction: AnimationDirection,
)
    requires
        range.wf(),
    ensures
        (final(anim)@, *final(state)) == revalidated(old(anim)@, *old(state), range, direction),
        range.holds(final(state).current_frame),
        !range.holds(old(state).current_frame) && (!old(anim).hold_relative_frame
            || old(anim).new_relative_group != old(anim).relative_group) ==> (final(state).current_frame
            == range.start && final(state).relative_frame == 0),
{
    if range.contains(state.current_frame) {
        return ;
    }
    if !anim.hold_relative_frame {
        restart(state, range, direction);
        anim.relative_group = 0;
        anim.new_relative_group = 0;
    } else if anim.new_relative_group != anim.relative_group {
        anim.relative_group = anim.new_relative_group;
        restart(state, range, direction);
        state.elapsed = 0;
    } else {
        let count: u32 = range.end as u32 - range.start as u32 + 1;
        let offset = (state.relative_frame as u32 % count) as u16;
        place(state, range, range.start + offset);
    }
}

/// What one tick of an animation instance reports, with the instance's handle.
#[derive(Clone, Copy, Debug, PartialEq, Eq, Structural)]
pub enum AnimationEvents {
    FrameChanged(u64),
    LoopCycleFinished(u64),
    Finished(u64),
}

pub open spec fn event_of(t: FrameTransition, id: u64) -> AnimationEvents {
    match t {
        FrameTransition::FrameChanged => AnimationEvents::FrameChanged(id),
        FrameTransition::LoopCycleFinished => AnimationEvents::LoopCycleFinished(id),
        FrameTransition::Finished => AnimationEvents::Finished(id),
    }
}

/// Real time `delta` in animation time: scaled by the speed, rounded down.
pub open spec fn scaled_delta(delta: u64, speed: Speed) -> int {
    delta as int * speed.numer as int / speed.denom as int
}

/// `a + b`, capped at `u64::MAX`.
pub open spec fn add_capped(a: u64, b: int) -> u64 {
    if a + b > u64::MAX {
        u64::MAX
    } else {
        (a + b) as u64
    }
}

/// One tick of an animation instance that `delta` nanoseconds of real time have
/// passed by: the animation, the cursor, and the event or the missing tag.
///
/// The cursor is first brought back inside the resolved range. A manual or paused
/// instance stops there. Otherwise the scaled time is added to the elapsed time;
/// once it exceeds the duration of the current frame, the cursor advances by one
/// frame, that duration is taken off the elapsed time, and the step is reported. At
/// most one frame is advanced per tick: time beyond one frame carries over to the
/// next tick. A finished animation stops playing. A frame without a duration (a
/// sheet that shrank) advances nothing.
pub open spec fn tick(
    anim: AnimationView,
    state: AnimationState,
    sheet: &Aseprite,
    is_manual: bool,
    delta: u64,
    id: u64,
) -> (AnimationView, AnimationState, Result<Option<AnimationEvents>, Seq<char>>) {
    match resolution(anim.tag, anim.direction, sheet) {
        Err(name) => (anim, state, Err(name)),
        Ok((range, direction)) => {
            let (a1, s1) = revalidated(anim, state, range, direction);
            if is_manual || !a1.playing {
                (a1, s1, Ok(None))
            } else {
                let (a2, s2, e) = timed(a1, s1, sheet, range, direction, delta, id);
                (a2, s2, Ok(e))
            }
        },
    }
}

/// The timed part of a tick of a playing instance whose cursor is inside `range`.
pub open spec fn timed(
    anim: AnimationView,
    state: AnimationState,
    sheet: &Aseprite,
    range: FrameRange,
    direction: AnimationDirection,
    delta: u64,
    id: u64,
) -> (AnimationView, AnimationState, Option<AnimationEvents>) {
    let s = AnimationState {
        elapsed: add_capped(state.elapsed, scaled_delta(delta, anim.speed)),
        ..state
    };
    if s.current_frame >= sheet.frame_durations@.len() {
        (anim, s, None)
    } else {
        let d = sheet.frame_durations@[s.current_frame as int];
        if s.elapsed <= d {
            (anim, s, None)
        } else {
            let (a, s3, t) = step(anim, s, range, direction);
            (
                if t == FrameTransition::Finished {
                    AnimationView { playing: false, ..a }
                } else {
                    a
                },
                AnimationState { elapsed: (s.elapsed - d) as u64, ..s3 },
                Some(event_of(t, id)),
            )
        }
    }
}

/// The outcome as plain values: the missing tag's name in place of the error.
pub open spec fn outcome_view<T>(r: Result<T, UnknownTagError>) -> Result<T, Seq<char>> {
    match r {
        Ok(v) => Ok(v),
        Err(e) => Err(e.tag@),
    }
}

/// Runs one tick of an animation instance; see `tick`.
pub fn update_aseprite_animation(
    anim: &mut Animation,
    state: &mut AnimationState,
    sheet: &Aseprite,
    is_manual: bool,
    delta: u64,
    id: u64,
) -> (r: Result<Option<AnimationEvents>, UnknownTagError>)
    requires
        old(anim).wf(),
        sheet.wf(),
    ensures
        (final(anim)@, *final(state), outcome_view(r)) == tick(
            old(anim)@,
            *old(state),
            sheet,
            is_manual,
            delta,
            id,
        ),
        final(anim).wf(),
{
    let (range, direction) = match resolve_range(anim, sheet) {
        Ok(v) => v,
        Err(e) => {
            return Err(e);
        },
    };
    revalidate(anim, state, range, direction);
    if is_manual || !anim.playing {
        return Ok(None);
    }
    Ok(play_tick(anim, state, sheet, range, direction, delta, id))
}

/// Adds `delta` of real time, scaled by `speed`, to the elapsed time of the cursor.
fn add_elapsed(state: &mut AnimationState, delta: u64, speed: Speed)
    requires
        speed.wf(),
    ensures
        *final(state) == (AnimationState {
            elapsed: add_capped(old(state).elapsed, scaled_delta(delta, speed)),
            ..*old(state)
        }),
{
    proof {
        assert(delta as int * speed.numer as int <= u64::MAX as int * u32::MAX as int)
            by (nonlinear_arith)
            requires
                delta <= u64::MAX,
                speed.numer <= u32::MAX,
        ;
    }
    let scaled: u128 = delta as u128 * speed.numer as u128 / speed.denom as u128;
    let room: u128 = (u64::MAX - state.elapsed) as u128;
    state.elapsed = if scaled > room {
        u64::MAX
    } else {
        state.elapsed + scaled as u64
    };
}

/// The timed part of a tick; see `timed`.
fn play_tick(
    anim: &mut Animation,
    state: &mut AnimationState,
    sheet: &Aseprite,
    range: FrameRange,
    direction: AnimationDirection,
    delta: u64,
    id: u64,
) -> (r: Option<AnimationEvents>)
    requires
        old(anim).wf(),
        range.wf(),
    ensures
        (final(anim)@, *final(state), r) == timed(
            old(anim)@,
            *old(state),
            sheet,
            range,
            direction,
            delta,
            id,
        ),
        final(anim).wf(),
{
    add_elapsed(state, delta, anim.speed);
    let duration = match sheet.frame_duration(state.current_frame) {
        Some(d) => d,
        None => {
            return None;
        },
    };
    if state.elapsed <= duration {
        return None;
    }
    let elapsed = state.elapsed;
    let t = advance(anim, state, range, direction);
    state.elapsed = elapsed - duration;
    if t == FrameTransition::Finished {
        anim.playing = false;
    }
    let event = match t {
        FrameTransition::FrameChanged => AnimationEvents::FrameChanged(id),
        FrameTransition::LoopCycleFinished => AnimationEvents::LoopCycleFinished(id),
        FrameTransition::Finished => AnimationEvents::Finished(id),
    };
    Some(event)
}

/// Resolves the animation on the sheet and advances its cursor by one frame, as a
/// manual trigger does; see `step`.
pub fn next_frame(anim: &mut Animation, state: &mut AnimationState, sheet: &Aseprite) -> (r: Result<
    FrameTransition,
    UnknownTagError,
>)
    requires
        sheet.wf(),
    ensures
        match resolution(old(anim)@.tag, old(anim).direction, sheet) {
            Err(name) => outcome_view(r) == Err::<FrameTransition, Seq<char>>(name) && final(anim)@
                == old(anim)@ && *final(state) == *old(state),
            Ok((range, direction)) => {
                let (a, s, t) = step(old(anim)@, *old(state), range, direction);
                r == Ok::<FrameTransition, UnknownTagError>(t) && final(anim)@ == a && *final(state)
                    == s
            },
        },
{
    let (range, direction) = match resolve_range(anim, sheet) {
        Ok(v) => v,
        Err(e) => {
            return Err(e);
        },
    };
    Ok(advance(anim, state, range, direction))
}

} // verus!
