use crate::animation::{
    AnimationDirection, AnimationRepeat, AnimationState, AnimationView, PlayDirection,
};
use crate::loader::{Aseprite, FrameRange};
use crate::playback::{resolution, revalidated, run, step, tick, FrameTransition};
use vstd::prelude::*;

verus! {

/// Running `j` advances and then `k` more is running `j + k` advances.
pub proof fn lemma_run_split(
    anim: AnimationView,
    state: AnimationState,
    range: FrameRange,
    direction: AnimationDirection,
    j: nat,
    k: nat,
)
    ensures
        ({
            let (a1, s1, ts1) = run(anim, state, range, direction, j);
            let (a2, s2, ts2) = run(a1, s1, range, direction, k);
            run(anim, state, range, direction, j + k) == (a2, s2, ts1 + ts2)
        }),
    decreases k,
{
    let (a1, s1, ts1) = run(anim, state, range, direction, j);
    if k == 0 {
        assert(ts1 + Seq::<FrameTransition>::empty() =~= ts1);
    } else {
        lemma_run_split(anim, state, range, direction, j, (k - 1) as nat);
        let (a2, s2, ts2) = run(a1, s1, range, direction, (k - 1) as nat);
        let (a3, s3, t) = step(a2, s2, range, direction);
        assert((ts1 + ts2).push(t) =~= ts1 + ts2.push(t));
        assert((j + k - 1) as nat == (j + (k - 1) as nat));
    }
}

/// Forward from the start, the first `k` advances that stay inside the range move
/// one frame each and change nothing but the cursor.
proof fn lemma_forward_climb(
    anim: AnimationView,
    state: AnimationState,
    range: FrameRange,
    k: nat,
)
    requires
        range.wf(),
        state.current_frame == range.start,
        k < range.count(),
    ensures
        ({
            let (a, s, ts) = run(anim, state, range, AnimationDirection::Forward, k);
            &&& a == anim
            &&& s.current_frame == range.start + k
            &&& ts.len() == k
            &&& forall|i: int| 0 <= i < k ==> ts[i] == FrameTransition::FrameChanged
        }),
    decreases k,
{
    if k > 0 {
        lemma_forward_climb(anim, state, range, (k - 1) as nat);
        let (a, s, ts) = run(anim, state, range, AnimationDirection::Forward, (k - 1) as nat);
        let (a2, s2, t) = step(a, s, range, AnimationDirection::Forward);
        assert(t == FrameTransition::FrameChanged);
        assert forall|i: int| 0 <= i < k implies #[trigger] ts.push(t)[i]
            == FrameTransition::FrameChanged by {
            if i < k - 1 {
                assert(ts.push(t)[i] == ts[i]);
            }
        }
    }
}

/// A full forward cycle from the start: `range.count() - 1` advances to the end and
/// one more that ends the cycle under the repeat policy.
proof fn lemma_forward_cycle(anim: AnimationView, state: AnimationState, range: FrameRange)
    requires
        range.wf(),
        state.current_frame == range.start,
    ensures
        ({
            let (a, s, ts) = run(
                anim,
                state,
                range,
                AnimationDirection::Forward,
                range.count() as nat,
            );
            let (a0, s0, ts0) = run(
                anim,
                state,
                range,
                AnimationDirection::Forward,
                (range.count() - 1) as nat,
            );
            &&& a0 == anim
            &&& s0.current_frame == range.end
            &&& ts.len() == range.count()
            &&& ts == ts0.push(ts.last())
            &&& forall|i: int| 0 <= i < ts.len() - 1 ==> ts[i] == FrameTransition::FrameChanged
            &&& (a, s, ts.last()) == step(a0, s0, range, AnimationDirection::Forward)
        }),
{
    let n = (range.count() - 1) as nat;
    lemma_forward_climb(anim, state, range, n);
    let (a0, s0, ts0) = run(anim, state, range, AnimationDirection::Forward, n);
    let (a, s, t) = step(a0, s0, range, AnimationDirection::Forward);
    assert(run(anim, state, range, AnimationDirection::Forward, n + 1) == (a, s, ts0.push(t)));
    assert forall|i: int| 0 <= i < n implies #[trigger] ts0.push(t)[i]
        == FrameTransition::FrameChanged by {
        assert(ts0.push(t)[i] == ts0[i]);
    }
}

/// Looping forward over a range `[s, e]` from its start, `e - s + 1` advances bring
/// the cursor back to the start: the last one ends a loop cycle and every other one
/// changes the frame.
pub proof fn lemma_forward_loop_returns_to_start(
    anim: AnimationView,
    state: AnimationState,
    range: FrameRange,
)
    requires
        range.wf(),
        anim.repeat == AnimationRepeat::Loop,
        state.current_frame == range.start,
    ensures
        ({
            let (a, s, ts) = run(
                anim,
                state,
                range,
                AnimationDirection::Forward,
                range.count() as nat,
            );
            &&& a == anim
            &&& s.current_frame == range.start
            &&& s.relative_frame == 0
            &&& ts.len() == range.count()
            &&& ts.last() == FrameTransition::LoopCycleFinished
            &&& forall|i: int| 0 <= i < ts.len() - 1 ==> ts[i] == FrameTransition::FrameChanged
        }),
{
    lemma_forward_cycle(anim, state, range);
}

/// With `Count(m)` and `m >= c`, `c` forward cycles from the start end back at the
/// start with `Count(m - c)`, every advance changing the frame.
proof fn lemma_forward_counted_cycles(
    anim: AnimationView,
    state: AnimationState,
    range: FrameRange,
    m: u32,
    c: nat,
)
    requires
        range.wf(),
        anim.repeat == AnimationRepeat::Count(m),
        state.current_frame == range.start,
        c <= m,
    ensures
        ({
            let (a, s, ts) = run(
                anim,
                state,
                range,
                AnimationDirection::Forward,
                c * range.count() as nat,
            );
            &&& a == AnimationView { repeat: AnimationRepeat::Count((m - c) as u32), ..anim }
            &&& s.current_frame == range.start
            &&& ts.len() == c * range.count()
            &&& forall|i: int| 0 <= i < ts.len() ==> ts[i] == FrameTransition::FrameChanged
        }),
    decreases c,
{
    let len = range.count() as nat;
    if c == 0 {
        assert(anim == AnimationView { repeat: AnimationRepeat::Count(m), ..anim });
        assert(c * len == 0) by (nonlinear_arith)
            requires
                c == 0,
        ;
    } else {
        lemma_forward_counted_cycles(anim, state, range, m, (c - 1) as nat);
        let j = ((c - 1) * len) as nat;
        assert(c * len == j + len) by (nonlinear_arith)
            requires
                j == (c - 1) * len,
                c >= 1,
        ;
        let (a1, s1, ts1) = run(anim, state, range, AnimationDirection::Forward, j);
        lemma_run_split(anim, state, range, AnimationDirection::Forward, j, len);
        lemma_forward_cycle(a1, s1, range);
        let (a2, s2, ts2) = run(a1, s1, range, AnimationDirection::Forward, len);
        assert(a1.repeat == AnimationRepeat::Count((m - (c - 1)) as u32));
        assert(a2 == AnimationView { repeat: AnimationRepeat::Count((m - c) as u32), ..anim });
        assert(ts2.last() == FrameTransition::FrameChanged);
        assert forall|i: int| 0 <= i < ts1.len() + ts2.len() implies #[trigger] (ts1 + ts2)[i]
            == FrameTransition::FrameChanged by {
            if i >= ts1.len() {
                assert((ts1 + ts2)[i] == ts2[i - ts1.len()]);
            }
        }
    }
}

/// With `Count(n)`, forward from the start, the `(n + 1)`-th end of a cycle, after
/// `(n + 1) * (e - s + 1)` advances, finishes the animation when nothing is queued,
/// and otherwise hands over to the first queued animation without finishing. No
/// advance before it finishes.
pub proof fn lemma_forward_count_exhausts(
    anim: AnimationView,
    state: AnimationState,
    range: FrameRange,
    n: u32,
)
    requires
        range.wf(),
        anim.repeat == AnimationRepeat::Count(n),
        state.current_frame == range.start,
    ensures
        ({
            let (a, s, ts) = run(
                anim,
                state,
                range,
                AnimationDirection::Forward,
                ((n + 1) * range.count()) as nat,
            );
            &&& ts.len() == (n + 1) * range.count()
            &&& forall|i: int| 0 <= i < ts.len() - 1 ==> ts[i] == FrameTransition::FrameChanged
            &&& anim.queue.len() == 0 ==> ts.last() == FrameTransition::Finished && a
                == AnimationView { repeat: AnimationRepeat::Count(0), ..anim }
            &&& anim.queue.len() > 0 ==> ts.last() == FrameTransition::FrameChanged && a
                == AnimationView {
                tag: Some(anim.queue[0].0),
                repeat: anim.queue[0].1,
                queue: anim.queue.drop_first(),
                ..anim
            }
        }),
{
    let len = range.count() as nat;
    let j = (n * len) as nat;
    assert((n + 1) * len == j + len) by (nonlinear_arith)
        requires
            j == n * len,
    ;
    lemma_forward_counted_cycles(anim, state, range, n, n as nat);
    let (a1, s1, ts1) = run(anim, state, range, AnimationDirection::Forward, j);
    lemma_run_split(anim, state, range, AnimationDirection::Forward, j, len);
    lemma_forward_cycle(a1, s1, range);
    let (a2, s2, ts2) = run(a1, s1, range, AnimationDirection::Forward, len);
    assert(ts2.len() == len);
    assert forall|i: int| 0 <= i < ts1.len() + ts2.len() - 1 implies #[trigger] (ts1 + ts2)[i]
        == FrameTransition::FrameChanged by {
        if i >= ts1.len() {
            assert((ts1 + ts2)[i] == ts2[i - ts1.len()]);
        }
    }
    assert((ts1 + ts2).last() == ts2.last());
}

/// The cursor that re-validation leaves lies inside the range.
pub proof fn lemma_revalidated_inside(
    anim: AnimationView,
    state: AnimationState,
    range: FrameRange,
    direction: AnimationDirection,
)
    requires
        range.wf(),
    ensures
        range.holds(revalidated(anim, state, range, direction).1.current_frame),
{
    let r = (state.relative_frame as int) % range.count();
    assert(0 <= r < range.count());
}

/// Re-validating a second time, with the same sheet and nothing changed in between,
/// changes nothing.
pub proof fn lemma_revalidate_idempotent(
    anim: AnimationView,
    state: AnimationState,
    range: FrameRange,
    direction: AnimationDirection,
)
    requires
        range.wf(),
    ensures
        ({
            let (a1, s1) = revalidated(anim, state, range, direction);
            revalidated(a1, s1, range, direction) == (a1, s1)
        }),
{
    lemma_revalidated_inside(anim, state, range, direction);
}

/// An advance from a frame inside the range lands on a frame inside the range.
pub proof fn lemma_step_stays_inside(
    anim: AnimationView,
    state: AnimationState,
    range: FrameRange,
    direction: AnimationDirection,
)
    requires
        range.wf(),
        range.holds(state.current_frame),
    ensures
        range.holds(step(anim, state, range, direction).1.current_frame),
{
}

/// After a tick that resolved its range, the cursor lies inside that range.
pub proof fn lemma_tick_keeps_cursor_inside(
    anim: AnimationView,
    state: AnimationState,
    sheet: &Aseprite,
    is_manual: bool,
    delta: u64,
    id: u64,
)
    requires
        sheet.wf(),
        resolution(anim.tag, anim.direction, sheet) is Ok,
    ensures
        ({
            let (range, direction) = resolution(anim.tag, anim.direction, sheet)->Ok_0;
            range.holds(tick(anim, state, sheet, is_manual, delta, id).1.current_frame)
        }),
{
    let (range, direction) = resolution(anim.tag, anim.direction, sheet)->Ok_0;
    crate::playback::lemma_resolved_range_is_ordered(anim.tag, anim.direction, sheet);
    lemma_revalidated_inside(anim, state, range, direction);
    let (a1, s1) = revalidated(anim, state, range, direction);
    let s2 = AnimationState {
        elapsed: crate::playback::add_capped(
            s1.elapsed,
            crate::playback::scaled_delta(delta, a1.speed),
        ),
        ..s1
    };
    lemma_step_stays_inside(a1, s2, range, direction);
}

/// In ping-pong playback the sweep turns on the advance that lands on an end of the
/// range: a forward sweep turns backward exactly when it lands on the end, and a
/// backward sweep turns forward exactly when it lands on the start.
pub proof fn lemma_ping_pong_turns_on_landing(
    anim: AnimationView,
    state: AnimationState,
    range: FrameRange,
    direction: AnimationDirection,
)
    requires
        range.wf(),
        range.holds(state.current_frame),
        direction == AnimationDirection::PingPong || direction
            == AnimationDirection::PingPongReverse,
    ensures
        ({
            let s = step(anim, state, range, direction).1;
            &&& state.current_direction == PlayDirection::Forward ==> (s.current_frame
                == range.end <==> s.current_direction == PlayDirection::Backward)
            &&& state.current_direction == PlayDirection::Backward ==> (s.current_frame
                == range.start <==> s.current_direction == PlayDirection::Forward)
        }),
{
}

} // verus!
