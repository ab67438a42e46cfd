use std::collections::HashMap;
use vstd::prelude::*;

use crate::anim::Animation;
use crate::progress::{frac_le, progress_den, progress_num, Progress};

verus! {

broadcast use vstd::std_specs::hash::group_hash_axioms;

/// The phase an animated identity is in on a given frame.
#[derive(Clone, Copy, PartialEq, Eq, Structural, Debug)]
pub enum Phase {
    /// No transition in progress: the current value renders untouched.
    Idle,
    /// The prior value is playing out through the out segment.
    TransitioningOut,
    /// The new value is playing in through the in segment.
    TransitioningIn,
}

/// Timing state the driver stores per identity: which value change is being
/// animated and when it started.
#[derive(Clone, Copy, PartialEq, Eq, Structural, Debug)]
pub struct TimingState {
    /// The value shown while the out segment plays.
    pub previous_value: u64,
    /// The value most recently supplied for the identity.
    pub current_value: u64,
    /// The tick at which the transition to `current_value` started.
    pub started_at: u64,
}

/// The phase that `elapsed` ticks into a transition select, given the two
/// segment durations: the out segment while `elapsed < out_dur`, the in
/// segment until the total duration is spent, and idle from then on.
pub open spec fn phase_for(out_dur: int, in_dur: int, elapsed: int) -> Phase {
    if elapsed < out_dur {
        Phase::TransitioningOut
    } else if elapsed < out_dur + in_dur {
        Phase::TransitioningIn
    } else {
        Phase::Idle
    }
}

/// The state stored for an identity after a frame supplies `current` at tick
/// `now`: a fresh identity starts settled on `current`; a changed value
/// restarts the transition at `now`, capturing the old value for the out
/// segment; an unchanged value leaves the state exactly as it was.
pub open spec fn updated_state(prior: Option<TimingState>, current: u64, now: u64) -> TimingState {
    match prior {
        Option::None => TimingState {
            previous_value: current,
            current_value: current,
            started_at: now,
        },
        Option::Some(s) => if s.current_value == current {
            s
        } else {
            TimingState { previous_value: s.current_value, current_value: current, started_at: now }
        },
    }
}

/// The state stored for `identity` in the table, if any.
pub open spec fn prior_state(states: Map<u64, TimingState>, identity: u64) -> Option<TimingState> {
    if states.contains_key(identity) {
        Option::Some(states[identity])
    } else {
        Option::None
    }
}

/// The state a frame supplying `current` at tick `now` stores for `identity`,
/// starting from the table `states`.
pub open spec fn frame_state(
    states: Map<u64, TimingState>,
    identity: u64,
    current: u64,
    now: u64,
) -> TimingState {
    updated_state(prior_state(states, identity), current, now)
}

/// The phase of a stored state at tick `now`: a settled state (previous value
/// equal to the current one) is idle; otherwise the elapsed time since the
/// transition started picks the segment.
pub open spec fn state_phase(s: TimingState, out_dur: int, in_dur: int, now: int) -> Phase {
    if s.previous_value == s.current_value {
        Phase::Idle
    } else {
        phase_for(out_dur, in_dur, now - s.started_at)
    }
}

/// The value a phase renders: the prior value while it plays out, the current
/// value from the in segment on.
pub open spec fn visible_value(s: TimingState, phase: Phase) -> u64 {
    if phase == Phase::TransitioningOut {
        s.previous_value
    } else {
        s.current_value
    }
}

/// What the driver decides for one identity on one frame: the phase, the
/// active segment's local progress, and the value the frame renders.
#[derive(Clone, Copy, PartialEq, Eq, Structural, Debug)]
pub struct FrameOutcome {
    /// The phase the identity is in on this frame.
    pub phase: Phase,
    /// Local progress of the active segment; complete when idle.
    pub progress: Progress,
    /// The value to render on this frame.
    pub visible_value: u64,
}

/// Select the phase for `elapsed` ticks into a transition with the given
/// segment durations.
pub fn phase_at(out_dur: u64, in_dur: u64, elapsed: u64) -> (p: Phase)
    ensures
        p == phase_for(out_dur as int, in_dur as int, elapsed as int),
{
    if elapsed < out_dur {
        Phase::TransitioningOut
    } else if elapsed - out_dur < in_dur {
        Phase::TransitioningIn
    } else {
        Phase::Idle
    }
}

/// The transition driver: owns, per identity, the timing state of that
/// identity's current value transition. Each frame the caller hands it the
/// identity, the value now current, and the clock tick; it answers which
/// segment is active, how far along it is, and which value to render.
pub struct Driver {
    states: HashMap<u64, TimingState>,
}

impl View for Driver {
    type V = Map<u64, TimingState>;

    closed spec fn view(&self) -> Map<u64, TimingState> {
        self.states@
    }
}

impl Driver {
    /// An empty driver that has seen no identity yet.
    pub fn new() -> (d: Driver)
        ensures
            d@ == Map::<u64, TimingState>::empty(),
    {
        Driver { states: HashMap::new() }
    }

    /// The number of identities with stored timing state.
    pub fn len(&self) -> (n: usize)
        ensures
            n == self@.len(),
    {
        self.states.len()
    }

    /// The stored timing state for `identity`, if the driver has seen it.
    pub fn state_of(&self, identity: u64) -> (s: Option<TimingState>)
        ensures
            s == prior_state(self@, identity),
    {
        match self.states.get(&identity) {
            Option::Some(s) => Option::Some(*s),
            Option::None => Option::None,
        }
    }

    /// Drop the stored timing state for `identity`. The caller is responsible
    /// for retiring identities it no longer renders; the table otherwise keeps
    /// an entry per identity ever seen.
    pub fn retire(&mut self, identity: u64)
        ensures
            final(self)@ == old(self)@.remove(identity),
    {
        self.states.remove(&identity);
    }

    /// Advance `identity` to tick `now` with this frame's `current` value and
    /// decide what the frame renders.
    ///
    /// A value change (re)starts the transition at `now`, capturing the value
    /// it replaces for the out segment; an unchanged value leaves the timing
    /// state alone, so the phase advances with the clock alone; a fresh
    /// identity starts settled. No other identity's state is touched. The
    /// clock may not run backwards between frames of one transition.
    pub fn frame<F>(
        &mut self,
        identity: u64,
        current: u64,
        now: u64,
        animation: &Animation<F>,
    ) -> (out: FrameOutcome)
        requires
            old(self)@.contains_key(identity) && old(self)@[identity].current_value == current
                ==> now >= old(self)@[identity].started_at,
        ensures
            final(self)@ == old(self)@.insert(
                identity,
                frame_state(old(self)@, identity, current, now),
            ),
            ({
                let st = frame_state(old(self)@, identity, current, now);
                let od = animation.out_seg.duration as int;
                let id = animation.in_seg.duration as int;
                &&& out.phase == state_phase(st, od, id, now as int)
                &&& out.visible_value == visible_value(st, out.phase)
                &&& out.progress.wf()
                &&& (out.phase == Phase::TransitioningOut ==> {
                    &&& out.progress.num == progress_num(od, now - st.started_at)
                    &&& out.progress.den == progress_den(od, now - st.started_at)
                })
                &&& (out.phase == Phase::TransitioningIn ==> {
                    &&& out.progress.num == progress_num(id, now - st.started_at - od)
                    &&& out.progress.den == progress_den(id, now - st.started_at - od)
                })
                &&& (out.phase == Phase::Idle ==> out.progress.is_complete())
            }),
    {
        let prior = self.states.get(&identity);
        let st: TimingState = match prior {
            Option::Some(s) => {
                let s: TimingState = *s;
                if s.current_value == current {
                    s
                } else {
                    TimingState {
                        previous_value: s.current_value,
                        current_value: current,
                        started_at: now,
                    }
                }
            },
            Option::None => TimingState {
                previous_value: current,
                current_value: current,
                started_at: now,
            },
        };
        self.states.insert(identity, st);
        if st.previous_value == st.current_value {
            FrameOutcome {
                phase: Phase::Idle,
                progress: Progress::complete(),
                visible_value: st.current_value,
            }
        } else {
            let elapsed: u64 = now - st.started_at;
            let phase = phase_at(animation.out_seg.duration, animation.in_seg.duration, elapsed);
            match phase {
                Phase::TransitioningOut => FrameOutcome {
                    phase,
                    progress: Progress::of_segment(animation.out_seg.duration, elapsed),
                    visible_value: st.previous_value,
                },
                Phase::TransitioningIn => FrameOutcome {
                    phase,
                    progress: Progress::of_segment(
                        animation.in_seg.duration,
                        elapsed - animation.out_seg.duration,
                    ),
                    visible_value: st.current_value,
                },
                Phase::Idle => FrameOutcome {
                    phase,
                    progress: Progress::complete(),
                    visible_value: st.current_value,
                },
            }
        }
    }
}

/// Law: after a value change, with the value then held constant, the driver
/// never restarts the transition, and the identity is idle exactly from the
/// tick the transition started plus the total duration on.
pub proof fn lemma_held_value_settles(
    states: Map<u64, TimingState>,
    identity: u64,
    value: u64,
    out_dur: int,
    in_dur: int,
    t: u64,
)
    requires
        states.contains_key(identity),
        states[identity].current_value == value,
        states[identity].previous_value != value,
        out_dur >= 0,
        in_dur >= 0,
    ensures
        frame_state(states, identity, value, t) == states[identity],
        state_phase(states[identity], out_dur, in_dur, t as int) == Phase::Idle <==> t
            >= states[identity].started_at + out_dur + in_dur,
{
}

/// Law: across the frames of one transition, the active segment's local
/// progress never decreases while that segment stays active.
pub proof fn lemma_frame_progress_monotone(
    s: TimingState,
    out_dur: int,
    in_dur: int,
    t1: int,
    t2: int,
)
    requires
        s.started_at <= t1 <= t2,
        state_phase(s, out_dur, in_dur, t1) == state_phase(s, out_dur, in_dur, t2),
        state_phase(s, out_dur, in_dur, t1) != Phase::Idle,
    ensures
        ({
            let out_active = state_phase(s, out_dur, in_dur, t1) == Phase::TransitioningOut;
            let dur = if out_active {
                out_dur
            } else {
                in_dur
            };
            let off = if out_active {
                0int
            } else {
                out_dur
            };
            frac_le(
                progress_num(dur, t1 - s.started_at - off),
                progress_den(dur, t1 - s.started_at - off),
                progress_num(dur, t2 - s.started_at - off),
                progress_den(dur, t2 - s.started_at - off),
            )
        }),
{
    if state_phase(s, out_dur, in_dur, t1) == Phase::TransitioningOut {
        crate::progress::lemma_progress_monotone(out_dur, t1 - s.started_at, t2 - s.started_at);
    } else {
        crate::progress::lemma_progress_monotone(
            in_dur,
            t1 - s.started_at - out_dur,
            t2 - s.started_at - out_dur,
        );
    }
}

/// Law: once an identity is idle it stays idle as the clock advances, until
/// its value changes again.
pub proof fn lemma_idle_is_absorbing(s: TimingState, out_dur: int, in_dur: int, t1: int, t2: int)
    requires
        t1 <= t2,
        state_phase(s, out_dur, in_dur, t1) == Phase::Idle,
    ensures
        state_phase(s, out_dur, in_dur, t2) == Phase::Idle,
{
}

/// Law: a zero-duration out segment is skipped: on the very frame of a value
/// change the phase is already transitioning in, or idle if the in segment is
/// zero-length too.
pub proof fn lemma_zero_out_skipped(s: TimingState, in_dur: int, now: int)
    requires
        s.previous_value != s.current_value,
        now == s.started_at,
    ensures
        in_dur > 0 ==> state_phase(s, 0, in_dur, now) == Phase::TransitioningIn,
        in_dur <= 0 ==> state_phase(s, 0, in_dur, now) == Phase::Idle,
{
}

/// Law: with an empty animation every identity is idle on every frame, so no
/// segment is ever selected and no effect callback is ever picked to run.
pub proof fn lemma_empty_animation_idle(s: TimingState, now: int)
    requires
        now >= s.started_at,
    ensures
        state_phase(s, 0, 0, now) == Phase::Idle,
{
}

/// Law: a frame for one identity reads and rewrites that identity's entry
/// alone: a table differing only at another identity yields the same stored
/// state, and with it the same phase, progress and visible value.
pub proof fn lemma_identity_isolation(
    states: Map<u64, TimingState>,
    other: u64,
    s: TimingState,
    identity: u64,
    current: u64,
    now: u64,
)
    requires
        other != identity,
    ensures
        frame_state(states.insert(other, s), identity, current, now) == frame_state(
            states,
            identity,
            current,
            now,
        ),
{
}

} // verus!
