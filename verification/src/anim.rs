use vstd::prelude::*;

verus! {

/// A single segment of an animation: a duration in ticks together with an
/// optional effect callback.
///
/// The engine never runs the callback itself; it is carried opaquely for the
/// embedding renderer, which hands it the segment's local progress each frame.
/// `None` is the no-op effect of an empty placeholder segment.
#[derive(Clone, Copy)]
pub struct AnimationSegment<F> {
    /// The duration of the segment, in ticks.
    pub duration: u64,
    /// The effect callback for the segment, if any.
    pub anim_fn: Option<F>,
}

impl<F> AnimationSegment<F> {
    /// An empty placeholder segment: zero duration and no effect.
    pub fn empty() -> (s: AnimationSegment<F>)
        ensures
            s.duration == 0,
            s.anim_fn is None,
    {
        AnimationSegment { duration: 0, anim_fn: None }
    }

    /// Create a new `AnimationSegment` from the given `duration` and
    /// `animation` callback.
    pub fn new(duration: u64, animation: F) -> (s: AnimationSegment<F>)
        ensures
            s.duration == duration,
            s.anim_fn == Some(animation),
    {
        AnimationSegment { duration, anim_fn: Some(animation) }
    }

    /// Get the segment duration.
    pub fn duration(&self) -> (d: u64)
        ensures
            d == self.duration,
    {
        self.duration
    }

    /// Get the segment duration from a mutable segment, which is left as it
    /// was.
    pub fn duration_mut(&mut self) -> (d: u64)
        ensures
            d == old(self).duration,
            *final(self) == *old(self),
    {
        self.duration
    }

    /// Get the animation callback.
    pub fn anim_fn(&self) -> (f: &Option<F>)
        ensures
            *f == self.anim_fn,
    {
        &self.anim_fn
    }

    /// Get a mutable reference to the animation callback, for replacing the
    /// effect after construction.
    pub fn anim_fn_mut(&mut self) -> (f: &mut Option<F>)
        ensures
            *f == old(self).anim_fn,
            *final(self) == (AnimationSegment { duration: old(self).duration, anim_fn: *final(f) }),
    {
        &mut self.anim_fn
    }
}

impl<F> Default for AnimationSegment<F> {
    /// The default segment is the empty placeholder.
    fn default() -> (s: Self)
        ensures
            s.duration == 0,
            s.anim_fn is None,
    {
        AnimationSegment { duration: 0, anim_fn: None }
    }
}

/// Duration in ticks of the *out* half of a symmetric animation of the given
/// total duration: the total halved, rounding down.
pub open spec fn half_out(duration: u64) -> int {
    duration as int / 2
}

/// Duration in ticks of the *in* half of a symmetric animation of the given
/// total duration: whatever the out half leaves of the total.
pub open spec fn half_in(duration: u64) -> int {
    duration as int - duration as int / 2
}

/// Law: the symmetric constructor's two halves always sum to exactly the
/// requested total duration, and are equal whenever the total is even.
pub proof fn lemma_symmetric_halves(duration: u64)
    ensures
        half_out(duration) + half_in(duration) == duration,
        duration % 2 == 0 ==> half_out(duration) == half_in(duration),
{
}

/// An animation defined by out-in [`AnimationSegment`]s.
///
/// The *out* segment plays first, showing the prior value as it leaves; the
/// *in* segment follows, showing the new value as it arrives. An animation may
/// leave either slot empty; an all-empty animation is a valid sentinel meaning
/// "no animation".
#[derive(Clone, Copy)]
pub struct Animation<F> {
    /// The segment animating the prior value **out**.
    pub out_seg: AnimationSegment<F>,
    /// The segment animating the new value **in**.
    pub in_seg: AnimationSegment<F>,
}

impl<F> Animation<F> {
    /// Total duration of the animation in ticks: the sum of both segments.
    pub open spec fn duration_spec(self) -> int {
        self.out_seg.duration + self.in_seg.duration
    }

    /// The two segment durations together fit in a `u64`.
    pub open spec fn wf(self) -> bool {
        self.duration_spec() <= u64::MAX
    }

    /// An empty placeholder animation: both segments empty, nothing to play.
    pub fn empty() -> (a: Animation<F>)
        ensures
            a.out_seg.duration == 0,
            a.in_seg.duration == 0,
            a.out_seg.anim_fn is None,
            a.in_seg.anim_fn is None,
            a.duration_spec() == 0,
            a.wf(),
    {
        Animation { out_seg: AnimationSegment::empty(), in_seg: AnimationSegment::empty() }
    }

    /// Create a new `Animation` with the given total `duration`, split evenly
    /// over the two segments.
    pub fn new(duration: u64, out_fn: F, in_fn: F) -> (a: Animation<F>)
        ensures
            a.out_seg.duration == half_out(duration),
            a.in_seg.duration == half_in(duration),
            a.out_seg.anim_fn == Some(out_fn),
            a.in_seg.anim_fn == Some(in_fn),
            a.duration_spec() == duration,
            a.wf(),
    {
        let segment_duration: u64 = duration / 2;
        let out_seg = AnimationSegment::new(segment_duration, out_fn);
        let in_seg = AnimationSegment::new(duration - segment_duration, in_fn);
        Animation { out_seg, in_seg }
    }

    /// Create a new `Animation` with only the *out* segment: the prior value
    /// plays out for `duration` ticks and the new value then appears at once.
    pub fn new_out(duration: u64, out_fn: F) -> (a: Animation<F>)
        ensures
            a.out_seg.duration == duration,
            a.out_seg.anim_fn == Some(out_fn),
            a.in_seg.duration == 0,
            a.in_seg.anim_fn is None,
            a.duration_spec() == duration,
            a.wf(),
    {
        let out_seg = AnimationSegment::new(duration, out_fn);
        let in_seg = AnimationSegment::empty();
        Animation { out_seg, in_seg }
    }

    /// Create a new `Animation` with only the *in* segment: the prior value
    /// vanishes at once and the new value plays in for `duration` ticks.
    pub fn new_in(duration: u64, in_fn: F) -> (a: Animation<F>)
        ensures
            a.out_seg.duration == 0,
            a.out_seg.anim_fn is None,
            a.in_seg.duration == duration,
            a.in_seg.anim_fn == Some(in_fn),
            a.duration_spec() == duration,
            a.wf(),
    {
        let out_seg = AnimationSegment::empty();
        let in_seg = AnimationSegment::new(duration, in_fn);
        Animation { out_seg, in_seg }
    }

    /// Create a new `Animation` from the given [`AnimationSegment`]s.
    pub fn from_segments(out_seg: AnimationSegment<F>, in_seg: AnimationSegment<F>) -> (a:
        Animation<F>)
        ensures
            a.out_seg == out_seg,
            a.in_seg == in_seg,
    {
        Animation { out_seg, in_seg }
    }

    /// Get the total duration of the animation.
    pub fn duration(&self) -> (d: u64)
        requires
            self.wf(),
        ensures
            d == self.duration_spec(),
    {
        self.out_seg.duration + self.in_seg.duration
    }
}

impl<F> Default for Animation<F> {
    /// The default animation is the empty placeholder.
    fn default() -> (a: Self)
        ensures
            a.out_seg.duration == 0,
            a.in_seg.duration == 0,
            a.out_seg.anim_fn is None,
            a.in_seg.anim_fn is None,
    {
        Animation { out_seg: AnimationSegment::empty(), in_seg: AnimationSegment::empty() }
    }
}

} // verus!
