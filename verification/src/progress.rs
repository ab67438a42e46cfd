use vstd::prelude::*;

verus! {

/// Fractional completion of the active animation segment, held exactly as
/// `num / den`. Well-formed values satisfy `num <= den` and `den >= 1`, so the
/// fraction always lies in `[0, 1]`; `num == den` means the segment is done.
#[derive(Clone, Copy, PartialEq, Eq, Structural, Debug)]
pub struct Progress {
    /// Ticks elapsed within the segment, capped at the segment's duration.
    pub num: u64,
    /// Ticks the segment lasts in total (at least 1).
    pub den: u64,
}

/// Numerator of the progress through a segment of length `duration` at
/// `elapsed` ticks: a zero-length or expired segment counts as complete (1/1).
pub open spec fn progress_num(duration: int, elapsed: int) -> int {
    if duration <= 0 || elapsed >= duration {
        1
    } else {
        elapsed
    }
}

/// Denominator of the progress through a segment of length `duration` at
/// `elapsed` ticks; see [`progress_num`].
pub open spec fn progress_den(duration: int, elapsed: int) -> int {
    if duration <= 0 || elapsed >= duration {
        1
    } else {
        duration
    }
}

impl Progress {
    /// The fraction lies in `[0, 1]`.
    pub open spec fn wf(self) -> bool {
        self.num <= self.den && self.den >= 1
    }

    /// The segment has fully played out.
    pub open spec fn is_complete(self) -> bool {
        self.num == self.den
    }

    /// The completed fraction `1 / 1`.
    pub fn complete() -> (p: Progress)
        ensures
            p.num == 1 && p.den == 1,
            p.wf(),
            p.is_complete(),
    {
        Progress { num: 1, den: 1 }
    }

    /// Progress through a segment of length `duration` at `elapsed` ticks since
    /// the segment began. A zero-length segment, or one whose time is already
    /// up, is complete.
    pub fn of_segment(duration: u64, elapsed: u64) -> (p: Progress)
        ensures
            p.num == progress_num(duration as int, elapsed as int),
            p.den == progress_den(duration as int, elapsed as int),
            p.wf(),
    {
        if duration == 0 || elapsed >= duration {
            Progress { num: 1, den: 1 }
        } else {
            Progress { num: elapsed, den: duration }
        }
    }
}

/// `n1 / d1 <= n2 / d2` as fractions with positive denominators, by
/// cross-multiplication.
pub open spec fn frac_le(n1: int, d1: int, n2: int, d2: int) -> bool {
    n1 * d2 <= n2 * d1
}

/// Law: within one segment, local progress never decreases as time advances,
/// always lies in `[0, 1]`, and is complete from the segment's end on.
pub proof fn lemma_progress_monotone(duration: int, e1: int, e2: int)
    requires
        0 <= e1 <= e2,
    ensures
        frac_le(
            progress_num(duration, e1),
            progress_den(duration, e1),
            progress_num(duration, e2),
            progress_den(duration, e2),
        ),
        0 <= progress_num(duration, e1) <= progress_den(duration, e1),
        1 <= progress_den(duration, e1),
        e2 >= duration ==> progress_num(duration, e2) == progress_den(duration, e2),
{
    if duration > 0 && e2 < duration {
        assert(e1 * duration <= e2 * duration) by (nonlinear_arith)
            requires
                0 <= e1 <= e2,
                duration > 0,
        ;
    }
}

} // verus!
