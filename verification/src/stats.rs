//! Frame-rate bookkeeping: frames are counted in a window that restarts once
//! it has lasted at least [`SAMPLE_WINDOW_NANOS`]; at that point a sample
//! (frames counted, time elapsed) is recorded, from which the interface shows
//! the frame rate.

use vstd::prelude::*;

verus! {

/// Length of the counting window: one tenth of a second, in nanoseconds.
pub const SAMPLE_WINDOW_NANOS: u64 = 100_000_000;

/// Abstract state of the frame counter: the frames counted in the current
/// window and the last sample taken, as (frames, elapsed nanoseconds).
pub type StatsView = (nat, Option<(nat, nat)>);

/// The frame count after one more frame; it stops at `u64::MAX`.
pub open spec fn counted(frames: nat) -> nat {
    if frames < u64::MAX {
        frames + 1
    } else {
        frames
    }
}

/// What recording one frame does to the counter, `elapsed` being the time
/// since the current window started.
pub open spec fn step(s: StatsView, elapsed: u64) -> StatsView {
    if elapsed >= SAMPLE_WINDOW_NANOS {
        (0, Some((counted(s.0), elapsed as nat)))
    } else {
        (counted(s.0), s.1)
    }
}

/// A sample, if any, covers at least one frame and a full window.
pub open spec fn samples_well_formed(s: StatsView) -> bool {
    match s.1 {
        Some((frames, elapsed)) => frames >= 1 && elapsed >= SAMPLE_WINDOW_NANOS,
        None => true,
    }
}

/// The counter after recording one frame per entry of `elapsed`, in order.
pub open spec fn run(s: StatsView, elapsed: Seq<u64>) -> StatsView
    decreases elapsed.len(),
{
    if elapsed.len() == 0 {
        s
    } else {
        step(run(s, elapsed.drop_last()), elapsed.last())
    }
}

/// The frames covered by the samples taken while recording one frame per
/// entry of `elapsed`.
pub open spec fn sampled_frames(s: StatsView, elapsed: Seq<u64>) -> nat
    decreases elapsed.len(),
{
    if elapsed.len() == 0 {
        0
    } else {
        let before = run(s, elapsed.drop_last());
        sampled_frames(s, elapsed.drop_last()) + if elapsed.last() >= SAMPLE_WINDOW_NANOS {
            counted(before.0)
        } else {
            0
        }
    }
}

/// No frame is lost or counted twice: over any run of frames, the frames in
/// the samples taken plus those of the open window are the frames recorded
/// (as long as the count stays below `u64::MAX`).
pub proof fn lemma_frames_conserved(s: StatsView, elapsed: Seq<u64>)
    requires
        s.0 + elapsed.len() < u64::MAX,
    ensures
        sampled_frames(s, elapsed) + run(s, elapsed).0 == s.0 + elapsed.len(),
    decreases elapsed.len(),
{
    if elapsed.len() > 0 {
        lemma_frames_conserved(s, elapsed.drop_last());
    }
}

/// Every sample taken covers at least one frame and a full window: recording
/// frames keeps the samples well formed.
pub proof fn lemma_run_keeps_samples_well_formed(s: StatsView, elapsed: Seq<u64>)
    requires
        samples_well_formed(s),
    ensures
        samples_well_formed(run(s, elapsed)),
    decreases elapsed.len(),
{
    if elapsed.len() > 0 {
        lemma_run_keeps_samples_well_formed(s, elapsed.drop_last());
    }
}

/// A frame inside the window (less than [`SAMPLE_WINDOW_NANOS`] since it
/// started) adds one to the count and leaves the last sample as it was.
pub proof fn lemma_frame_inside_window(s: StatsView, elapsed: u64)
    requires
        elapsed < SAMPLE_WINDOW_NANOS,
    ensures
        step(s, elapsed).1 == s.1,
        s.0 < u64::MAX ==> step(s, elapsed).0 == s.0 + 1,
{
}

/// The frame that ends a window takes a sample of every frame counted in the
/// window, itself included, over exactly the time elapsed, and starts the
/// count again from zero.
pub proof fn lemma_frame_ends_window(s: StatsView, elapsed: u64)
    requires
        elapsed >= SAMPLE_WINDOW_NANOS,
    ensures
        step(s, elapsed).0 == 0,
        step(s, elapsed).1 matches Some((f, e)) && e == elapsed && (s.0 < u64::MAX ==> f == s.0
            + 1),
{
}

/// Over a run of frames, the last sample is the one taken by the last frame
/// that ended a window: it counts the frames of that window, and the open
/// window holds the frames after it. Where no frame ended a window, the last
/// sample is the one held before the run and every frame is in the count.
pub proof fn lemma_last_sample_of_run(s: StatsView, elapsed: Seq<u64>, j: int)
    requires
        s.0 + elapsed.len() < u64::MAX,
        -1 <= j < elapsed.len(),
        j >= 0 ==> elapsed[j] >= SAMPLE_WINDOW_NANOS,
        forall|i: int| j < i < elapsed.len() ==> #[trigger] elapsed[i] < SAMPLE_WINDOW_NANOS,
    ensures
        j < 0 ==> run(s, elapsed) == (s.0 + elapsed.len(), s.1),
        j >= 0 ==> run(s, elapsed) == (
            (elapsed.len() - 1 - j) as nat,
            Some(((run(s, elapsed.take(j)).0 + 1) as nat, elapsed[j] as nat)),
        ),
    decreases elapsed.len(),
{
    if elapsed.len() > 0 {
        let prefix = elapsed.drop_last();
        let last = elapsed.len() - 1;
        if j == last {
            assert(prefix =~= elapsed.take(j));
            lemma_frames_bounded(s, prefix);
        } else {
            assert forall|i: int| j < i < prefix.len() implies #[trigger] prefix[i]
                < SAMPLE_WINDOW_NANOS by {
                assert(prefix[i] == elapsed[i]);
            }
            assert(elapsed[last] < SAMPLE_WINDOW_NANOS);
            lemma_last_sample_of_run(s, prefix, j);
            if j >= 0 {
                assert(prefix.take(j) =~= elapsed.take(j));
            }
        }
    }
}

/// The count never exceeds the starting count plus the frames recorded.
pub proof fn lemma_frames_bounded(s: StatsView, elapsed: Seq<u64>)
    ensures
        run(s, elapsed).0 <= s.0 + elapsed.len(),
    decreases elapsed.len(),
{
    if elapsed.len() > 0 {
        lemma_frames_bounded(s, elapsed.drop_last());
    }
}

/// Information about application performance.
pub struct PerformanceStats {
    /// Frames counted since the current window started.
    frame_count: u64,
    /// The last sample: frames counted and nanoseconds elapsed in its window.
    last_sample: Option<(u64, u64)>,
}

impl View for PerformanceStats {
    type V = StatsView;

    closed spec fn view(&self) -> StatsView {
        (
            self.frame_count as nat,
            match self.last_sample {
                Some((f, e)) => Some((f as nat, e as nat)),
                None => None,
            },
        )
    }
}

impl PerformanceStats {
    #[verifier::type_invariant]
    spec fn well_formed(self) -> bool {
        samples_well_formed(self@)
    }

    /// A counter with no frame counted and no sample taken yet.
    pub fn new() -> (s: Self)
        ensures
            s@ == (0nat, None::<(nat, nat)>),
    {
        PerformanceStats { frame_count: 0, last_sample: None }
    }

    /// Records one drawn frame, `elapsed_nanos` being the time since the
    /// current window started. Returns whether the window is over: then a
    /// sample is taken, the count starts again from zero and the caller
    /// restarts its clock.
    pub fn record_frame(&mut self, elapsed_nanos: u64) -> (restart: bool)
        ensures
            restart == (elapsed_nanos >= SAMPLE_WINDOW_NANOS),
            final(self)@ == step(old(self)@, elapsed_nanos),
            samples_well_formed(final(self)@),
            elapsed_nanos < SAMPLE_WINDOW_NANOS ==> final(self)@.1 == old(self)@.1,
            elapsed_nanos < SAMPLE_WINDOW_NANOS && old(self)@.0 < u64::MAX ==> final(self)@.0
                == old(self)@.0 + 1,
            elapsed_nanos >= SAMPLE_WINDOW_NANOS ==> final(self)@.0 == 0,
            elapsed_nanos >= SAMPLE_WINDOW_NANOS ==> (final(self)@.1 matches Some((f, e)) && e
                == elapsed_nanos && (old(self)@.0 < u64::MAX ==> f == old(self)@.0 + 1)),
    {
        proof {
            use_type_invariant(&*self);
        }
        let frames = self.frame_count.saturating_add(1);
        if elapsed_nanos >= SAMPLE_WINDOW_NANOS {
            self.frame_count = 0;
            self.last_sample = Some((frames, elapsed_nanos));
            true
        } else {
            self.frame_count = frames;
            false
        }
    }

    /// Frames counted since the current window started.
    pub fn frame_count(&self) -> (n: u64)
        ensures
            n == self@.0,
    {
        self.frame_count
    }

    /// The last sample taken, as (frames, elapsed nanoseconds).
    pub fn last_sample(&self) -> (sample: Option<(u64, u64)>)
        ensures
            match sample {
                Some((f, e)) => self@.1 == Some((f as nat, e as nat)),
                None => self@.1 is None,
            },
            sample matches Some((f, e)) ==> f >= 1 && e >= SAMPLE_WINDOW_NANOS,
    {
        proof {
            use_type_invariant(self);
        }
        self.last_sample
    }
}

} // verus!
