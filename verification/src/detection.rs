//! From a stream of scored frames to verdicts: the grace period, the thresholds, and what is
//! forgotten between prints.

use crate::scalar::Scalar;
use vstd::prelude::*;

verus! {

/// How many frames the long-term baseline averages over at most.
pub const BASELINE_WINDOW: u64 = 7200;

/// For how many frames after a reset every verdict is safe.
pub const GRACE_FRAMES: u64 = 10;

/// The score at which a warning begins: the bits of the double nearest to 0.35.
pub const THRESHOLD_WARNING: u64 = 0x3FD6_6666_6666_6666;

/// The score at which a print counts as failing: the bits of the double nearest to 0.55.
pub const THRESHOLD_FAILING: u64 = 0x3FE1_9999_9999_999A;

/// The verdict on a frame.
#[derive(Debug, Clone, Copy, PartialEq, Eq, Structural)]
pub enum DetectionResult {
    Safe,
    Warning { score: Scalar },
    Failing { score: Scalar },
}

/// What is known about the print from the frames so far.
#[derive(Debug, Clone, Copy, PartialEq, Eq, Structural)]
pub struct DetectionState {
    /// Exponentially weighted mean of the confidence in recent frames.
    pub ewm_mean: Scalar,
    /// Mean of the confidence over all prints: the noise floor.
    pub baseline_mean: Scalar,
    /// Frames since the last reset.
    pub frame_count: u64,
    /// Frames since the service started.
    pub lifetime_frame_count: u64,
    /// The job of the latest frame for which one was known.
    pub current_job_id: Option<u64>,
    /// The factor that scores are multiplied by.
    pub sensitivity: Scalar,
}

/// What the means of the next frame are computed from.
#[derive(Debug, Clone, Copy, PartialEq, Eq, Structural)]
pub struct FrameInputs {
    /// The weighted mean before the frame.
    pub ewm_mean: Scalar,
    /// The baseline before the frame.
    pub baseline_mean: Scalar,
    /// The number of frames that the baseline averages over once the frame is in it.
    pub divisor: u64,
    /// The factor for the score.
    pub sensitivity: Scalar,
}

/// The means and the score once a frame is in them.
#[derive(Debug, Clone, Copy, PartialEq, Eq, Structural)]
pub struct FrameNumbers {
    pub ewm_mean: Scalar,
    pub baseline_mean: Scalar,
    pub score: Scalar,
}

/// The verdict on the frame with the given number since the last reset, counted from one.
pub open spec fn verdict(frame: nat, score: Scalar) -> DetectionResult {
    if frame <= GRACE_FRAMES {
        DetectionResult::Safe
    } else if score.spec_at_least(THRESHOLD_FAILING) {
        DetectionResult::Failing { score }
    } else if score.spec_at_least(THRESHOLD_WARNING) {
        DetectionResult::Warning { score }
    } else {
        DetectionResult::Safe
    }
}

impl DetectionState {
    /// There are no more frames since the reset than there are in all.
    pub open spec fn wf(self) -> bool {
        self.frame_count <= self.lifetime_frame_count
    }

    /// The state with what belongs to one print forgotten.
    pub open spec fn fresh_print(self) -> DetectionState {
        DetectionState { ewm_mean: Scalar::spec_zero(), frame_count: 0, ..self }
    }

    /// Whether a frame of this job is the first of another job than the last known one.
    pub open spec fn changes_job(self, job_id: Option<u64>) -> bool {
        job_id is Some && self.current_job_id != job_id
    }

    /// The state in which a frame of this job is looked at.
    pub open spec fn for_job(self, job_id: Option<u64>) -> DetectionState {
        if self.changes_job(job_id) {
            DetectionState { current_job_id: job_id, ..self.fresh_print() }
        } else {
            self
        }
    }

    /// What the numbers of the next frame are computed from, if it belongs to this job: the
    /// weighted mean of its print, and a baseline over all frames or the latest of them.
    pub open spec fn inputs(self, job_id: Option<u64>) -> FrameInputs {
        FrameInputs {
            ewm_mean: self.for_job(job_id).ewm_mean,
            baseline_mean: self.baseline_mean,
            divisor: if self.lifetime_frame_count + 1 < BASELINE_WINDOW {
                (self.lifetime_frame_count + 1) as u64
            } else {
                BASELINE_WINDOW
            },
            sensitivity: self.sensitivity,
        }
    }

    /// The state after a frame of this job with these numbers.
    pub open spec fn after_frame(
        self,
        job_id: Option<u64>,
        numbers: FrameNumbers,
    ) -> DetectionState {
        let start = self.for_job(job_id);
        DetectionState {
            ewm_mean: numbers.ewm_mean,
            baseline_mean: numbers.baseline_mean,
            frame_count: (start.frame_count + 1) as u64,
            lifetime_frame_count: (start.lifetime_frame_count + 1) as u64,
            ..start
        }
    }

    /// The state before the first frame.
    pub fn new(sensitivity: Scalar) -> (r: DetectionState)
        ensures
            r.wf(),
            r == (DetectionState {
                ewm_mean: Scalar::spec_zero(),
                baseline_mean: Scalar::spec_zero(),
                frame_count: 0,
                lifetime_frame_count: 0,
                current_job_id: None,
                sensitivity,
            }),
    {
        DetectionState {
            ewm_mean: Scalar::zero(),
            baseline_mean: Scalar::zero(),
            frame_count: 0,
            lifetime_frame_count: 0,
            current_job_id: None,
            sensitivity,
        }
    }

    /// Forgets what belongs to one print, so that the next one starts clean. The baseline and
    /// the lifetime count stay: they follow the noise floor across all prints.
    pub fn reset_per_print(&mut self)
        ensures
            *final(self) == old(self).fresh_print(),
            final(self).wf(),
    {
        self.ewm_mean = Scalar::zero();
        self.frame_count = 0;
    }

    /// What the numbers of the next frame are to be computed from, if it belongs to this job.
    pub fn frame_inputs(&self, job_id: Option<u64>) -> (r: FrameInputs)
        requires
            self.lifetime_frame_count < u64::MAX,
        ensures
            r == self.inputs(job_id),
    {
        let ewm_mean = if self.job_differs(job_id) {
            Scalar::zero()
        } else {
            self.ewm_mean
        };
        let count: u64 = self.lifetime_frame_count + 1;
        let divisor: u64 = if count < BASELINE_WINDOW {
            count
        } else {
            BASELINE_WINDOW
        };
        FrameInputs {
            ewm_mean,
            baseline_mean: self.baseline_mean,
            divisor,
            sensitivity: self.sensitivity,
        }
    }

    fn job_differs(&self, job_id: Option<u64>) -> (r: bool)
        ensures
            r == self.changes_job(job_id),
    {
        match (job_id, self.current_job_id) {
            (Some(id), Some(current)) => id != current,
            (Some(_), None) => true,
            (None, _) => false,
        }
    }

    /// Takes in a frame, given the numbers computed for it, and says how the print looks.
    ///
    /// `job_id` is the job that the printer reports, where it is known; another job than before
    /// starts with the state of a fresh print.
    pub fn update(&mut self, job_id: Option<u64>, numbers: FrameNumbers) -> (r: DetectionResult)
        requires
            old(self).wf(),
            old(self).lifetime_frame_count < u64::MAX,
        ensures
            *final(self) == old(self).after_frame(job_id, numbers),
            final(self).wf(),
            r == verdict(final(self).frame_count as nat, numbers.score),
    {
        if self.job_differs(job_id) {
            self.reset_per_print();
            self.current_job_id = job_id;
        }
        self.ewm_mean = numbers.ewm_mean;
        self.baseline_mean = numbers.baseline_mean;
        self.frame_count = self.frame_count + 1;
        self.lifetime_frame_count = self.lifetime_frame_count + 1;
        if self.frame_count <= GRACE_FRAMES {
            DetectionResult::Safe
        } else if numbers.score.at_least(THRESHOLD_FAILING) {
            DetectionResult::Failing { score: numbers.score }
        } else if numbers.score.at_least(THRESHOLD_WARNING) {
            DetectionResult::Warning { score: numbers.score }
        } else {
            DetectionResult::Safe
        }
    }
}

/// The state after a sequence of frames.
pub open spec fn after_frames(
    state: DetectionState,
    frames: Seq<(Option<u64>, FrameNumbers)>,
) -> DetectionState
    decreases frames.len(),
{
    if frames.len() == 0 {
        state
    } else {
        after_frames(state, frames.drop_last()).after_frame(frames.last().0, frames.last().1)
    }
}

/// The verdict on the last of a sequence of frames.
pub open spec fn last_verdict(
    state: DetectionState,
    frames: Seq<(Option<u64>, FrameNumbers)>,
) -> DetectionResult
    recommends
        frames.len() > 0,
{
    verdict(after_frames(state, frames).frame_count as nat, frames.last().1.score)
}

/// Whichever jobs a sequence of frames belongs to, it adds at most its length to the frames
/// since the reset and exactly its length to the lifetime count.
pub proof fn law_frames_are_counted(
    state: DetectionState,
    frames: Seq<(Option<u64>, FrameNumbers)>,
)
    requires
        state.wf(),
        state.lifetime_frame_count + frames.len() <= u64::MAX,
    ensures
        after_frames(state, frames).wf(),
        after_frames(state, frames).frame_count <= state.frame_count + frames.len(),
        after_frames(state, frames).lifetime_frame_count == state.lifetime_frame_count
            + frames.len(),
    decreases frames.len(),
{
    if frames.len() > 0 {
        law_frames_are_counted(state, frames.drop_last());
    }
}

/// At the start of a print, and after every reset, the frames of the grace period are safe
/// whatever their scores.
pub proof fn law_grace_period_is_safe(
    state: DetectionState,
    frames: Seq<(Option<u64>, FrameNumbers)>,
)
    requires
        state.wf(),
        0 < frames.len() <= GRACE_FRAMES,
        state.lifetime_frame_count + frames.len() <= u64::MAX,
    ensures
        last_verdict(state.fresh_print(), frames) == DetectionResult::Safe,
{
    law_frames_are_counted(state.fresh_print(), frames);
}

/// The first frame of another job is the first frame of its grace period, and leaves what was
/// known across prints to the numbers computed for it.
pub proof fn law_job_change_starts_afresh(
    state: DetectionState,
    job_id: u64,
    numbers: FrameNumbers,
)
    requires
        state.wf(),
        state.lifetime_frame_count < u64::MAX,
        state.current_job_id != Some(job_id),
    ensures
        state.after_frame(Some(job_id), numbers).frame_count == 1,
        state.after_frame(Some(job_id), numbers).current_job_id == Some(job_id),
        state.after_frame(Some(job_id), numbers) == state.fresh_print().after_frame(
            Some(job_id),
            numbers,
        ),
        verdict(1, numbers.score) == DetectionResult::Safe,
{
}

/// Where no job is known, frames never reset anything: they just add up.
pub proof fn law_no_job_no_reset(
    state: DetectionState,
    frames: Seq<(Option<u64>, FrameNumbers)>,
)
    requires
        state.wf(),
        state.lifetime_frame_count + frames.len() <= u64::MAX,
        forall|i: int| 0 <= i < frames.len() ==> (#[trigger] frames[i]).0 is None,
    ensures
        after_frames(state, frames).frame_count == state.frame_count + frames.len(),
        after_frames(state, frames).current_job_id == state.current_job_id,
    decreases frames.len(),
{
    if frames.len() > 0 {
        let rest = frames.drop_last();
        assert forall|i: int| 0 <= i < rest.len() implies (#[trigger] rest[i]).0 is None by {
            assert(rest[i] == frames[i]);
        }
        law_no_job_no_reset(state, rest);
        law_frames_are_counted(state, rest);
    }
}

/// The baseline averages over all frames until there are as many as its window holds, and over
/// that many from then on; so it never averages over none.
pub proof fn law_baseline_has_a_window(state: DetectionState, job_id: Option<u64>)
    requires
        state.lifetime_frame_count < u64::MAX,
    ensures
        1 <= state.inputs(job_id).divisor <= BASELINE_WINDOW,
        state.lifetime_frame_count < BASELINE_WINDOW ==> state.inputs(job_id).divisor
            == state.lifetime_frame_count + 1,
        state.lifetime_frame_count >= BASELINE_WINDOW ==> state.inputs(job_id).divisor
            == BASELINE_WINDOW,
{
}

/// A print counts as failing only at scores at which it would otherwise draw a warning.
pub proof fn law_failing_is_above_warning(score: Scalar)
    ensures
        score.spec_at_least(THRESHOLD_FAILING) ==> score.spec_at_least(THRESHOLD_WARNING),
{
    crate::scalar::law_magnitude_orders(THRESHOLD_WARNING, THRESHOLD_FAILING);
}

/// How bad a verdict is.
pub open spec fn severity(result: DetectionResult) -> int {
    match result {
        DetectionResult::Safe => 0,
        DetectionResult::Warning { .. } => 1,
        DetectionResult::Failing { .. } => 2,
    }
}

/// A frame never looks better for having scored higher.
pub proof fn law_verdict_rises_with_score(frame: nat, low: Scalar, high: Scalar)
    requires
        high.reaches(low),
    ensures
        severity(verdict(frame, low)) <= severity(verdict(frame, high)),
{
    law_failing_is_above_warning(high);
    crate::scalar::law_magnitude_orders(0, THRESHOLD_WARNING);
    crate::scalar::law_magnitude_orders(0, THRESHOLD_FAILING);
}

/// What is done with a detection state.
pub enum DetectionCall {
    /// `reset_per_print`
    Reset,
    /// `update` with the frame of a job, and the numbers computed for it.
    Frame { job_id: Option<u64>, numbers: FrameNumbers },
}

/// The state after a sequence of calls.
pub open spec fn after_calls(state: DetectionState, calls: Seq<DetectionCall>) -> DetectionState
    decreases calls.len(),
{
    if calls.len() == 0 {
        state
    } else {
        let before = after_calls(state, calls.drop_last());
        match calls.last() {
            DetectionCall::Reset => before.fresh_print(),
            DetectionCall::Frame { job_id, numbers } => before.after_frame(job_id, numbers),
        }
    }
}

/// The verdict that the last of a sequence of calls gives; a reset gives none, which is safe.
pub open spec fn call_verdict(state: DetectionState, calls: Seq<DetectionCall>) -> DetectionResult
    recommends
        calls.len() > 0,
{
    match calls.last() {
        DetectionCall::Reset => DetectionResult::Safe,
        DetectionCall::Frame { numbers, .. } => verdict(
            after_calls(state, calls).frame_count as nat,
            numbers.score,
        ),
    }
}

/// Whether two calls are the same but for a score, which in the second is no lower.
pub open spec fn scores_higher(low: DetectionCall, high: DetectionCall) -> bool {
    match (low, high) {
        (DetectionCall::Reset, DetectionCall::Reset) => true,
        (
            DetectionCall::Frame { job_id: i, numbers: m },
            DetectionCall::Frame { job_id: j, numbers: n },
        ) => i == j && m.ewm_mean == n.ewm_mean && m.baseline_mean == n.baseline_mean
            && n.score.reaches(m.score),
        _ => false,
    }
}

/// Of two watches over the same frames that differ in their sensitivity, and with it in their
/// scores, the one that scores higher never judges a frame as less severe, so it is never later
/// with its first warning. All along nothing but the sensitivity tells them apart, so the means
/// are computed from the same numbers in both.
pub proof fn law_higher_scores_are_never_milder(
    low: DetectionState,
    high: DetectionState,
    low_calls: Seq<DetectionCall>,
    high_calls: Seq<DetectionCall>,
    n: int,
)
    requires
        high == (DetectionState { sensitivity: high.sensitivity, ..low }),
        low_calls.len() == high_calls.len(),
        forall|i: int|
            0 <= i < low_calls.len() ==> scores_higher(#[trigger] low_calls[i], high_calls[i]),
        0 <= n <= low_calls.len(),
    ensures
        after_calls(high, high_calls.take(n)) == (DetectionState {
            sensitivity: high.sensitivity,
            ..after_calls(low, low_calls.take(n))
        }),
        after_calls(low, low_calls.take(n)).sensitivity == low.sensitivity,
        forall|job_id: Option<u64>| #[trigger]
            after_calls(high, high_calls.take(n)).inputs(job_id) == (FrameInputs {
                sensitivity: high.sensitivity,
                ..after_calls(low, low_calls.take(n)).inputs(job_id)
            }),
        n > 0 ==> severity(call_verdict(low, low_calls.take(n))) <= severity(
            call_verdict(high, high_calls.take(n)),
        ),
    decreases n,
{
    if n > 0 {
        law_higher_scores_are_never_milder(low, high, low_calls, high_calls, n - 1);
        assert(low_calls.take(n).drop_last() =~= low_calls.take(n - 1));
        assert(high_calls.take(n).drop_last() =~= high_calls.take(n - 1));
        assert(scores_higher(low_calls[n - 1], high_calls[n - 1]));
        match (low_calls[n - 1], high_calls[n - 1]) {
            (
                DetectionCall::Frame { numbers: a, .. },
                DetectionCall::Frame { numbers: b, .. },
            ) => {
                law_verdict_rises_with_score(
                    after_calls(low, low_calls.take(n)).frame_count as nat,
                    a.score,
                    b.score,
                );
            },
            _ => {},
        }
    }
}

/// Whether `score` is the score of a frame in a watch with this sensitivity, where the recent mean is
/// `above` the baseline: their product, as IEEE 754 has it, or no more than zero where the mean is
/// not above the baseline.
pub open spec fn is_score(above: Scalar, sensitivity: Scalar, score: Scalar) -> bool {
    if above.is_measure() {
        crate::scalar::is_product(above, sensitivity, score)
    } else {
        !score.is_measure() || score.bits == 0
    }
}

/// Whether two calls are about the same frame, with the scores that two sensitivities give it.
pub open spec fn same_frame(
    low: DetectionCall,
    high: DetectionCall,
    above: Scalar,
    low_sensitivity: Scalar,
    high_sensitivity: Scalar,
) -> bool {
    match (low, high) {
        (DetectionCall::Reset, DetectionCall::Reset) => true,
        (
            DetectionCall::Frame { job_id: i, numbers: m },
            DetectionCall::Frame { job_id: j, numbers: n },
        ) => i == j && m.ewm_mean == n.ewm_mean && m.baseline_mean == n.baseline_mean && is_score(
            above,
            low_sensitivity,
            m.score,
        ) && is_score(above, high_sensitivity, n.score),
        _ => false,
    }
}

/// Of two watches over the same frames and resets, the one with the higher sensitivity never judges
/// a frame as less severe; so where the other one has come to a warning, it has too, no later.
pub proof fn law_higher_sensitivity_is_never_milder(
    low: DetectionState,
    high: DetectionState,
    low_calls: Seq<DetectionCall>,
    high_calls: Seq<DetectionCall>,
    above: Seq<Scalar>,
    n: int,
)
    requires
        high == (DetectionState { sensitivity: high.sensitivity, ..low }),
        crate::config::is_sensitivity(low.sensitivity),
        crate::config::is_sensitivity(high.sensitivity),
        crate::scalar::magnitude(low.sensitivity.bits) <= crate::scalar::magnitude(
            high.sensitivity.bits,
        ),
        low_calls.len() == high_calls.len() == above.len(),
        forall|i: int|
            0 <= i < low_calls.len() ==> same_frame(
                #[trigger] low_calls[i],
                high_calls[i],
                above[i],
                low.sensitivity,
                high.sensitivity,
            ),
        0 < n <= low_calls.len(),
    ensures
        severity(call_verdict(low, low_calls.take(n))) <= severity(
            call_verdict(high, high_calls.take(n)),
        ),
        forall|i: int|
            0 < i <= n && call_verdict(low, #[trigger] low_calls.take(i)) != DetectionResult::Safe
                ==> call_verdict(high, high_calls.take(i)) != DetectionResult::Safe,
{
    assert forall|i: int| 0 <= i < low_calls.len() implies scores_higher(
        #[trigger] low_calls[i],
        high_calls[i],
    ) by {
        match (low_calls[i], high_calls[i]) {
            (
                DetectionCall::Frame { numbers: a, .. },
                DetectionCall::Frame { numbers: b, .. },
            ) => {
                if above[i].is_measure() {
                    crate::scalar::law_products_rise(
                        above[i],
                        low.sensitivity,
                        high.sensitivity,
                        a.score,
                        b.score,
                    );
                }
            },
            _ => {},
        }
    }
    law_higher_scores_are_never_milder(low, high, low_calls, high_calls, n);
    assert forall|i: int|
        0 < i <= n && call_verdict(low, #[trigger] low_calls.take(i))
            != DetectionResult::Safe implies call_verdict(high, high_calls.take(i))
        != DetectionResult::Safe by {
        law_higher_scores_are_never_milder(low, high, low_calls, high_calls, i);
    }
}

/// Past the first ten frames of a print the score alone decides, however long the print has run: it
/// is failing from 0.55 on, a warning from 0.35 up to that, and safe otherwise, also where the score
/// is no number. (The bounds are the doubles nearest to these, written as their bits.)
pub proof fn law_scores_decide_past_the_grace_period(frame: nat, score: Scalar)
    requires
        frame > 10,
    ensures
        verdict(frame, score) == (DetectionResult::Failing { score }) <==> 0x3FE1_9999_9999_999A
            <= score.bits <= 0x7FF0_0000_0000_0000,
        verdict(frame, score) == (DetectionResult::Warning { score }) <==> 0x3FD6_6666_6666_6666
            <= score.bits < 0x3FE1_9999_9999_999A,
        verdict(frame, score) == DetectionResult::Safe <==> !(0x3FD6_6666_6666_6666 <= score.bits
            <= 0x7FF0_0000_0000_0000),
{
    crate::scalar::law_comparisons_go_by_bits(score, THRESHOLD_WARNING);
    crate::scalar::law_comparisons_go_by_bits(score, THRESHOLD_FAILING);
}

/// A verdict does not age: two frames past the first ten with the same score get the same verdict,
/// and within the first ten there is none but safe.
pub proof fn law_verdicts_do_not_age(frame: nat, other: nat, score: Scalar)
    ensures
        frame > 10 && other > 10 ==> verdict(frame, score) == verdict(other, score),
        frame <= 10 ==> verdict(frame, score) == DetectionResult::Safe,
{
}

/// A frame of the job that was known, or of none that is known, is one more frame of the same print;
/// a frame of another job is the first of its print. Either way it is one more in all, its means are
/// the means from then on, and the sensitivity stays.
pub proof fn law_frames_belong_to_their_print(
    state: DetectionState,
    job_id: Option<u64>,
    numbers: FrameNumbers,
)
    requires
        state.wf(),
        state.lifetime_frame_count < u64::MAX,
    ensures
        job_id is None || job_id == state.current_job_id ==> state.after_frame(
            job_id,
            numbers,
        ).frame_count == state.frame_count + 1,
        job_id is Some && job_id != state.current_job_id ==> state.after_frame(
            job_id,
            numbers,
        ).frame_count == 1,
        job_id is None ==> state.after_frame(job_id, numbers).current_job_id
            == state.current_job_id,
        job_id is Some ==> state.after_frame(job_id, numbers).current_job_id == job_id,
        state.after_frame(job_id, numbers).lifetime_frame_count == state.lifetime_frame_count + 1,
        state.after_frame(job_id, numbers).ewm_mean == numbers.ewm_mean,
        state.after_frame(job_id, numbers).baseline_mean == numbers.baseline_mean,
        state.after_frame(job_id, numbers).sensitivity == state.sensitivity,
{
}

/// The numbers of a frame are computed from the means as they stand; only the recent mean starts
/// from zero, with a frame of another job than was known.
pub proof fn law_means_carry_over(state: DetectionState, job_id: Option<u64>)
    requires
        state.lifetime_frame_count < u64::MAX,
    ensures
        job_id is None || job_id == state.current_job_id ==> state.inputs(job_id).ewm_mean
            == state.ewm_mean,
        job_id is Some && job_id != state.current_job_id ==> state.inputs(job_id).ewm_mean.bits
            == 0,
        state.inputs(job_id).baseline_mean == state.baseline_mean,
        state.inputs(job_id).sensitivity == state.sensitivity,
        state.lifetime_frame_count < 7200 ==> state.inputs(job_id).divisor
            == state.lifetime_frame_count + 1,
        state.lifetime_frame_count >= 7200 ==> state.inputs(job_id).divisor == 7200,
{
}

/// A reset forgets the recent mean and the frames of the print; the baseline, the count of all
/// frames, the job and the sensitivity stay.
pub proof fn law_resets_keep_what_spans_prints(state: DetectionState)
    ensures
        state.fresh_print().ewm_mean.bits == 0,
        state.fresh_print().frame_count == 0,
        state.fresh_print().baseline_mean == state.baseline_mean,
        state.fresh_print().lifetime_frame_count == state.lifetime_frame_count,
        state.fresh_print().current_job_id == state.current_job_id,
        state.fresh_print().sensitivity == state.sensitivity,
{
}

/// Over a whole print: from a reset on, or from the first frame of another job on, the frames of one
/// job are numbered without a gap, and each past the tenth is judged by its score alone.
pub proof fn law_prints_are_judged_frame_by_frame(
    state: DetectionState,
    job_id: u64,
    frames: Seq<(Option<u64>, FrameNumbers)>,
)
    requires
        state.wf(),
        state.frame_count == 0 || state.current_job_id != Some(job_id),
        frames.len() > 0,
        state.lifetime_frame_count + frames.len() <= u64::MAX,
        forall|i: int| 0 <= i < frames.len() ==> (#[trigger] frames[i]).0 == Some(job_id),
    ensures
        after_frames(state, frames).frame_count == frames.len(),
        after_frames(state, frames).current_job_id == Some(job_id),
        frames.len() <= 10 ==> last_verdict(state, frames) == DetectionResult::Safe,
        frames.len() > 10 && 0x3FE1_9999_9999_999A <= frames.last().1.score.bits
            <= 0x7FF0_0000_0000_0000 ==> last_verdict(state, frames) == (DetectionResult::Failing {
            score: frames.last().1.score,
        }),
        frames.len() > 10 && 0x3FD6_6666_6666_6666 <= frames.last().1.score.bits
            < 0x3FE1_9999_9999_999A ==> last_verdict(state, frames) == (DetectionResult::Warning {
            score: frames.last().1.score,
        }),
    decreases frames.len(),
{
    let rest = frames.drop_last();
    assert(frames.last() == frames[frames.len() - 1]);
    if rest.len() > 0 {
        assert forall|i: int| 0 <= i < rest.len() implies (#[trigger] rest[i]).0 == Some(job_id) by {
            assert(rest[i] == frames[i]);
        }
        law_prints_are_judged_frame_by_frame(state, job_id, rest);
        law_frames_are_counted(state, rest);
        law_frames_belong_to_their_print(
            after_frames(state, rest),
            Some(job_id),
            frames.last().1,
        );
    } else {
        assert(after_frames(state, rest) == state);
        law_frames_belong_to_their_print(state, Some(job_id), frames.last().1);
    }
    if frames.len() > 10 {
        law_scores_decide_past_the_grace_period(frames.len(), frames.last().1.score);
    }
}

} // verus!
