//! The hill-climbing search as a state machine.
//!
//! The machine holds the best trajectory found so far and decides what is
//! tried next, what is kept and when the best is written out. Its caller
//! owns the simulation: it replays the frames that the machine names, scores
//! what it observes and hands the score back.

use vstd::prelude::*;
use crate::bruteforce_params::BruteforceConfig;
use crate::bruteforcer::{is_perturbation, perturb_inputs_simple, spec_should_perturb, InputFrame};
use crate::ieee::{Double, Single};

verus! {

/// Where a run stands.
#[derive(Clone, Copy, Debug, PartialEq, Eq, Structural)]
pub enum Phase {
    /// Nothing has been replayed. The caller replays the frames before the
    /// window and captures the snapshot that every iteration starts from.
    Init,
    /// The snapshot is taken. The caller replays the window of the given
    /// trajectory and scores it.
    Baseline,
    /// The baseline is scored. Each iteration restores the snapshot, replays
    /// the window of a perturbed copy of the best trajectory and scores it.
    Iterate,
}

/// Why a run cannot be set up.
#[derive(Clone, Copy, Debug, PartialEq, Eq, Structural)]
pub enum SearchError {
    /// The frame window does not lie inside the trajectory, or ends before it
    /// starts.
    WindowOutOfRange,
    /// The checkpoint interval is zero.
    ZeroCheckpointInterval,
}

/// What the caller reports to the machine.
#[derive(Debug)]
pub enum Event {
    /// The run begins.
    Begin,
    /// The window of the candidate is replayed and scored. `samples` holds one
    /// uniform sample from `[0, 1)` per frame of the window, for the next
    /// candidate.
    Scored { score: Double, samples: Vec<Single> },
}

/// What the machine asks of its caller.
#[derive(Clone, Copy, Debug, PartialEq, Eq, Structural)]
pub enum Action {
    /// Replay the first `frames` frames of the candidate, capture the snapshot,
    /// then replay the window of the candidate and score it.
    Prepare { frames: u32 },
    /// Write the best trajectory out if `checkpoint` is set; then restore the
    /// snapshot, replay the window of the candidate and score it. `improved`
    /// says whether the score just reported has become the best.
    Evaluate { improved: bool, checkpoint: bool },
    /// The event does not fit the phase, brings too few samples or would
    /// overflow the iteration count. Nothing has changed.
    Refused,
}

/// What the caller does after an iteration.
#[derive(Clone, Copy, Debug, PartialEq, Eq, Structural)]
pub struct Outcome {
    /// The candidate scored strictly below the best so far and has replaced it.
    pub improved: bool,
    /// The best trajectory is due to be written out.
    pub checkpoint: bool,
}

/// The better of the best score so far and a new one. Only a strictly lower
/// score replaces the best: a tie keeps it, and so does a score that is not a
/// number.
pub open spec fn accepted(best: Double, score: Double) -> Double {
    if score.spec_lt(best) {
        score
    } else {
        best
    }
}

/// The best score after a run of iterations that scored `scores`, in order.
pub open spec fn best_after(best: Double, scores: Seq<Double>) -> Double
    decreases scores.len(),
{
    if scores.len() == 0 {
        best
    } else {
        accepted(best_after(best, scores.drop_last()), scores.last())
    }
}

/// However long the search runs and whatever it draws, the best score never
/// rises: after any run of iterations it is the score it was or lies strictly
/// below it.
pub proof fn lemma_best_score_never_rises(best: Double, scores: Seq<Double>)
    ensures
        best.not_below(best_after(best, scores)),
    decreases scores.len(),
{
    if scores.len() > 0 {
        lemma_best_score_never_rises(best, scores.drop_last());
    }
}

/// One more iteration can only keep or lower the best score of a run.
pub proof fn lemma_best_score_monotonic(best: Double, scores: Seq<Double>, score: Double)
    ensures
        best_after(best, scores).not_below(best_after(best, scores.push(score))),
{
    assert(scores.push(score).drop_last() =~= scores);
}

/// Whether two trajectories agree on every frame outside the window.
pub open spec fn same_outside(
    a: Seq<InputFrame>,
    b: Seq<InputFrame>,
    start_frame: u32,
    end_frame: u32,
) -> bool {
    a.len() == b.len() && forall|i: int|
        0 <= i < a.len() && !(start_frame <= i < end_frame) ==> a[i] == b[i]
}

/// Whether `candidate` can be proposed from `best`: equal to it outside the
/// window, and inside the window a perturbation of it, frame by frame, under
/// the samples given.
pub open spec fn is_proposal(
    candidate: Seq<InputFrame>,
    best: Seq<InputFrame>,
    config: BruteforceConfig,
    samples: Seq<Single>,
) -> bool {
    &&& same_outside(candidate, best, config.start_frame, config.end_frame)
    &&& forall|i: int|
        config.start_frame <= i < config.end_frame ==> is_perturbation(
            #[trigger] candidate[i],
            best[i],
            config.perm_size,
            spec_should_perturb(samples[i - config.start_frame], config.perm_freq),
        )
}

/// A candidate that was rejected outright, and so scored positive infinity,
/// never replaces the best.
pub proof fn lemma_rejected_candidate_is_not_kept(best: Double)
    ensures
        accepted(best, Double::spec_infinity()) == best,
{
}

/// The state of one run.
#[derive(Debug)]
pub struct Search {
    pub config: BruteforceConfig,
    pub phase: Phase,
    /// The best trajectory so far.
    pub best: Vec<InputFrame>,
    /// Its score; positive infinity until the baseline is scored.
    pub best_score: Double,
    /// The trajectory to replay next.
    pub candidate: Vec<InputFrame>,
    /// The iterations recorded so far.
    pub count: u64,
}

impl Search {
    /// The window lies inside the trajectory, the candidate differs from the
    /// best inside the window at most, and the checkpoint interval is positive.
    pub open spec fn wf(&self) -> bool {
        &&& self.config.start_frame <= self.config.end_frame <= self.best.len()
        &&& self.config.checkpoint_interval > 0
        &&& same_outside(
            self.candidate@,
            self.best@,
            self.config.start_frame,
            self.config.end_frame,
        )
    }

    /// Whether a configuration fits a trajectory of `len` frames, and what is
    /// wrong where it does not.
    pub open spec fn spec_check(config: BruteforceConfig, len: nat) -> Result<(), SearchError> {
        if !(config.start_frame <= config.end_frame <= len) {
            Err(SearchError::WindowOutOfRange)
        } else if config.checkpoint_interval == 0 {
            Err(SearchError::ZeroCheckpointInterval)
        } else {
            Ok(())
        }
    }

    /// Sets up a run on the given trajectory, which is the first candidate and,
    /// until something better is found, the best.
    pub fn new(config: BruteforceConfig, trajectory: Vec<InputFrame>) -> (r: Result<Search, SearchError>)
        ensures
            match r {
                Ok(s) => {
                    &&& Self::spec_check(config, trajectory@.len()) is Ok
                    &&& s.wf()
                    &&& s.config == config
                    &&& s.phase == Phase::Init
                    &&& s.best@ == trajectory@
                    &&& s.candidate@ == trajectory@
                    &&& s.best_score == Double::spec_infinity()
                    &&& s.count == 0
                },
                Err(e) => Self::spec_check(config, trajectory@.len()) == Err::<(), SearchError>(e),
            },
    {
        if config.start_frame > config.end_frame || config.end_frame as usize > trajectory.len() {
            return Err(SearchError::WindowOutOfRange);
        }
        if config.checkpoint_interval == 0 {
            return Err(SearchError::ZeroCheckpointInterval);
        }
        let candidate: Vec<InputFrame> = copy_frames(&trajectory);
        Ok(
            Search {
                config,
                phase: Phase::Init,
                best: trajectory,
                best_score: Double::infinity(),
                candidate,
                count: 0,
            },
        )
    }

    /// Leaves `Init`. Returns the number of frames, counted from the first,
    /// that the caller replays before it captures the snapshot: the snapshot is
    /// taken exactly at the start of the window.
    pub fn start(&mut self) -> (r: u32)
        requires
            old(self).wf(),
            old(self).phase == Phase::Init,
        ensures
            r == old(self).config.start_frame,
            *final(self) == (Search { phase: Phase::Baseline, ..*old(self) }),
            final(self).wf(),
    {
        self.phase = Phase::Baseline;
        self.config.start_frame
    }

    /// Leaves `Baseline`: records the score of the given trajectory as the best
    /// so far.
    pub fn baseline(&mut self, score: Double)
        requires
            old(self).wf(),
            old(self).phase == Phase::Baseline,
        ensures
            *final(self) == (Search { phase: Phase::Iterate, best_score: score, ..*old(self) }),
            final(self).wf(),
    {
        self.best_score = score;
        self.phase = Phase::Iterate;
    }

    /// Makes the next candidate: a copy of the best trajectory, perturbed
    /// inside the window. `samples` holds one uniform sample from `[0, 1)` per
    /// frame of the window.
    pub fn propose(&mut self, samples: &Vec<Single>)
        requires
            old(self).wf(),
            old(self).phase == Phase::Iterate,
            samples.len() >= old(self).config.end_frame - old(self).config.start_frame,
        ensures
            final(self).wf(),
            final(self).config == old(self).config,
            final(self).phase == old(self).phase,
            final(self).best == old(self).best,
            final(self).best_score == old(self).best_score,
            final(self).count == old(self).count,
            is_proposal(final(self).candidate@, old(self).best@, old(self).config, samples@),
    {
        let mut candidate: Vec<InputFrame> = copy_frames(&self.best);
        perturb_inputs_simple(
            &mut candidate,
            self.config.start_frame,
            self.config.end_frame,
            self.config.perm_size,
            self.config.perm_freq,
            samples,
        );
        self.candidate = candidate;
    }

    /// Records the score of the candidate.
    ///
    /// The candidate replaces the best trajectory if and only if it scored
    /// strictly below the best score. Every `checkpoint_interval` iterations
    /// the best trajectory is due to be written out, whether or not this
    /// iteration improved it.
    pub fn record(&mut self, score: Double) -> (r: Outcome)
        requires
            old(self).wf(),
            old(self).phase == Phase::Iterate,
            old(self).count < u64::MAX,
        ensures
            final(self).wf(),
            final(self).config == old(self).config,
            final(self).phase == old(self).phase,
            final(self).candidate == old(self).candidate,
            r.improved == score.spec_lt(old(self).best_score),
            final(self).best_score == accepted(old(self).best_score, score),
            final(self).best@ == if r.improved {
                old(self).candidate@
            } else {
                old(self).best@
            },
            final(self).count == old(self).count + 1,
            r.checkpoint == (final(self).count % old(self).config.checkpoint_interval == 0),
            old(self).best_score.not_below(final(self).best_score),
            same_outside(
                final(self).best@,
                old(self).best@,
                old(self).config.start_frame,
                old(self).config.end_frame,
            ),
    {
        let improved: bool = score.lt(self.best_score);
        if improved {
            self.best_score = score;
            self.best = copy_frames(&self.candidate);
        }
        self.count = self.count + 1;
        Outcome { improved, checkpoint: self.count % self.config.checkpoint_interval == 0 }
    }
}

impl Search {
    /// Whether the machine takes up a score: it is past `Init`, the event
    /// brings a sample for every frame of the window, and the iteration count
    /// has room for one more.
    pub open spec fn takes_score(&self, samples: Seq<Single>) -> bool {
        &&& self.phase != Phase::Init
        &&& samples.len() >= self.config.end_frame - self.config.start_frame
        &&& self.phase == Phase::Iterate ==> self.count < u64::MAX
    }

    /// Moves the machine by one event and says what the caller does next.
    ///
    /// `Begin` takes the machine from `Init` to `Baseline`. The first score
    /// becomes the baseline and takes it to `Iterate`; every later score is
    /// recorded as by [`Search::record`]. After either, the next candidate is
    /// made from the best trajectory as by [`Search::propose`]. Any other event
    /// is refused and changes nothing.
    pub fn step(&mut self, event: Event) -> (action: Action)
        requires
            old(self).wf(),
        ensures
            final(self).wf(),
            final(self).config == old(self).config,
            match event {
                Event::Begin => if old(self).phase == Phase::Init {
                    &&& action == (Action::Prepare { frames: old(self).config.start_frame })
                    &&& *final(self) == (Search { phase: Phase::Baseline, ..*old(self) })
                } else {
                    action == Action::Refused && *final(self) == *old(self)
                },
                Event::Scored { score, samples } => if !old(self).takes_score(samples@) {
                    action == Action::Refused && *final(self) == *old(self)
                } else if old(self).phase == Phase::Baseline {
                    &&& action == (Action::Evaluate { improved: false, checkpoint: false })
                    &&& final(self).phase == Phase::Iterate
                    &&& final(self).best_score == score
                    &&& final(self).best == old(self).best
                    &&& final(self).count == old(self).count
                    &&& is_proposal(
                        final(self).candidate@,
                        final(self).best@,
                        old(self).config,
                        samples@,
                    )
                } else {
                    &&& action == (Action::Evaluate {
                        improved: score.spec_lt(old(self).best_score),
                        checkpoint: (old(self).count + 1) % (
                        old(self).config.checkpoint_interval as int) == 0,
                    })
                    &&& final(self).phase == Phase::Iterate
                    &&& final(self).best_score == accepted(old(self).best_score, score)
                    &&& final(self).best@ == if score.spec_lt(old(self).best_score) {
                        old(self).candidate@
                    } else {
                        old(self).best@
                    }
                    &&& final(self).count == old(self).count + 1
                    &&& is_proposal(
                        final(self).candidate@,
                        final(self).best@,
                        old(self).config,
                        samples@,
                    )
                },
            },
    {
        match event {
            Event::Begin => {
                if self.phase == Phase::Init {
                    let frames: u32 = self.start();
                    Action::Prepare { frames }
                } else {
                    Action::Refused
                }
            },
            Event::Scored { score, samples } => {
                let window: u32 = self.config.end_frame - self.config.start_frame;
                if self.phase == Phase::Init || samples.len() < window as usize {
                    Action::Refused
                } else if self.phase == Phase::Baseline {
                    self.baseline(score);
                    self.propose(&samples);
                    Action::Evaluate { improved: false, checkpoint: false }
                } else if self.count == u64::MAX {
                    Action::Refused
                } else {
                    let outcome: Outcome = self.record(score);
                    self.propose(&samples);
                    Action::Evaluate { improved: outcome.improved, checkpoint: outcome.checkpoint }
                }
            },
        }
    }
}

/// Copies a trajectory frame by frame.
fn copy_frames(frames: &Vec<InputFrame>) -> (r: Vec<InputFrame>)
    ensures
        r@ == frames@,
{
    let copy: Vec<InputFrame> = frames.clone();
    assert(copy@ =~= frames@);
    copy
}

} // verus!
