//! The control flow of the denoising sampler.
//!
//! Sampling runs a fixed number of steps, one strictly after the other. Each
//! step runs the denoising model twice, on the conditional and on the
//! unconditional context, combines the two predictions by classifier-free
//! guidance (`uncond + scale * (cond - uncond)`) and lets the scheduler update
//! the latent. The tensor work is the driver's; what to do next is decided
//! here: the driver performs the [`Action`] it is given and reports back with
//! an [`Event`].

use vstd::prelude::*;

verus! {

/// What the sampler needs to know of a prediction: its shape and the device
/// it resides on.
#[derive(Clone, Copy, Debug, PartialEq, Eq, Structural)]
pub struct Placement {
    pub batch: usize,
    pub channels: usize,
    pub height: usize,
    pub width: usize,
    pub device: usize,
}

/// Why sampling was given up.
#[derive(Clone, Copy, Debug, PartialEq, Eq, Structural)]
pub enum SamplerError {
    /// The two predictions of one step differ in shape.
    ShapeMismatch,
    /// The two predictions of one step reside on different devices.
    DeviceMismatch,
    /// The driver reported something other than what it was asked for, or
    /// reported after the run had ended.
    UnexpectedEvent,
}

/// Where a run stands.
#[derive(Clone, Copy, Debug, PartialEq, Eq, Structural)]
pub enum Stage {
    /// Waiting for the conditional prediction of `step`.
    Conditional { step: usize },
    /// Waiting for the unconditional prediction of `step`.
    Unconditional { step: usize, conditional: Placement },
    /// Waiting for the guided prediction of `step`.
    Guidance { step: usize },
    /// Waiting for the scheduler's update of the latent at `step`.
    Update { step: usize },
    /// Every step is done; the latent is final.
    Finished,
    /// The run was given up.
    Failed,
}

/// What the driver does next.
#[derive(Clone, Copy, Debug, PartialEq, Eq, Structural)]
pub enum Action {
    /// Run the model on the current latent under the conditional context.
    PredictConditional { step: usize },
    /// Run the model on the current latent under the unconditional context.
    PredictUnconditional { step: usize },
    /// Combine the two predictions of this step by guidance.
    Guide { step: usize },
    /// Update the latent from the guided prediction.
    Update { step: usize },
    /// Hand the final latent to the decoder.
    Decode,
    /// Stop; nothing of the run is kept.
    Abort { reason: SamplerError },
}

/// What the driver reports.
#[derive(Clone, Copy, Debug, PartialEq, Eq, Structural)]
pub enum Event {
    /// The model returned a prediction.
    Predicted { placement: Placement },
    /// The two predictions were combined.
    Guided,
    /// The latent was updated.
    Updated,
}

/// A sampling run of `n_steps` steps.
#[derive(Clone, Copy, Debug, PartialEq, Eq, Structural)]
pub struct Sampler {
    pub n_steps: usize,
    pub stage: Stage,
}

/// The step a stage belongs to, if it belongs to one.
pub open spec fn stage_step(stage: Stage) -> Option<usize> {
    match stage {
        Stage::Conditional { step } => Some(step),
        Stage::Unconditional { step, .. } => Some(step),
        Stage::Guidance { step } => Some(step),
        Stage::Update { step } => Some(step),
        Stage::Finished => None,
        Stage::Failed => None,
    }
}

/// The stage and action with which a run of `n_steps` steps begins.
pub open spec fn start_spec(n_steps: usize) -> (Sampler, Action) {
    if n_steps == 0 {
        (Sampler { n_steps, stage: Stage::Finished }, Action::Decode)
    } else {
        (
            Sampler { n_steps, stage: Stage::Conditional { step: 0 } },
            Action::PredictConditional { step: 0 },
        )
    }
}

/// Why two predictions of one step cannot be combined, if they cannot.
pub open spec fn mismatch(conditional: Placement, unconditional: Placement) -> Option<
    SamplerError,
> {
    if conditional.batch != unconditional.batch || conditional.channels != unconditional.channels
        || conditional.height != unconditional.height || conditional.width != unconditional.width {
        Some(SamplerError::ShapeMismatch)
    } else if conditional.device != unconditional.device {
        Some(SamplerError::DeviceMismatch)
    } else {
        None
    }
}

/// The transition function: the stage a run moves to on an event, and what the
/// driver does next.
pub open spec fn advance_spec(s: Sampler, event: Event) -> (Sampler, Action) {
    let failed = (
        Sampler { n_steps: s.n_steps, stage: Stage::Failed },
        Action::Abort { reason: SamplerError::UnexpectedEvent },
    );
    match (s.stage, event) {
        (Stage::Conditional { step }, Event::Predicted { placement }) => (
            Sampler { n_steps: s.n_steps, stage: Stage::Unconditional { step, conditional: placement } },
            Action::PredictUnconditional { step },
        ),
        (Stage::Unconditional { step, conditional }, Event::Predicted { placement }) => match mismatch(
            conditional,
            placement,
        ) {
            Some(reason) => (
                Sampler { n_steps: s.n_steps, stage: Stage::Failed },
                Action::Abort { reason },
            ),
            None => (
                Sampler { n_steps: s.n_steps, stage: Stage::Guidance { step } },
                Action::Guide { step },
            ),
        },
        (Stage::Guidance { step }, Event::Guided) => (
            Sampler { n_steps: s.n_steps, stage: Stage::Update { step } },
            Action::Update { step },
        ),
        (Stage::Update { step }, Event::Updated) => if step + 1 < s.n_steps {
            (
                Sampler { n_steps: s.n_steps, stage: Stage::Conditional { step: (step + 1) as usize } },
                Action::PredictConditional { step: (step + 1) as usize },
            )
        } else {
            (Sampler { n_steps: s.n_steps, stage: Stage::Finished }, Action::Decode)
        },
        _ => failed,
    }
}

impl Sampler {
    /// A running stage belongs to a step of this run.
    pub open spec fn wf(self) -> bool {
        stage_step(self.stage) matches Some(step) ==> step < self.n_steps
    }

    /// Begins a run of `n_steps` steps. With no step to run, the latent is
    /// decoded as it is.
    pub fn start(n_steps: usize) -> (r: (Sampler, Action))
        ensures
            r == start_spec(n_steps),
            r.0.wf(),
    {
        if n_steps == 0 {
            (Sampler { n_steps, stage: Stage::Finished }, Action::Decode)
        } else {
            (
                Sampler { n_steps, stage: Stage::Conditional { step: 0 } },
                Action::PredictConditional { step: 0 },
            )
        }
    }

    /// Takes the driver's report and says what comes next. A mismatch between
    /// the two predictions of a step, or a report that was not asked for, ends
    /// the run for good.
    pub fn advance(self, event: Event) -> (r: (Sampler, Action))
        requires
            self.wf(),
        ensures
            r == advance_spec(self, event),
            r.0.wf(),
            r.0.n_steps == self.n_steps,
    {
        let n_steps = self.n_steps;
        match (self.stage, event) {
            (Stage::Conditional { step }, Event::Predicted { placement }) => (
                Sampler { n_steps, stage: Stage::Unconditional { step, conditional: placement } },
                Action::PredictUnconditional { step },
            ),
            (Stage::Unconditional { step, conditional }, Event::Predicted { placement }) => {
                if conditional.batch != placement.batch || conditional.channels
                    != placement.channels || conditional.height != placement.height
                    || conditional.width != placement.width {
                    (
                        Sampler { n_steps, stage: Stage::Failed },
                        Action::Abort { reason: SamplerError::ShapeMismatch },
                    )
                } else if conditional.device != placement.device {
                    (
                        Sampler { n_steps, stage: Stage::Failed },
                        Action::Abort { reason: SamplerError::DeviceMismatch },
                    )
                } else {
                    (Sampler { n_steps, stage: Stage::Guidance { step } }, Action::Guide { step })
                }
            },
            (Stage::Guidance { step }, Event::Guided) => (
                Sampler { n_steps, stage: Stage::Update { step } },
                Action::Update { step },
            ),
            (Stage::Update { step }, Event::Updated) => {
                if step + 1 < n_steps {
                    (
                        Sampler { n_steps, stage: Stage::Conditional { step: step + 1 } },
                        Action::PredictConditional { step: step + 1 },
                    )
                } else {
                    (Sampler { n_steps, stage: Stage::Finished }, Action::Decode)
                }
            },
            _ => (
                Sampler { n_steps, stage: Stage::Failed },
                Action::Abort { reason: SamplerError::UnexpectedEvent },
            ),
        }
    }

    /// Whether the run has ended, one way or the other.
    pub fn is_over(&self) -> (r: bool)
        ensures
            r == (self.stage == Stage::Finished || self.stage == Stage::Failed),
    {
        match self.stage {
            Stage::Finished => true,
            Stage::Failed => true,
            _ => false,
        }
    }
}

/// The four reports of one step in which both predictions have the placement
/// `p`.
pub open spec fn step_events(p: Placement) -> Seq<Event> {
    seq![
        Event::Predicted { placement: p },
        Event::Predicted { placement: p },
        Event::Guided,
        Event::Updated,
    ]
}

/// The run after the driver has reported `events` in turn.
pub open spec fn run_spec(s: Sampler, events: Seq<Event>) -> Sampler
    decreases events.len(),
{
    if events.len() == 0 {
        s
    } else {
        run_spec(advance_spec(s, events[0]).0, events.subrange(1, events.len() as int))
    }
}

/// The reports of `n` steps, step `i` with placement `p(i)` for both of its
/// predictions.
pub open spec fn faithful_events(p: spec_fn(int) -> Placement, n: nat) -> Seq<Event>
    decreases n,
{
    if n == 0 {
        Seq::empty()
    } else {
        faithful_events(p, (n - 1) as nat) + step_events(p(n - 1))
    }
}

/// Reporting `a` and then `b` is reporting `a + b`.
pub proof fn lemma_run_concat(s: Sampler, a: Seq<Event>, b: Seq<Event>)
    ensures
        run_spec(s, a + b) == run_spec(run_spec(s, a), b),
    decreases a.len(),
{
    if a.len() == 0 {
        assert(a + b =~= b);
    } else {
        let rest = a.subrange(1, a.len() as int);
        assert((a + b).subrange(1, (a + b).len() as int) =~= rest + b);
        assert((a + b)[0] == a[0]);
        lemma_run_concat(advance_spec(s, a[0]).0, rest, b);
    }
}

/// One step whose two predictions agree takes a run from the start of that
/// step to the start of the next, or to the end after the last.
pub proof fn lemma_step_advances(n_steps: usize, step: usize, p: Placement)
    requires
        step < n_steps,
    ensures
        run_spec(Sampler { n_steps, stage: Stage::Conditional { step } }, step_events(p)).stage == (
        if step + 1 < n_steps {
            Stage::Conditional { step: (step + 1) as usize }
        } else {
            Stage::Finished
        }),
        run_spec(Sampler { n_steps, stage: Stage::Conditional { step } }, step_events(p)).n_steps
            == n_steps,
{
    let s0 = Sampler { n_steps, stage: Stage::Conditional { step } };
    let e = step_events(p);
    let s1 = advance_spec(s0, e[0]).0;
    let s2 = advance_spec(s1, e[1]).0;
    let s3 = advance_spec(s2, e[2]).0;
    let s4 = advance_spec(s3, e[3]).0;
    let e1 = e.subrange(1, 4);
    let e2 = e1.subrange(1, 3);
    let e3 = e2.subrange(1, 2);
    let e4 = e3.subrange(1, 1);
    assert(e1[0] == e[1] && e2[0] == e[2] && e3[0] == e[3]);
    assert(run_spec(s4, e4) == s4);
    assert(run_spec(s3, e3) == s4);
    assert(run_spec(s2, e2) == s4);
    assert(run_spec(s1, e1) == s4);
    assert(run_spec(s0, e) == s4);
}

/// A run in which the two predictions of every step agree is, after the
/// reports of its first `done` steps, at the start of step `done`, and it is
/// finished after the reports of all its steps: four reports per step and no
/// step skipped or repeated.
pub proof fn lemma_faithful_run(n_steps: usize, p: spec_fn(int) -> Placement, done: nat)
    requires
        done <= n_steps,
    ensures
        faithful_events(p, done).len() == 4 * done,
        run_spec(start_spec(n_steps).0, faithful_events(p, done)) == (Sampler {
            n_steps,
            stage: if done < n_steps {
                Stage::Conditional { step: done as usize }
            } else {
                Stage::Finished
            },
        }),
    decreases done,
{
    if done == 0 {
    } else {
        let before = (done - 1) as nat;
        lemma_faithful_run(n_steps, p, before);
        lemma_run_concat(start_spec(n_steps).0, faithful_events(p, before), step_events(p(done - 1)));
        lemma_step_advances(n_steps, before as usize, p(done - 1));
    }
}

/// A run that has failed stays failed whatever is reported.
pub proof fn lemma_failure_is_final(s: Sampler, events: Seq<Event>)
    requires
        s.stage == Stage::Failed,
    ensures
        run_spec(s, events).stage == Stage::Failed,
    decreases events.len(),
{
    if events.len() > 0 {
        lemma_failure_is_final(advance_spec(s, events[0]).0, events.subrange(1, events.len() as int));
    }
}

} // verus!
