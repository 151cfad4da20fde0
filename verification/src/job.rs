//! The exchange between the library and its host.
//!
//! The library decides and the host acts. A [`Job`] is one file on its way
//! out: it hands the host one [`Action`] at a time, the host carries it out
//! and answers, and the job says what comes next. A failure that the host
//! reports ends the job at once, with that failure as its result.

use crate::config::{Config, FileName, FileNameView};
use crate::disk::{FsStep, FsStepView};
use crate::emitter::{Emission, EmissionView, Presentation};
use crate::source_file::{emission_for, emit_file, emitter_for};
use vstd::prelude::*;

verus! {

/// What the host is asked to do.
#[derive(Debug, PartialEq, Eq)]
pub enum Action<E> {
    /// Read all of the file at `path` as text, and answer with the text.
    Read { path: String },
    /// Carry out the step on the file system.
    Step(FsStep),
    /// Render `presentation` of the file onto the sink, and answer with what
    /// the renderer reports on a follow-up. `changed` tells whether
    /// formatting changed the text at all.
    Render { presentation: Presentation, changed: bool },
    /// Nothing is left to do. This is the result for the caller: whether the
    /// sink needs a follow-up, or the failure that ended the job.
    Finish(Result<bool, E>),
}

/// The mathematical value of an [`Action`].
pub enum ActionView<E> {
    Read { path: Seq<char> },
    Step(FsStepView),
    Render { presentation: Presentation, changed: bool },
    Finish(Result<bool, E>),
}

impl<E> View for Action<E> {
    type V = ActionView<E>;

    open spec fn view(&self) -> ActionView<E> {
        match self {
            Action::Read { path } => ActionView::Read { path: path@ },
            Action::Step(step) => ActionView::Step(step@),
            Action::Render { presentation, changed } => ActionView::Render {
                presentation: *presentation,
                changed: *changed,
            },
            Action::Finish(result) => ActionView::Finish(*result),
        }
    }
}

/// What the host answers when an action has succeeded. A failed action is
/// answered with its error instead.
#[derive(Debug, PartialEq, Eq)]
pub enum Answer {
    /// The text that was read.
    Text(String),
    /// The step is done.
    Done,
    /// The presentation is on the sink, and the renderer reports whether the
    /// sink needs a follow-up.
    Rendered(bool),
}

/// The mathematical value of an [`Answer`].
pub enum AnswerView {
    Text(Seq<char>),
    Done,
    Rendered(bool),
}

impl View for Answer {
    type V = AnswerView;

    open spec fn view(&self) -> AnswerView {
        match self {
            Answer::Text(text) => AnswerView::Text(text@),
            Answer::Done => AnswerView::Done,
            Answer::Rendered(needs_followup) => AnswerView::Rendered(*needs_followup),
        }
    }
}

/// The mathematical value of what the host reports: an answer or a failure.
pub open spec fn reply_view<E>(reply: Result<Answer, E>) -> Result<AnswerView, E> {
    match reply {
        Ok(answer) => Ok(answer@),
        Err(error) => Err(error),
    }
}

/// Where a job stands.
pub enum Phase {
    /// The original text is being read.
    Reading,
    /// A step is being carried out; `remaining` come after it.
    Stepping { remaining: Seq<FsStepView>, needs_followup: bool },
    /// A presentation is being rendered.
    Rendering,
    /// The job has handed out its result.
    Finished,
}

/// The mathematical value of a [`Job`].
pub struct JobView {
    pub filename: FileNameView,
    pub formatted_text: Seq<char>,
    pub config: Config,
    pub phase: Phase,
}

/// Whether `answer` is an answer to the action that a job in `phase` has
/// handed out.
pub open spec fn answers(phase: Phase, answer: AnswerView) -> bool {
    match phase {
        Phase::Reading => answer is Text,
        Phase::Stepping { .. } => answer is Done,
        Phase::Rendering => answer is Rendered,
        Phase::Finished => false,
    }
}

/// Where a job stands once it has taken up an emission, and what it asks of
/// the host: the first step with the others remaining, the rendering, or
/// nothing more where no step is left.
pub open spec fn taken_up<E>(emission: EmissionView) -> (Phase, ActionView<E>) {
    match emission {
        EmissionView::Files { steps, needs_followup } => if steps.len() == 0 {
            (Phase::Finished, ActionView::Finish(Ok(needs_followup)))
        } else {
            (
                Phase::Stepping { remaining: steps.drop_first(), needs_followup },
                ActionView::Step(steps.first()),
            )
        },
        EmissionView::Sink { presentation, changed } => (
            Phase::Rendering,
            ActionView::Render { presentation, changed },
        ),
    }
}

/// Where a job stands after the host's report, and what it asks next.
///
/// A failure ends the job and is its result. The text that was read is
/// emitted as it is. A step that is done is followed by the next one, and
/// the last by the emitter's report. A rendering ends the job with the
/// renderer's report. A job that is finished takes no report, and what is
/// said of it here is of no consequence.
pub open spec fn advanced<E>(job: JobView, reply: Result<AnswerView, E>) -> (Phase, ActionView<E>) {
    match reply {
        Err(error) => (Phase::Finished, ActionView::Finish(Err(error))),
        Ok(answer) => match job.phase {
            Phase::Reading => taken_up(
                emission_for(answer->Text_0, job.filename, job.formatted_text, job.config),
            ),
            Phase::Stepping { remaining, needs_followup } => taken_up(
                EmissionView::Files { steps: remaining, needs_followup },
            ),
            Phase::Rendering => (Phase::Finished, ActionView::Finish(Ok(answer->Rendered_0))),
            Phase::Finished => (Phase::Finished, ActionView::Finish(Ok(false))),
        },
    }
}

/// A failure that the host reports ends the job at once, and is its
/// result: nothing is tried again and nothing is undone.
pub proof fn lemma_failure_ends_job<E>(job: JobView, error: E)
    ensures
        advanced(job, Err::<AnswerView, E>(error)) == (
            Phase::Finished,
            ActionView::Finish(Err(error)),
        ),
{
}

/// Where a job that has taken up `steps` stands once the first `done` of
/// them have succeeded, and what it asks then.
pub open spec fn after_steps<E>(steps: Seq<FsStepView>, needs_followup: bool, done: nat) -> (
    Phase,
    ActionView<E>,
) {
    taken_up(EmissionView::Files { steps: steps.skip(done as int), needs_followup })
}

/// A job hands out the steps of an emission in their order, each after the
/// one before it is done.
pub proof fn lemma_steps_in_order<E>(
    job: JobView,
    steps: Seq<FsStepView>,
    needs_followup: bool,
    done: nat,
)
    requires
        done < steps.len(),
        job.phase == after_steps::<E>(steps, needs_followup, done).0,
    ensures
        after_steps::<E>(steps, needs_followup, done).1 == ActionView::<E>::Step(
            steps[done as int],
        ),
        advanced::<E>(job, Ok(AnswerView::Done)) == after_steps::<E>(
            steps,
            needs_followup,
            done + 1,
        ),
{
    assert(steps.skip(done as int).first() == steps[done as int]);
    assert(steps.skip(done as int).drop_first() =~= steps.skip(done as int + 1));
}

/// Once all steps of an emission are done, the job ends with the emitter's
/// report.
pub proof fn lemma_steps_done<E>(steps: Seq<FsStepView>, needs_followup: bool)
    ensures
        after_steps::<E>(steps, needs_followup, steps.len()) == (
            Phase::Finished,
            ActionView::<E>::Finish(Ok(needs_followup)),
        ),
{
}

/// What a job keeps of where it stands.
enum Progress {
    Reading,
    Stepping { remaining: Vec<FsStep>, needs_followup: bool },
    Rendering,
    Finished,
}

impl View for Progress {
    type V = Phase;

    closed spec fn view(&self) -> Phase {
        match self {
            Progress::Reading => Phase::Reading,
            Progress::Stepping { remaining, needs_followup } => Phase::Stepping {
                remaining: remaining.deep_view(),
                needs_followup: *needs_followup,
            },
            Progress::Rendering => Phase::Rendering,
            Progress::Finished => Phase::Finished,
        }
    }
}

/// One file on its way out.
pub struct Job<'a> {
    filename: &'a FileName,
    formatted_text: &'a str,
    config: &'a Config,
    progress: Progress,
}

impl<'a> View for Job<'a> {
    type V = JobView;

    closed spec fn view(&self) -> JobView {
        JobView {
            filename: self.filename@,
            formatted_text: self.formatted_text@,
            config: *self.config,
            phase: self.progress@,
        }
    }
}

impl<'a> Job<'a> {
    /// A job that writes files has a file with a real path.
    #[verifier::type_invariant]
    spec fn well_formed(&self) -> bool {
        emitter_for(*self.config).writes_files() ==> self.filename@ is Real
    }

    /// A job for the file that is about to read its original text.
    pub(crate) fn reading(
        filename: &'a FileName,
        formatted_text: &'a str,
        config: &'a Config,
    ) -> (job: Job<'a>)
        requires
            emitter_for(*config).writes_files() ==> filename@ is Real,
        ensures
            job@ == (JobView {
                filename: filename@,
                formatted_text: formatted_text@,
                config: *config,
                phase: Phase::Reading,
            }),
    {
        Job { filename, formatted_text, config, progress: Progress::Reading }
    }

    /// Takes up an emission for the file: hands out its first step or its
    /// rendering, or the result where there is nothing to do.
    pub(crate) fn take_up<E>(
        filename: &'a FileName,
        formatted_text: &'a str,
        config: &'a Config,
        emission: Emission,
    ) -> (next: (Job<'a>, Action<E>))
        requires
            emitter_for(*config).writes_files() ==> filename@ is Real,
        ensures
            next.0@ == (JobView {
                filename: filename@,
                formatted_text: formatted_text@,
                config: *config,
                phase: taken_up::<E>(emission@).0,
            }),
            next.1@ == taken_up::<E>(emission@).1,
    {
        match emission {
            Emission::Files { steps, needs_followup } => {
                let mut remaining = steps;
                if remaining.len() == 0 {
                    (
                        Job { filename, formatted_text, config, progress: Progress::Finished },
                        Action::Finish(Ok(needs_followup)),
                    )
                } else {
                    let ghost all = remaining.deep_view();
                    let first = remaining.remove(0);
                    assert(remaining.deep_view() =~= all.drop_first());
                    assert(first@ == all.first());
                    (
                        Job {
                            filename,
                            formatted_text,
                            config,
                            progress: Progress::Stepping { remaining, needs_followup },
                        },
                        Action::Step(first),
                    )
                }
            },
            Emission::Sink { presentation, changed } => (
                Job { filename, formatted_text, config, progress: Progress::Rendering },
                Action::Render { presentation, changed },
            ),
        }
    }

    /// Whether the job has handed out its result.
    pub fn is_finished(&self) -> (finished: bool)
        ensures
            finished == (self@.phase is Finished),
    {
        match self.progress {
            Progress::Finished => true,
            _ => false,
        }
    }

    /// Whether `answer` is an answer to the action that the job has handed
    /// out last.
    pub fn awaits(&self, answer: &Answer) -> (fits: bool)
        ensures
            fits == answers(self@.phase, answer@),
    {
        match (&self.progress, answer) {
            (Progress::Reading, Answer::Text(_)) => true,
            (Progress::Stepping { .. }, Answer::Done) => true,
            (Progress::Rendering, Answer::Rendered(_)) => true,
            _ => false,
        }
    }

    /// Takes the host's report on the action that was handed out last, and
    /// hands out the next.
    ///
    /// The job must not be finished, and an answer must be one to that
    /// action.
    pub fn advance<E>(self, reply: Result<Answer, E>) -> (next: (Job<'a>, Action<E>))
        requires
            self@.phase !is Finished,
            reply matches Ok(answer) ==> answers(self@.phase, answer@),
        ensures
            next.0@ == (JobView { phase: advanced(self@, reply_view(reply)).0, ..self@ }),
            next.1@ == advanced(self@, reply_view(reply)).1,
    {
        proof {
            use_type_invariant(&self);
        }
        let Job { filename, formatted_text, config, progress } = self;
        match reply {
            Err(error) => (
                Job { filename, formatted_text, config, progress: Progress::Finished },
                Action::Finish(Err(error)),
            ),
            Ok(answer) => match progress {
                Progress::Reading => {
                    let original_text = match answer {
                        Answer::Text(text) => text,
                        _ => vstd::pervasive::unreached(),
                    };
                    let emission = emit_file(
                        original_text.as_str(),
                        filename,
                        formatted_text,
                        config,
                    );
                    Job::take_up(filename, formatted_text, config, emission)
                },
                Progress::Stepping { remaining, needs_followup } => Job::take_up(
                    filename,
                    formatted_text,
                    config,
                    Emission::Files { steps: remaining, needs_followup },
                ),
                Progress::Rendering => {
                    let needs_followup = match answer {
                        Answer::Rendered(needs_followup) => needs_followup,
                        _ => vstd::pervasive::unreached(),
                    };
                    (
                        Job { filename, formatted_text, config, progress: Progress::Finished },
                        Action::Finish(Ok(needs_followup)),
                    )
                },
                Progress::Finished => vstd::pervasive::unreached(),
            },
        }
    }
}

} // verus!
