//! A batch of files on its way out, with the frame of the report around it.

use crate::config::{Config, EmitMode, FileNameView};
use crate::job::{
    advanced, answers, reply_view, Action, ActionView, Answer, AnswerView, Job, JobView, Phase,
};
use crate::source_file::{write_file, FileRecord};
use vstd::prelude::*;

verus! {

/// What the host is asked to do for a batch.
#[derive(Debug, PartialEq, Eq)]
pub enum BatchAction<E> {
    /// Write the header of the report to the sink.
    Header,
    /// Do `action` for the file at `index` of the batch.
    File { index: usize, action: Action<E> },
    /// Write the footer of the report to the sink.
    Footer,
    /// Nothing is left to do. This is the result for the caller: success, or
    /// the failure that ended the batch.
    Finish(Result<(), E>),
}

/// The mathematical value of a [`BatchAction`].
pub enum BatchActionView<E> {
    Header,
    File { index: nat, action: ActionView<E> },
    Footer,
    Finish(Result<(), E>),
}

impl<E> View for BatchAction<E> {
    type V = BatchActionView<E>;

    open spec fn view(&self) -> BatchActionView<E> {
        match self {
            BatchAction::Header => BatchActionView::Header,
            BatchAction::File { index, action } => BatchActionView::File {
                index: *index as nat,
                action: action@,
            },
            BatchAction::Footer => BatchActionView::Footer,
            BatchAction::Finish(result) => BatchActionView::Finish(*result),
        }
    }
}

/// Where a batch stands.
pub enum BatchPhase {
    /// The header is being written.
    Header,
    /// The file at `index` is on its way out, as `job` says.
    File { index: nat, job: JobView },
    /// The footer is being written.
    Footer,
    /// The batch has handed out its result.
    Finished,
}

/// The mathematical value of a [`Batch`].
pub struct BatchView {
    pub files: Seq<(FileNameView, Seq<char>)>,
    pub config: Config,
    pub phase: BatchPhase,
}

/// Whether a run under `config` frames its output with a header and a
/// footer: the checkstyle report does, and nothing else.
pub open spec fn is_framed(config: Config) -> bool {
    config.emit_mode() == EmitMode::Checkstyle
}

/// Whether `answer` is an answer to the action that a batch in `phase` has
/// handed out.
pub open spec fn batch_answers(phase: BatchPhase, answer: AnswerView) -> bool {
    match phase {
        BatchPhase::Header => answer is Done,
        BatchPhase::File { job, .. } => answers(job.phase, answer),
        BatchPhase::Footer => answer is Done,
        BatchPhase::Finished => false,
    }
}

/// Where a batch stands when it turns to the file at `index`, and what it
/// asks of the host. No registry is at hand for a batch, so the file is to
/// be read. After the last file comes the footer of a framed run, and the
/// end of any other.
pub open spec fn turned_to<E>(
    files: Seq<(FileNameView, Seq<char>)>,
    config: Config,
    index: nat,
) -> (BatchPhase, BatchActionView<E>) {
    if index < files.len() {
        (
            BatchPhase::File {
                index,
                job: JobView {
                    filename: files[index as int].0,
                    formatted_text: files[index as int].1,
                    config,
                    phase: Phase::Reading,
                },
            },
            BatchActionView::File {
                index,
                action: ActionView::Read { path: files[index as int].0->Real_0 },
            },
        )
    } else if is_framed(config) {
        (BatchPhase::Footer, BatchActionView::Footer)
    } else {
        (BatchPhase::Finished, BatchActionView::Finish(Ok(())))
    }
}

/// Where a batch starts, and what it asks first: the header of a framed
/// run, else the first file.
pub open spec fn batch_started<E>(files: Seq<(FileNameView, Seq<char>)>, config: Config) -> (
    BatchPhase,
    BatchActionView<E>,
) {
    if is_framed(config) {
        (BatchPhase::Header, BatchActionView::Header)
    } else {
        turned_to(files, config, 0)
    }
}

/// Where a batch stands after the host's report, and what it asks next.
///
/// A failure ends the batch and is its result, whatever was being done. The
/// header is followed by the first file, a file that is out by the next
/// one, and the footer by the end of the batch. Within a file the batch
/// does as the file's job says. A batch that is finished takes no report,
/// and what is said of it here is of no consequence.
pub open spec fn batch_advanced<E>(batch: BatchView, reply: Result<AnswerView, E>) -> (
    BatchPhase,
    BatchActionView<E>,
) {
    match reply {
        Err(error) => (BatchPhase::Finished, BatchActionView::Finish(Err(error))),
        Ok(_) => match batch.phase {
            BatchPhase::Header => turned_to(batch.files, batch.config, 0),
            BatchPhase::File { index, job } => match advanced(job, reply) {
                (_, ActionView::Finish(_)) => turned_to(batch.files, batch.config, index + 1),
                (phase, action) => (
                    BatchPhase::File { index, job: JobView { phase, ..job } },
                    BatchActionView::File { index, action },
                ),
            },
            BatchPhase::Footer => (BatchPhase::Finished, BatchActionView::Finish(Ok(()))),
            BatchPhase::Finished => (BatchPhase::Finished, BatchActionView::Finish(Ok(()))),
        },
    }
}

/// A failure that the host reports ends the batch at once, and is its
/// result: the files that are out stay out, and the others are not begun.
pub proof fn lemma_failure_ends_batch<E>(batch: BatchView, error: E)
    ensures
        batch_advanced(batch, Err::<AnswerView, E>(error)) == (
            BatchPhase::Finished,
            BatchActionView::Finish(Err(error)),
        ),
{
}

/// A framed batch begins with the header, turns to the first file once the
/// header is written, writes the footer after the last file, and ends once
/// the footer is written.
pub proof fn lemma_framed_batch<E>(batch: BatchView, answer: AnswerView)
    requires
        is_framed(batch.config),
    ensures
        batch_started::<E>(batch.files, batch.config) == (
            BatchPhase::Header,
            BatchActionView::<E>::Header,
        ),
        batch.phase is Header ==> batch_advanced::<E>(batch, Ok(answer)) == turned_to::<E>(
            batch.files,
            batch.config,
            0,
        ),
        turned_to::<E>(batch.files, batch.config, batch.files.len()) == (
            BatchPhase::Footer,
            BatchActionView::<E>::Footer,
        ),
        batch.phase is Footer ==> batch_advanced::<E>(batch, Ok(answer)) == (
            BatchPhase::Finished,
            BatchActionView::<E>::Finish(Ok(())),
        ),
{
}

/// A batch that is not framed never writes a header or a footer: it begins
/// with the first file and ends after the last.
pub proof fn lemma_unframed_batch<E>(batch: BatchView, reply: Result<AnswerView, E>)
    requires
        !is_framed(batch.config),
        batch.phase !is Header,
        batch.phase !is Footer,
    ensures
        batch_started::<E>(batch.files, batch.config) == turned_to::<E>(
            batch.files,
            batch.config,
            0,
        ),
        turned_to::<E>(batch.files, batch.config, batch.files.len()) == (
            BatchPhase::Finished,
            BatchActionView::<E>::Finish(Ok(())),
        ),
        batch_advanced(batch, reply).0 !is Header,
        batch_advanced(batch, reply).0 !is Footer,
        batch_advanced(batch, reply).1 !is Header,
        batch_advanced(batch, reply).1 !is Footer,
{
}

/// What a batch keeps of where it stands.
enum BatchProgress<'a> {
    Header,
    File { index: usize, job: Job<'a> },
    Footer,
    Finished,
}

impl<'a> View for BatchProgress<'a> {
    type V = BatchPhase;

    closed spec fn view(&self) -> BatchPhase {
        match self {
            BatchProgress::Header => BatchPhase::Header,
            BatchProgress::File { index, job } => BatchPhase::File {
                index: *index as nat,
                job: job@,
            },
            BatchProgress::Footer => BatchPhase::Footer,
            BatchProgress::Finished => BatchPhase::Finished,
        }
    }
}

/// A batch of files on its way out, one after the other.
pub struct Batch<'a> {
    files: &'a [FileRecord],
    config: &'a Config,
    progress: BatchProgress<'a>,
}

impl<'a> View for Batch<'a> {
    type V = BatchView;

    closed spec fn view(&self) -> BatchView {
        BatchView { files: self.files.deep_view(), config: *self.config, phase: self.progress@ }
    }
}

/// Whether every file of a batch has a real path.
pub open spec fn all_real(files: Seq<(FileNameView, Seq<char>)>) -> bool {
    forall|i: int| 0 <= i < files.len() ==> (#[trigger] files[i]).0 is Real
}

impl<'a> Batch<'a> {
    /// Every file has a real path, and the file that is on its way out is
    /// one of the batch and not out yet.
    #[verifier::type_invariant]
    spec fn well_formed(&self) -> bool {
        &&& all_real(self.files.deep_view())
        &&& match self.progress {
            BatchProgress::File { index, job } => index < self.files@.len() && job@.phase
                !is Finished,
            _ => true,
        }
    }

    /// A batch that is about to write its header.
    pub(crate) fn at_header(files: &'a [FileRecord], config: &'a Config) -> (batch: Batch<'a>)
        requires
            all_real(files.deep_view()),
        ensures
            batch@ == (BatchView {
                files: files.deep_view(),
                config: *config,
                phase: BatchPhase::Header,
            }),
    {
        Batch { files, config, progress: BatchProgress::Header }
    }

    /// Turns to the file at `index`, or to the end of the batch after the
    /// last file.
    pub(crate) fn turn_to<E>(files: &'a [FileRecord], config: &'a Config, index: usize) -> (next: (
        Batch<'a>,
        BatchAction<E>,
    ))
        requires
            all_real(files.deep_view()),
            index <= files@.len(),
        ensures
            next.0@ == (BatchView {
                files: files.deep_view(),
                config: *config,
                phase: turned_to::<E>(files.deep_view(), *config, index as nat).0,
            }),
            next.1@ == turned_to::<E>(files.deep_view(), *config, index as nat).1,
    {
        if index < files.len() {
            let filename = &files[index].0;
            let formatted_text = files[index].1.as_str();
            assert(files.deep_view()[index as int] == (filename@, formatted_text@));
            let (job, action) = write_file::<E>(None, filename, formatted_text, config);
            (
                Batch { files, config, progress: BatchProgress::File { index, job } },
                BatchAction::File { index, action },
            )
        } else if config.emit_mode() == EmitMode::Checkstyle {
            (Batch { files, config, progress: BatchProgress::Footer }, BatchAction::Footer)
        } else {
            (
                Batch { files, config, progress: BatchProgress::Finished },
                BatchAction::Finish(Ok(())),
            )
        }
    }

    /// Whether the batch has handed out its result.
    pub fn is_finished(&self) -> (finished: bool)
        ensures
            finished == (self@.phase is Finished),
    {
        match self.progress {
            BatchProgress::Finished => true,
            _ => false,
        }
    }

    /// Whether `answer` is an answer to the action that the batch has handed
    /// out last.
    pub fn awaits(&self, answer: &Answer) -> (fits: bool)
        ensures
            fits == batch_answers(self@.phase, answer@),
    {
        match &self.progress {
            BatchProgress::Header => match answer {
                Answer::Done => true,
                _ => false,
            },
            BatchProgress::File { job, .. } => job.awaits(answer),
            BatchProgress::Footer => match answer {
                Answer::Done => true,
                _ => false,
            },
            BatchProgress::Finished => false,
        }
    }

    /// Takes the host's report on the action that was handed out last, and
    /// hands out the next.
    ///
    /// The batch must not be finished, and an answer must be one to that
    /// action.
    pub fn advance<E>(self, reply: Result<Answer, E>) -> (next: (Batch<'a>, BatchAction<E>))
        requires
            self@.phase !is Finished,
            reply matches Ok(answer) ==> batch_answers(self@.phase, answer@),
        ensures
            next.0@ == (BatchView {
                phase: batch_advanced(self@, reply_view(reply)).0,
                ..self@
            }),
            next.1@ == batch_advanced(self@, reply_view(reply)).1,
    {
        proof {
            use_type_invariant(&self);
        }
        let Batch { files, config, progress } = self;
        match progress {
            BatchProgress::Header => match reply {
                Err(error) => (
                    Batch { files, config, progress: BatchProgress::Finished },
                    BatchAction::Finish(Err(error)),
                ),
                Ok(_) => Batch::turn_to(files, config, 0),
            },
            BatchProgress::File { index, job } => {
                let count = files.len();
                let (job, action) = job.advance(reply);
                match action {
                    Action::Finish(Ok(_)) => {
                        assert(index < count);
                        Batch::turn_to(files, config, index + 1)
                    },
                    Action::Finish(Err(error)) => (
                        Batch { files, config, progress: BatchProgress::Finished },
                        BatchAction::Finish(Err(error)),
                    ),
                    action => (
                        Batch { files, config, progress: BatchProgress::File { index, job } },
                        BatchAction::File { index, action },
                    ),
                }
            },
            BatchProgress::Footer => match reply {
                Err(error) => (
                    Batch { files, config, progress: BatchProgress::Finished },
                    BatchAction::Finish(Err(error)),
                ),
                Ok(_) => (
                    Batch { files, config, progress: BatchProgress::Finished },
                    BatchAction::Finish(Ok(())),
                ),
            },
            BatchProgress::Finished => vstd::pervasive::unreached(),
        }
    }
}

} // verus!
