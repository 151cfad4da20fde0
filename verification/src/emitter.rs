//! The emitters: one strategy for each way of putting a formatted file out.
//!
//! An emitter does not touch the file system or the output sink. It answers
//! with an [`Emission`], which says what the host has to do.

use crate::config::{Config, FileName, FileNameView};
use crate::disk::{apply_step, apply_steps, Disk, FsStep, FsStepView};
use crate::emitter::files_with_backup::{backed_up_steps, FilesWithBackupEmitter};
use vstd::prelude::*;

pub mod files_with_backup;

verus! {

/// The unit of work of an emitter: the text of a file before and after
/// formatting, and the file's logical name.
#[derive(Clone, Copy, Debug)]
pub struct FormattedFile<'a> {
    pub original_text: &'a str,
    pub formatted_text: &'a str,
    pub filename: &'a FileName,
}

/// The mathematical value of a [`FormattedFile`].
pub struct FormattedFileView {
    pub original_text: Seq<char>,
    pub formatted_text: Seq<char>,
    pub filename: FileNameView,
}

impl<'a> View for FormattedFile<'a> {
    type V = FormattedFileView;

    open spec fn view(&self) -> FormattedFileView {
        FormattedFileView {
            original_text: self.original_text@,
            formatted_text: self.formatted_text@,
            filename: self.filename@,
        }
    }
}

impl FormattedFileView {
    /// Whether formatting changed the text.
    pub open spec fn changed(self) -> bool {
        self.original_text != self.formatted_text
    }
}

/// What a stream-based emitter has the host render onto the output sink.
#[derive(Clone, Copy, Debug, PartialEq, Eq, Structural)]
pub enum Presentation {
    /// The formatted text itself.
    Text { verbose: bool },
    /// The line ranges that formatting changed.
    ModifiedLines,
    /// A fragment of a checkstyle report.
    Checkstyle,
    /// A unified diff of the original against the formatted text, drawn the
    /// way `config` asks.
    Diff { config: Config },
}

/// What the host has to do for one file.
#[derive(Debug, PartialEq, Eq)]
pub enum Emission {
    /// Carry out `steps` on the file system in order and stop at the first
    /// one that fails, reporting its error. Nothing goes to the sink. Once
    /// all steps are done, `needs_followup` is the emitter's report on
    /// whether the sink needs a follow-up.
    Files { steps: Vec<FsStep>, needs_followup: bool },
    /// Render `presentation` onto the sink; the renderer says whether a
    /// follow-up on the sink is needed. `changed` tells whether formatting
    /// changed the text at all. The file system is left alone.
    Sink { presentation: Presentation, changed: bool },
}

/// The mathematical value of an [`Emission`].
pub enum EmissionView {
    Files { steps: Seq<FsStepView>, needs_followup: bool },
    Sink { presentation: Presentation, changed: bool },
}

impl View for Emission {
    type V = EmissionView;

    open spec fn view(&self) -> EmissionView {
        match self {
            Emission::Files { steps, needs_followup } => EmissionView::Files {
                steps: steps.deep_view(),
                needs_followup: *needs_followup,
            },
            Emission::Sink { presentation, changed } => EmissionView::Sink {
                presentation: *presentation,
                changed: *changed,
            },
        }
    }
}

impl EmissionView {
    /// The file-system steps of this emission: none for one that goes to the
    /// sink.
    pub open spec fn fs_steps(self) -> Seq<FsStepView> {
        match self {
            EmissionView::Files { steps, .. } => steps,
            EmissionView::Sink { .. } => Seq::empty(),
        }
    }
}

/// The path behind a file name that must be a real one.
///
/// Emitting standard input to the file system is a mistake of the caller,
/// not a failure at run time, so such a name is not admitted.
pub fn ensure_real_path(filename: &FileName) -> (path: &str)
    requires
        filename@ is Real,
    ensures
        path@ == filename@->Real_0,
{
    match filename {
        FileName::Real(path) => path.as_str(),
        FileName::Stdin => vstd::pervasive::unreached(),
    }
}

/// The steps by which the plain in-place writer emits `file`: none where
/// formatting changed nothing, else one write of the formatted text over the
/// file itself.
pub open spec fn plain_steps(file: FormattedFileView) -> Seq<FsStepView> {
    if file.changed() {
        seq![
            FsStepView::Write { path: file.filename->Real_0, contents: file.formatted_text },
        ]
    } else {
        Seq::empty()
    }
}

/// The in-place writer without a backup.
#[derive(Clone, Copy, Debug, PartialEq, Eq, Structural)]
pub struct FilesEmitter;

impl FilesEmitter {
    /// The plain in-place writer.
    pub fn new() -> (emitter: Self)
        ensures
            emitter == FilesEmitter,
    {
        FilesEmitter
    }

    /// Overwrites the file with the formatted text, if formatting changed it.
    pub fn write_file(&mut self, file: FormattedFile<'_>) -> (emission: Emission)
        requires
            file@.filename is Real,
        ensures
            *final(self) == *old(self),
            emission@ == (EmissionView::Files {
                steps: plain_steps(file@),
                needs_followup: false,
            }),
    {
        let filename = ensure_real_path(file.filename);
        let mut steps: Vec<FsStep> = Vec::new();
        if *file.original_text != *file.formatted_text {
            steps.push(
                FsStep::Write {
                    path: filename.to_owned(),
                    contents: file.formatted_text.to_owned(),
                },
            );
        }
        assert(steps.deep_view() =~= plain_steps(file@));
        Emission::Files { steps, needs_followup: false }
    }
}

/// The writer of the formatted text to the output sink.
#[derive(Clone, Copy, Debug, PartialEq, Eq, Structural)]
pub struct StdoutEmitter {
    pub verbose: bool,
}

impl StdoutEmitter {
    /// The writer to the sink, with the verbosity that it passes on.
    pub fn new(verbose: bool) -> (emitter: Self)
        ensures
            emitter == (StdoutEmitter { verbose }),
    {
        StdoutEmitter { verbose }
    }

    /// Has the formatted text written to the sink.
    pub fn write_file(&mut self, file: FormattedFile<'_>) -> (emission: Emission)
        ensures
            *final(self) == *old(self),
            emission@ == (EmissionView::Sink {
                presentation: Presentation::Text { verbose: old(self).verbose },
                changed: file@.changed(),
            }),
    {
        Emission::Sink {
            presentation: Presentation::Text { verbose: self.verbose },
            changed: *file.original_text != *file.formatted_text,
        }
    }
}

/// The writer of the changed line ranges.
#[derive(Clone, Copy, Debug, PartialEq, Eq, Structural)]
pub struct ModifiedLinesEmitter;

impl ModifiedLinesEmitter {
    /// The writer of the changed line ranges.
    pub fn new() -> (emitter: Self)
        ensures
            emitter == ModifiedLinesEmitter,
    {
        ModifiedLinesEmitter
    }

    /// Has the changed line ranges written to the sink.
    pub fn write_file(&mut self, file: FormattedFile<'_>) -> (emission: Emission)
        ensures
            *final(self) == *old(self),
            emission@ == (EmissionView::Sink {
                presentation: Presentation::ModifiedLines,
                changed: file@.changed(),
            }),
    {
        Emission::Sink {
            presentation: Presentation::ModifiedLines,
            changed: *file.original_text != *file.formatted_text,
        }
    }
}

/// The writer of checkstyle report fragments.
#[derive(Clone, Copy, Debug, PartialEq, Eq, Structural)]
pub struct CheckstyleEmitter;

impl CheckstyleEmitter {
    /// The writer of checkstyle report fragments.
    pub fn new() -> (emitter: Self)
        ensures
            emitter == CheckstyleEmitter,
    {
        CheckstyleEmitter
    }

    /// Has a report fragment for the file written to the sink.
    pub fn write_file(&mut self, file: FormattedFile<'_>) -> (emission: Emission)
        ensures
            *final(self) == *old(self),
            emission@ == (EmissionView::Sink {
                presentation: Presentation::Checkstyle,
                changed: file@.changed(),
            }),
    {
        Emission::Sink {
            presentation: Presentation::Checkstyle,
            changed: *file.original_text != *file.formatted_text,
        }
    }
}

/// The writer of unified diffs. It keeps the configuration that the diff is
/// drawn by.
#[derive(Clone, Copy, Debug, PartialEq, Eq, Structural)]
pub struct DiffEmitter {
    pub config: Config,
}

impl DiffEmitter {
    /// The writer of diffs that are drawn by `config`.
    pub fn new(config: &Config) -> (emitter: Self)
        ensures
            emitter == (DiffEmitter { config: *config }),
    {
        DiffEmitter { config: *config }
    }

    /// Has a diff of the original against the formatted text written to the
    /// sink.
    pub fn write_file(&mut self, file: FormattedFile<'_>) -> (emission: Emission)
        ensures
            *final(self) == *old(self),
            emission@ == (EmissionView::Sink {
                presentation: Presentation::Diff { config: old(self).config },
                changed: file@.changed(),
            }),
    {
        Emission::Sink {
            presentation: Presentation::Diff { config: self.config },
            changed: *file.original_text != *file.formatted_text,
        }
    }
}

/// The six emitters as one closed type.
#[derive(Clone, Copy, Debug, PartialEq, Eq, Structural)]
pub enum Emitter {
    FilesWithBackup(FilesWithBackupEmitter),
    Files(FilesEmitter),
    Stdout(StdoutEmitter),
    ModifiedLines(ModifiedLinesEmitter),
    Checkstyle(CheckstyleEmitter),
    Diff(DiffEmitter),
}

impl Emitter {
    /// Whether this emitter changes the file system, and so needs a file
    /// with a real path.
    pub open spec fn spec_writes_files(&self) -> bool {
        *self is FilesWithBackup || *self is Files
    }

    /// Whether this emitter changes the file system, and so needs a file
    /// with a real path.
    #[verifier::when_used_as_spec(spec_writes_files)]
    pub fn writes_files(&self) -> (writes: bool)
        ensures
            writes == self.spec_writes_files(),
    {
        match self {
            Emitter::FilesWithBackup(_) => true,
            Emitter::Files(_) => true,
            _ => false,
        }
    }

    /// What this emitter answers for `file`.
    pub open spec fn emission(self, file: FormattedFileView) -> EmissionView {
        match self {
            Emitter::FilesWithBackup(_) => EmissionView::Files {
                steps: backed_up_steps(file),
                needs_followup: false,
            },
            Emitter::Files(_) => EmissionView::Files {
                steps: plain_steps(file),
                needs_followup: false,
            },
            Emitter::Stdout(e) => EmissionView::Sink {
                presentation: Presentation::Text { verbose: e.verbose },
                changed: file.changed(),
            },
            Emitter::ModifiedLines(_) => EmissionView::Sink {
                presentation: Presentation::ModifiedLines,
                changed: file.changed(),
            },
            Emitter::Checkstyle(_) => EmissionView::Sink {
                presentation: Presentation::Checkstyle,
                changed: file.changed(),
            },
            Emitter::Diff(e) => EmissionView::Sink {
                presentation: Presentation::Diff { config: e.config },
                changed: file.changed(),
            },
        }
    }

    /// Emits `file` by the strategy that this emitter stands for.
    pub fn write_file(&mut self, file: FormattedFile<'_>) -> (emission: Emission)
        requires
            old(self).writes_files() ==> file@.filename is Real,
        ensures
            *final(self) == *old(self),
            emission@ == old(self).emission(file@),
    {
        match self {
            Emitter::FilesWithBackup(e) => e.write_file(file),
            Emitter::Files(e) => e.write_file(file),
            Emitter::Stdout(e) => e.write_file(file),
            Emitter::ModifiedLines(e) => e.write_file(file),
            Emitter::Checkstyle(e) => e.write_file(file),
            Emitter::Diff(e) => e.write_file(file),
        }
    }
}

/// An emitter that goes to the sink has no step for the file system.
pub proof fn lemma_sink_emitters_leave_disk(emitter: Emitter, file: FormattedFileView)
    requires
        !emitter.writes_files(),
    ensures
        emitter.emission(file).fs_steps() == Seq::<FsStepView>::empty(),
{
}

/// Where formatting changed nothing, no emitter has a step for the file
/// system: nothing is written, renamed or backed up, and the disk stays as
/// it is.
pub proof fn lemma_unchanged_text_leaves_disk(emitter: Emitter, file: FormattedFileView, disk: Disk)
    requires
        !file.changed(),
    ensures
        emitter.emission(file).fs_steps() == Seq::<FsStepView>::empty(),
        apply_steps(disk, emitter.emission(file).fs_steps()) == Some(disk),
{
}

/// The plain writer on a file that formatting changed: the file then holds
/// the formatted text, and no other path appears, goes or changes.
pub proof fn lemma_plain_write(disk: Disk, file: FormattedFileView)
    requires
        file.filename is Real,
        file.changed(),
    ensures
        apply_steps(disk, plain_steps(file)) == Some(
            disk.insert(file.filename->Real_0, file.formatted_text),
        ),
        match apply_steps(disk, plain_steps(file)) {
            Some(after) => {
                &&& after.dom().contains(file.filename->Real_0)
                &&& after[file.filename->Real_0] == file.formatted_text
                &&& forall|path: Seq<char>|
                    path != file.filename->Real_0 ==> (after.dom().contains(path)
                        == disk.dom().contains(path)) && after[path] == disk[path]
            },
            None => false,
        },
{
    let steps = plain_steps(file);
    let after = disk.insert(file.filename->Real_0, file.formatted_text);
    assert(apply_step(disk, steps.first()) == Some(after));
    assert(steps.drop_first() =~= Seq::<FsStepView>::empty());
    assert(apply_steps(after, steps.drop_first()) == Some(after));
}

} // verus!
