//! The driver: from a file name and its formatted text to what the host has
//! to do.

use crate::batch::{all_real, batch_started, Batch, BatchAction, BatchView};
use crate::config::{Config, EmitMode, FileName, FileNameView};
use crate::disk::Disk;
use crate::job::{advanced, taken_up, Action, ActionView, AnswerView, Job, JobView, Phase};
use crate::emitter::files_with_backup::FilesWithBackupEmitter;
use crate::emitter::{
    CheckstyleEmitter, DiffEmitter, Emission, EmissionView, Emitter, FilesEmitter, FormattedFile,
    FormattedFileView, ModifiedLinesEmitter, StdoutEmitter,
};
use crate::source_map::{first_named, registry_name, SourceFileView, SourceName, SourceRegistry};
use vstd::prelude::*;

verus! {

/// A file name with the formatted text of that file.
pub type FileRecord = (FileName, String);

/// Appends a newline to the end of a text.
pub fn append_newline(s: &mut String)
    ensures
        final(s)@ == old(s)@.push('\n'),
{
    proof {
        reveal_strlit("\n");
    }
    s.append("\n");
    assert(s@ =~= old(s)@.push('\n'));
}

/// The emitter that a configuration selects.
pub open spec fn emitter_for(config: Config) -> Emitter {
    match config.emit_mode() {
        EmitMode::Files => if config.make_backup() {
            Emitter::FilesWithBackup(FilesWithBackupEmitter)
        } else {
            Emitter::Files(FilesEmitter)
        },
        EmitMode::Stdout | EmitMode::Coverage => Emitter::Stdout(
            StdoutEmitter { verbose: config.verbose() },
        ),
        EmitMode::ModifiedLines => Emitter::ModifiedLines(ModifiedLinesEmitter),
        EmitMode::Checkstyle => Emitter::Checkstyle(CheckstyleEmitter),
        EmitMode::Diff => Emitter::Diff(DiffEmitter { config }),
    }
}

/// Selects the emitter for a configuration. Every mode has exactly one.
pub fn create_emitter(config: &Config) -> (emitter: Emitter)
    ensures
        emitter == emitter_for(*config),
{
    match config.emit_mode() {
        EmitMode::Files => {
            if config.make_backup() {
                Emitter::FilesWithBackup(FilesWithBackupEmitter::new())
            } else {
                Emitter::Files(FilesEmitter::new())
            }
        },
        EmitMode::Stdout | EmitMode::Coverage => Emitter::Stdout(
            StdoutEmitter::new(config.verbose()),
        ),
        EmitMode::ModifiedLines => Emitter::ModifiedLines(ModifiedLinesEmitter::new()),
        EmitMode::Checkstyle => Emitter::Checkstyle(CheckstyleEmitter::new()),
        EmitMode::Diff => Emitter::Diff(DiffEmitter::new(config)),
    }
}

/// The sources of a registry that may be absent.
pub open spec fn sources(source_map: Option<&SourceRegistry>) -> Option<Seq<SourceFileView>> {
    match source_map {
        Some(registry) => Some(registry@),
        None => None,
    }
}

/// The text that the registry holds for `filename`: that of the first source
/// that goes by the file's registry name, if there is a registry, it has
/// such a source, and the source has its text.
pub open spec fn cached_source(
    registry: Option<Seq<SourceFileView>>,
    filename: FileNameView,
) -> Option<Seq<char>> {
    match registry {
        Some(files) => match first_named(files, registry_name(filename)) {
            Some(file) => file.src,
            None => None,
        },
        None => None,
    }
}

/// Looks the text of `filename` up in the registry.
pub fn cached_text<'a>(source_map: Option<&'a SourceRegistry>, filename: &FileName) -> (text:
    Option<&'a str>)
    ensures
        match text {
            Some(t) => cached_source(sources(source_map), filename@) == Some(t@),
            None => cached_source(sources(source_map), filename@) is None,
        },
{
    match source_map {
        Some(registry) => {
            let name = SourceName::of(filename);
            match registry.get_source_file(&name) {
                Some(file) => match &file.src {
                    Some(text) => Some(text.as_str()),
                    None => None,
                },
                None => None,
            }
        },
        None => None,
    }
}

/// What emitting a file under `config` comes to, once its original text is
/// known.
pub open spec fn emission_for(
    original_text: Seq<char>,
    filename: FileNameView,
    formatted_text: Seq<char>,
    config: Config,
) -> EmissionView {
    emitter_for(config).emission(FormattedFileView { original_text, formatted_text, filename })
}

/// Emits a file whose original text is known, by the emitter that `config`
/// selects. The original text is taken as it is.
///
/// A configuration that writes files needs a file with a real path.
pub fn emit_file(
    original_text: &str,
    filename: &FileName,
    formatted_text: &str,
    config: &Config,
) -> (emission: Emission)
    requires
        emitter_for(*config).writes_files() ==> filename@ is Real,
    ensures
        emission@ == emission_for(original_text@, filename@, formatted_text@, *config),
{
    let formatted_file = FormattedFile { original_text, formatted_text, filename };
    let mut emitter = create_emitter(config);
    emitter.write_file(formatted_file)
}

/// Where the job for a file starts, and what it asks first: the emission
/// is taken up at once where the registry holds the original text, else the
/// file is to be read.
pub open spec fn started<E>(
    registry: Option<Seq<SourceFileView>>,
    filename: FileNameView,
    formatted_text: Seq<char>,
    config: Config,
) -> (Phase, ActionView<E>) {
    match cached_source(registry, filename) {
        Some(original_text) => taken_up(
            emission_for(original_text, filename, formatted_text, config),
        ),
        None => (Phase::Reading, ActionView::Read { path: filename->Real_0 }),
    }
}

/// Whether a file can be emitted under `config`: a file without a real path
/// can be neither read from the disk nor written to it, so its text must be
/// in the registry and its emission must go to the sink.
pub open spec fn can_emit(
    registry: Option<Seq<SourceFileView>>,
    filename: FileNameView,
    config: Config,
) -> bool {
    cached_source(registry, filename) is None || emitter_for(config).writes_files()
        ==> filename is Real
}

/// Tells whether [`write_file`] can take the file.
pub fn can_write_file(
    source_map: Option<&SourceRegistry>,
    filename: &FileName,
    config: &Config,
) -> (can: bool)
    ensures
        can == can_emit(sources(source_map), filename@, *config),
{
    match filename {
        FileName::Real(_) => true,
        FileName::Stdin => cached_text(source_map, filename).is_some() && !create_emitter(
            config,
        ).writes_files(),
    }
}

/// Emits the formatted text of one file: starts its job and hands out the
/// first thing for the host to do.
///
/// The original text comes from the registry where the registry has it.
/// Else the file is read, which takes a real path; so does a configuration
/// that writes files.
pub fn write_file<'a, E>(
    source_map: Option<&SourceRegistry>,
    filename: &'a FileName,
    formatted_text: &'a str,
    config: &'a Config,
) -> (next: (Job<'a>, Action<E>))
    requires
        can_emit(sources(source_map), filename@, *config),
    ensures
        next.0@ == (JobView {
            filename: filename@,
            formatted_text: formatted_text@,
            config: *config,
            phase: started::<E>(sources(source_map), filename@, formatted_text@, *config).0,
        }),
        next.1@ == started::<E>(sources(source_map), filename@, formatted_text@, *config).1,
{
    match cached_text(source_map, filename) {
        Some(original_text) => {
            let emission = emit_file(original_text, filename, formatted_text, config);
            Job::take_up(filename, formatted_text, config, emission)
        },
        None => {
            let path = crate::emitter::ensure_real_path(filename).to_owned();
            (Job::reading(filename, formatted_text, config), Action::Read { path })
        },
    }
}

/// A text that the registry holds for a file is the text that the file is
/// emitted from. The job takes the emission up at once and asks for no
/// read, so what the disk holds under the same path plays no part.
pub proof fn lemma_registry_takes_precedence<E>(
    registry: Seq<SourceFileView>,
    filename: FileNameView,
    formatted_text: Seq<char>,
    config: Config,
    text: Seq<char>,
)
    requires
        first_named(registry, registry_name(filename)) matches Some(file) && file.src == Some(
            text,
        ),
    ensures
        started::<E>(Some(registry), filename, formatted_text, config) == taken_up::<E>(
            emission_for(text, filename, formatted_text, config),
        ),
        started::<E>(Some(registry), filename, formatted_text, config).1 !is Read,
{
}

/// A file of which the registry holds no text is read from the disk, and
/// what the disk holds under its path is the original text that the file is
/// emitted from, exactly as it is there.
pub proof fn lemma_disk_is_the_fallback<E>(
    registry: Option<Seq<SourceFileView>>,
    disk: Disk,
    path: Seq<char>,
    formatted_text: Seq<char>,
    config: Config,
)
    requires
        cached_source(registry, FileNameView::Real(path)) is None,
        disk.dom().contains(path),
    ensures
        started::<E>(registry, FileNameView::Real(path), formatted_text, config) == (
            Phase::Reading,
            ActionView::<E>::Read { path },
        ),
        advanced::<E>(
            JobView {
                filename: FileNameView::Real(path),
                formatted_text,
                config,
                phase: Phase::Reading,
            },
            Ok(AnswerView::Text(disk[path])),
        ) == taken_up::<E>(
            emission_for(disk[path], FileNameView::Real(path), formatted_text, config),
        ),
{
}

/// Tells whether [`write_all_files`] can take the batch: every file of it
/// must have a real path.
pub fn can_write_all_files(source_file: &[FileRecord]) -> (can: bool)
    ensures
        can == all_real(source_file.deep_view()),
{
    let ghost files = source_file.deep_view();
    let mut i: usize = 0;
    while i < source_file.len()
        invariant
            i <= source_file.len(),
            files == source_file.deep_view(),
            forall|j: int| 0 <= j < i ==> (#[trigger] files[j]).0 is Real,
        decreases source_file.len() - i,
    {
        assert(files[i as int].0 == source_file[i as int].0@);
        match &source_file[i].0 {
            FileName::Real(_) => {},
            FileName::Stdin => {
                return false;
            },
        }
        i += 1;
    }
    true
}

/// Emits a batch of files without a registry, each from the disk: starts
/// the batch and hands out the first thing for the host to do.
///
/// Every file is read, so every file needs a real path.
pub fn write_all_files<'a, E>(source_file: &'a [FileRecord], config: &'a Config) -> (next: (
    Batch<'a>,
    BatchAction<E>,
))
    requires
        all_real(source_file.deep_view()),
    ensures
        next.0@ == (BatchView {
            files: source_file.deep_view(),
            config: *config,
            phase: batch_started::<E>(source_file.deep_view(), *config).0,
        }),
        next.1@ == batch_started::<E>(source_file.deep_view(), *config).1,
{
    if config.emit_mode() == EmitMode::Checkstyle {
        (Batch::at_header(source_file, config), BatchAction::Header)
    } else {
        Batch::turn_to(source_file, config, 0)
    }
}

} // verus!
