//! Whole runs of a job against the model of the disk.
//!
//! The host of this model does what it is asked as long as it is able to,
//! and fails from then on. The theorems say what a run leaves on the disk
//! and what it hands to the caller, for every such host.

use crate::config::{Config, EmitMode, FileNameView};
use crate::disk::{apply_step, apply_steps, Disk, FsStepView};
use crate::emitter::files_with_backup::{
    bk_extension, disk_after, distinct_paths, lemma_replacement_keeps_backup,
    lemma_replacement_prefix, replacement_steps, tmp_extension,
};
use crate::emitter::{lemma_plain_write, plain_steps, EmissionView, FormattedFileView, Presentation};
use crate::job::{advanced, taken_up, ActionView, AnswerView, JobView, Phase};
use crate::source_file::{cached_source, can_emit, emission_for, emitter_for, started};
use crate::source_map::SourceFileView;
use crate::std_specs::path_with_extension;
use vstd::prelude::*;

verus! {

/// A host in the model.
pub struct Host<E> {
    /// How many actions the host carries out before it fails: the disk is
    /// full from then on, or the host may do no more.
    pub able: nat,
    /// The failure that it reports.
    pub error: E,
    /// What a write that fails leaves under its path, if it leaves
    /// anything.
    pub residue: Option<Seq<char>>,
    /// What the renderer reports on a follow-up.
    pub report: bool,
}

impl<E> Host<E> {
    /// The host after it has dealt with one action.
    pub open spec fn spent(self) -> Host<E> {
        Host { able: if self.able > 0 { (self.able - 1) as nat } else { 0 }, ..self }
    }

    /// The host after it has dealt with the read of a file whose text is
    /// not in the registry.
    pub open spec fn after_resolving(
        self,
        registry: Option<Seq<SourceFileView>>,
        filename: FileNameView,
    ) -> Host<E> {
        if cached_source(registry, filename) is None {
            self.spent()
        } else {
            self
        }
    }
}

/// The disk that the host leaves when it fails at `action`: as it was, but
/// for what a failed write leaves under its path.
pub open spec fn failed<E>(disk: Disk, action: ActionView<E>, host: Host<E>) -> Disk {
    match action {
        ActionView::Step(FsStepView::Write { path, .. }) => match host.residue {
            Some(contents) => disk.insert(path, contents),
            None => disk,
        },
        _ => disk,
    }
}

/// What the host answers to `action` on `disk`, and the disk that it
/// leaves. A host that is able carries the action out; it still fails, and
/// leaves the disk alone, where it is to read or to rename a file that is
/// not there. A rendering leaves the disk alone.
pub open spec fn performed<E>(disk: Disk, action: ActionView<E>, host: Host<E>) -> (
    Disk,
    Result<AnswerView, E>,
) {
    if host.able == 0 {
        (failed(disk, action, host), Err(host.error))
    } else {
        match action {
            ActionView::Read { path } => if disk.dom().contains(path) {
                (disk, Ok(AnswerView::Text(disk[path])))
            } else {
                (disk, Err(host.error))
            },
            ActionView::Step(step) => match apply_step(disk, step) {
                Some(after) => (after, Ok(AnswerView::Done)),
                None => (disk, Err(host.error)),
            },
            ActionView::Render { .. } => (disk, Ok(AnswerView::Rendered(host.report))),
            ActionView::Finish(_) => (disk, Err(host.error)),
        }
    }
}

/// How far a job is from its end at most.
pub open spec fn distance(phase: Phase) -> (nat, nat) {
    match phase {
        Phase::Reading => (1, 0),
        Phase::Stepping { remaining, .. } => (0, remaining.len() + 1),
        Phase::Rendering => (0, 1),
        Phase::Finished => (0, 0),
    }
}

/// The run of a job to its end: the disk that it leaves, and the result
/// that the job hands to the caller.
pub open spec fn run<E>(job: JobView, action: ActionView<E>, disk: Disk, host: Host<E>) -> (
    Disk,
    Result<bool, E>,
)
    decreases distance(job.phase).0, distance(job.phase).1,
{
    if action is Finish {
        (disk, action->Finish_0)
    } else if job.phase is Finished {
        (disk, Err(host.error))
    } else {
        let (after, reply) = performed(disk, action, host);
        let (phase, next) = advanced(job, reply);
        run(JobView { phase, ..job }, next, after, host.spent())
    }
}

/// A job that has taken up steps for the file system runs through them as
/// long as they succeed: where the host is able to carry out all of them
/// and all of them can succeed, the run leaves the disk as they leave it
/// and ends with the emitter's report; where one of them cannot succeed,
/// it ends with the failure.
pub proof fn lemma_run_carries_out_steps<E>(
    job: JobView,
    steps: Seq<FsStepView>,
    needs_followup: bool,
    disk: Disk,
    host: Host<E>,
)
    requires
        job.phase == taken_up::<E>(EmissionView::Files { steps, needs_followup }).0,
        host.able >= steps.len(),
    ensures
        ({
            let action = taken_up::<E>(EmissionView::Files { steps, needs_followup }).1;
            match apply_steps(disk, steps) {
                Some(after) => run(job, action, disk, host) == (
                    after,
                    Ok::<bool, E>(needs_followup),
                ),
                None => run(job, action, disk, host).1 == Err::<bool, E>(host.error),
            }
        }),
    decreases steps.len(),
{
    let action = taken_up::<E>(EmissionView::Files { steps, needs_followup }).1;
    if steps.len() > 0 {
        let (after, reply) = performed(disk, action, host);
        let (phase, next) = advanced(job, reply);
        let next_job = JobView { phase, ..job };
        match apply_step(disk, steps.first()) {
            Some(reached) => {
                assert(after == reached);
                lemma_run_carries_out_steps(
                    next_job,
                    steps.drop_first(),
                    needs_followup,
                    reached,
                    host.spent(),
                );
            },
            None => {
                assert(next == ActionView::<E>::Finish(Err(host.error)));
                assert(run(next_job, next, after, host.spent()).1 == Err::<bool, E>(host.error));
            },
        }
    }
}

/// A host that is not able to carry out all steps stops the run at the
/// first step that it fails at: the run ends with the failure, and leaves
/// the disk as the steps before left it and as the failed step leaves it.
pub proof fn lemma_run_stops_at_failure<E>(
    job: JobView,
    steps: Seq<FsStepView>,
    needs_followup: bool,
    disk: Disk,
    host: Host<E>,
)
    requires
        job.phase == taken_up::<E>(EmissionView::Files { steps, needs_followup }).0,
        host.able < steps.len(),
        apply_steps(disk, steps.take(host.able as int)) is Some,
    ensures
        ({
            let action = taken_up::<E>(EmissionView::Files { steps, needs_followup }).1;
            let reached = apply_steps(disk, steps.take(host.able as int))->Some_0;
            run(job, action, disk, host) == (
                failed(reached, ActionView::<E>::Step(steps[host.able as int]), host),
                Err::<bool, E>(host.error),
            )
        }),
    decreases host.able,
{
    let action = taken_up::<E>(EmissionView::Files { steps, needs_followup }).1;
    let (after, reply) = performed(disk, action, host);
    let (phase, next) = advanced(job, reply);
    let next_job = JobView { phase, ..job };
    if host.able == 0 {
        assert(steps.take(0) =~= Seq::<FsStepView>::empty());
        assert(next == ActionView::<E>::Finish(Err(host.error)));
        assert(run(next_job, next, after, host.spent()) == (after, Err::<bool, E>(host.error)));
    } else {
        let prefix = steps.take(host.able as int);
        assert(prefix.first() == steps.first());
        assert(prefix.drop_first() =~= steps.drop_first().take(host.able - 1));
        assert(steps.drop_first()[host.able - 1] == steps[host.able as int]);
        lemma_run_stops_at_failure(
            next_job,
            steps.drop_first(),
            needs_followup,
            after,
            host.spent(),
        );
    }
}

/// A job that renders leaves the disk alone, and ends with what the
/// renderer reports, or with the failure of a host that is not able.
pub proof fn lemma_run_renders<E>(
    job: JobView,
    presentation: Presentation,
    changed: bool,
    disk: Disk,
    host: Host<E>,
)
    requires
        job.phase is Rendering,
    ensures
        run(job, ActionView::<E>::Render { presentation, changed }, disk, host) == (
            disk,
            if host.able > 0 {
                Ok::<bool, E>(host.report)
            } else {
                Err::<bool, E>(host.error)
            },
        ),
{
    let action = ActionView::<E>::Render { presentation, changed };
    let (after, reply) = performed(disk, action, host);
    let (phase, next) = advanced(job, reply);
    assert(run(JobView { phase, ..job }, next, after, host.spent()).0 == disk);
}

/// The whole run for one file: from the start of its job to the end.
pub open spec fn run_file<E>(
    registry: Option<Seq<SourceFileView>>,
    filename: FileNameView,
    formatted_text: Seq<char>,
    config: Config,
    disk: Disk,
    host: Host<E>,
) -> (Disk, Result<bool, E>) {
    run(
        JobView {
            filename,
            formatted_text,
            config,
            phase: started::<E>(registry, filename, formatted_text, config).0,
        },
        started::<E>(registry, filename, formatted_text, config).1,
        disk,
        host,
    )
}

/// The original text that a file is emitted from on a given disk: the text
/// that the registry holds for it, else what the disk holds under its path.
pub open spec fn original_text(
    registry: Option<Seq<SourceFileView>>,
    disk: Disk,
    filename: FileNameView,
) -> Seq<char> {
    match cached_source(registry, filename) {
        Some(text) => text,
        None => disk[filename->Real_0],
    }
}

/// Whether the original text of a file can be had from a host: the
/// registry holds it, or the file is on the disk and the host is able to
/// read it.
pub open spec fn has_original_text<E>(
    registry: Option<Seq<SourceFileView>>,
    disk: Disk,
    filename: FileNameView,
    host: Host<E>,
) -> bool {
    cached_source(registry, filename) is Some || (filename is Real && disk.dom().contains(
        filename->Real_0,
    ) && host.able > 0)
}

/// A run for a file goes on from the emission of its original text: the
/// text of the registry where the registry holds one, whatever is on the
/// disk, else the text on the disk as it is.
pub proof fn lemma_run_emits_original_text<E>(
    registry: Option<Seq<SourceFileView>>,
    filename: FileNameView,
    formatted_text: Seq<char>,
    config: Config,
    disk: Disk,
    host: Host<E>,
)
    requires
        has_original_text(registry, disk, filename, host),
    ensures
        ({
            let emission = emission_for(
                original_text(registry, disk, filename),
                filename,
                formatted_text,
                config,
            );
            run_file(registry, filename, formatted_text, config, disk, host) == run(
                JobView { filename, formatted_text, config, phase: taken_up::<E>(emission).0 },
                taken_up::<E>(emission).1,
                disk,
                host.after_resolving(registry, filename),
            )
        }),
{
    if cached_source(registry, filename) is None {
        let action = started::<E>(registry, filename, formatted_text, config).1;
        let (after, reply) = performed(disk, action, host);
        assert(after == disk);
        assert(reply == Ok::<AnswerView, E>(AnswerView::Text(disk[filename->Real_0])));
    }
}

/// A file that cannot be read ends its run with the failure, and the disk
/// is left alone.
pub proof fn lemma_run_fails_without_the_file<E>(
    registry: Option<Seq<SourceFileView>>,
    path: Seq<char>,
    formatted_text: Seq<char>,
    config: Config,
    disk: Disk,
    host: Host<E>,
)
    requires
        cached_source(registry, FileNameView::Real(path)) is None,
        !disk.dom().contains(path) || host.able == 0,
    ensures
        run_file(registry, FileNameView::Real(path), formatted_text, config, disk, host) == (
            disk,
            Err::<bool, E>(host.error),
        ),
{
    let filename = FileNameView::Real(path);
    let job = JobView { filename, formatted_text, config, phase: Phase::Reading };
    let action = started::<E>(registry, filename, formatted_text, config).1;
    let (after, reply) = performed(disk, action, host);
    let (phase, next) = advanced(job, reply);
    assert(next == ActionView::<E>::Finish(Err(host.error)));
    assert(run(JobView { phase, ..job }, next, after, host.spent()) == (
        disk,
        Err::<bool, E>(host.error),
    ));
}

/// Where formatting changed nothing, the run leaves the disk as it is,
/// whatever the configuration and whatever the host: nothing is written,
/// renamed or backed up. A run that writes files reports no follow-up.
pub proof fn lemma_unchanged_file_is_left_alone<E>(
    registry: Option<Seq<SourceFileView>>,
    filename: FileNameView,
    formatted_text: Seq<char>,
    config: Config,
    disk: Disk,
    host: Host<E>,
)
    requires
        can_emit(registry, filename, config),
        cached_source(registry, filename) is Some || disk.dom().contains(filename->Real_0),
        original_text(registry, disk, filename) == formatted_text,
    ensures
        run_file(registry, filename, formatted_text, config, disk, host).0 == disk,
        emitter_for(config).writes_files() && has_original_text(registry, disk, filename, host)
            ==> run_file(registry, filename, formatted_text, config, disk, host).1 == Ok::<
            bool,
            E,
        >(false),
{
    if has_original_text(registry, disk, filename, host) {
        lemma_run_emits_original_text(registry, filename, formatted_text, config, disk, host);
        let emission = emission_for(formatted_text, filename, formatted_text, config);
        let job = JobView { filename, formatted_text, config, phase: taken_up::<E>(emission).0 };
        let rest = host.after_resolving(registry, filename);
        match emission {
            EmissionView::Files { steps, needs_followup } => {
                assert(steps =~= Seq::<FsStepView>::empty());
                lemma_run_carries_out_steps(job, steps, needs_followup, disk, rest);
            },
            EmissionView::Sink { presentation, changed } => {
                lemma_run_renders(job, presentation, changed, disk, rest);
            },
        }
    } else {
        lemma_run_fails_without_the_file(
            registry,
            filename->Real_0,
            formatted_text,
            config,
            disk,
            host,
        );
    }
}

/// A configuration that goes to the sink leaves the disk as it is,
/// whatever the host. Where the host is able to read and to render, the
/// run ends with what the renderer reports.
pub proof fn lemma_sink_run_leaves_disk<E>(
    registry: Option<Seq<SourceFileView>>,
    filename: FileNameView,
    formatted_text: Seq<char>,
    config: Config,
    disk: Disk,
    host: Host<E>,
)
    requires
        can_emit(registry, filename, config),
        !emitter_for(config).writes_files(),
    ensures
        run_file(registry, filename, formatted_text, config, disk, host).0 == disk,
        has_original_text(registry, disk, filename, host) && host.after_resolving(
            registry,
            filename,
        ).able > 0 ==> run_file(registry, filename, formatted_text, config, disk, host).1
            == Ok::<bool, E>(host.report),
{
    if has_original_text(registry, disk, filename, host) {
        lemma_run_emits_original_text(registry, filename, formatted_text, config, disk, host);
        let emission = emission_for(
            original_text(registry, disk, filename),
            filename,
            formatted_text,
            config,
        );
        let job = JobView { filename, formatted_text, config, phase: taken_up::<E>(emission).0 };
        lemma_run_renders(
            job,
            emission->presentation,
            emission->changed,
            disk,
            host.after_resolving(registry, filename),
        );
    } else {
        lemma_run_fails_without_the_file(
            registry,
            filename->Real_0,
            formatted_text,
            config,
            disk,
            host,
        );
    }
}

/// Whether a configuration selects the backed-up writer.
pub open spec fn backs_up(config: Config) -> bool {
    config.emit_mode() == EmitMode::Files && config.make_backup()
}

/// Whether a configuration selects the plain writer.
pub open spec fn overwrites(config: Config) -> bool {
    config.emit_mode() == EmitMode::Files && !config.make_backup()
}

/// The backed-up writer on a file that is on the disk and that formatting
/// changed, with a host that is able to do all of the work, where the file
/// and its two siblings are three different paths: the run succeeds and
/// reports no follow-up, the file holds the formatted text, the backup
/// holds what the file held before, the temporary sibling is gone, and
/// every other path is as it was. What the file held before is the
/// original text, unless the registry held another.
pub proof fn lemma_backed_up_run<E>(
    registry: Option<Seq<SourceFileView>>,
    path: Seq<char>,
    formatted_text: Seq<char>,
    config: Config,
    disk: Disk,
    host: Host<E>,
)
    requires
        backs_up(config),
        disk.dom().contains(path),
        original_text(registry, disk, FileNameView::Real(path)) != formatted_text,
        host.able >= 4,
    ensures
        ({
            let tmp_name = path_with_extension(path, tmp_extension());
            let bk_name = path_with_extension(path, bk_extension());
            distinct_paths(path, tmp_name, bk_name) ==> run_file(
                registry,
                FileNameView::Real(path),
                formatted_text,
                config,
                disk,
                host,
            ) == (
                disk.remove(tmp_name).insert(bk_name, disk[path]).insert(path, formatted_text),
                Ok::<bool, E>(false),
            )
        }),
        ({
            let tmp_name = path_with_extension(path, tmp_extension());
            let bk_name = path_with_extension(path, bk_extension());
            let after = run_file(
                registry,
                FileNameView::Real(path),
                formatted_text,
                config,
                disk,
                host,
            ).0;
            distinct_paths(path, tmp_name, bk_name) ==> {
                &&& after.dom().contains(path) && after[path] == formatted_text
                &&& after.dom().contains(bk_name) && after[bk_name] == disk[path]
                &&& cached_source(registry, FileNameView::Real(path)) is None ==> after[bk_name]
                    == original_text(registry, disk, FileNameView::Real(path))
                &&& !after.dom().contains(tmp_name)
            }
        }),
{
    let filename = FileNameView::Real(path);
    let tmp_name = path_with_extension(path, tmp_extension());
    let bk_name = path_with_extension(path, bk_extension());
    if distinct_paths(path, tmp_name, bk_name) {
        lemma_run_emits_original_text(registry, filename, formatted_text, config, disk, host);
        let emission = emission_for(
            original_text(registry, disk, filename),
            filename,
            formatted_text,
            config,
        );
        let steps = replacement_steps(path, tmp_name, bk_name, formatted_text);
        assert(emission == EmissionView::Files { steps, needs_followup: false });
        let job = JobView { filename, formatted_text, config, phase: taken_up::<E>(emission).0 };
        lemma_replacement_keeps_backup(disk, path, tmp_name, bk_name, formatted_text);
        lemma_run_carries_out_steps(
            job,
            steps,
            false,
            disk,
            host.after_resolving(registry, filename),
        );
    }
}

/// The backed-up writer never loses what the file held, whatever the host:
/// where the file is on the disk and the file and its two siblings are
/// three different paths, the file or its backup holds after the run what
/// the file held before it, whether the run succeeded or failed on the
/// way.
pub proof fn lemma_backed_up_run_keeps_original<E>(
    registry: Option<Seq<SourceFileView>>,
    path: Seq<char>,
    formatted_text: Seq<char>,
    config: Config,
    disk: Disk,
    host: Host<E>,
)
    requires
        backs_up(config),
        disk.dom().contains(path),
    ensures
        ({
            let tmp_name = path_with_extension(path, tmp_extension());
            let bk_name = path_with_extension(path, bk_extension());
            let after = run_file(
                registry,
                FileNameView::Real(path),
                formatted_text,
                config,
                disk,
                host,
            ).0;
            distinct_paths(path, tmp_name, bk_name) ==> {
                ||| after.dom().contains(path) && after[path] == disk[path]
                ||| after.dom().contains(bk_name) && after[bk_name] == disk[path]
            }
        }),
{
    let filename = FileNameView::Real(path);
    let tmp_name = path_with_extension(path, tmp_extension());
    let bk_name = path_with_extension(path, bk_extension());
    if distinct_paths(path, tmp_name, bk_name) {
        if !has_original_text(registry, disk, filename, host) {
            lemma_run_fails_without_the_file(registry, path, formatted_text, config, disk, host);
        } else if original_text(registry, disk, filename) == formatted_text {
            lemma_unchanged_file_is_left_alone(
                registry,
                filename,
                formatted_text,
                config,
                disk,
                host,
            );
        } else {
            lemma_run_emits_original_text(registry, filename, formatted_text, config, disk, host);
            let emission = emission_for(
                original_text(registry, disk, filename),
                filename,
                formatted_text,
                config,
            );
            let steps = replacement_steps(path, tmp_name, bk_name, formatted_text);
            assert(emission == EmissionView::Files { steps, needs_followup: false });
            let job = JobView {
                filename,
                formatted_text,
                config,
                phase: taken_up::<E>(emission).0,
            };
            let rest = host.after_resolving(registry, filename);
            if rest.able >= 3 {
                lemma_replacement_keeps_backup(disk, path, tmp_name, bk_name, formatted_text);
                lemma_run_carries_out_steps(job, steps, false, disk, rest);
            } else {
                lemma_replacement_prefix(disk, path, tmp_name, bk_name, formatted_text, rest.able);
                lemma_run_stops_at_failure(job, steps, false, disk, rest);
                assert(apply_steps(disk, steps.take(rest.able as int)) == Some(
                    disk_after(disk, path, tmp_name, bk_name, formatted_text, rest.able),
                ));
            }
        }
    }
}

/// The plain writer on a file that formatting changed, with a host that is
/// able to do all of the work: the run succeeds and reports no follow-up,
/// the file holds the formatted text, and no other path appears, goes or
/// changes.
pub proof fn lemma_plain_run<E>(
    registry: Option<Seq<SourceFileView>>,
    path: Seq<char>,
    formatted_text: Seq<char>,
    config: Config,
    disk: Disk,
    host: Host<E>,
)
    requires
        overwrites(config),
        has_original_text(registry, disk, FileNameView::Real(path), host),
        original_text(registry, disk, FileNameView::Real(path)) != formatted_text,
        host.able >= 2,
    ensures
        run_file(registry, FileNameView::Real(path), formatted_text, config, disk, host) == (
            disk.insert(path, formatted_text),
            Ok::<bool, E>(false),
        ),
{
    let filename = FileNameView::Real(path);
    lemma_run_emits_original_text(registry, filename, formatted_text, config, disk, host);
    let file = FormattedFileView {
        original_text: original_text(registry, disk, filename),
        formatted_text,
        filename,
    };
    let emission = emission_for(file.original_text, filename, formatted_text, config);
    let steps = plain_steps(file);
    assert(emission == EmissionView::Files { steps, needs_followup: false });
    let job = JobView { filename, formatted_text, config, phase: taken_up::<E>(emission).0 };
    lemma_plain_write(disk, file);
    lemma_run_carries_out_steps(job, steps, false, disk, host.after_resolving(registry, filename));
}

} // verus!
