//! The in-place writer that keeps the previous contents as a backup.

use crate::disk::{apply_steps, lemma_apply_steps_push, Disk, FsStep, FsStepView};
use crate::emitter::{ensure_real_path, Emission, EmissionView, FormattedFile, FormattedFileView};
use crate::std_specs::{path_with_extension, with_extension};
use vstd::prelude::*;

verus! {

/// The extension of the sibling that holds the new text for a moment.
pub open spec fn tmp_extension() -> Seq<char> {
    "tmp"@
}

/// The extension of the sibling that keeps the previous contents.
pub open spec fn bk_extension() -> Seq<char> {
    "bk"@
}

/// The replacement protocol for the file at `target`: write the new
/// contents to `tmp_name`, move the file itself to `bk_name`, then move
/// `tmp_name` into the file's place.
pub open spec fn replacement_steps(
    target: Seq<char>,
    tmp_name: Seq<char>,
    bk_name: Seq<char>,
    contents: Seq<char>,
) -> Seq<FsStepView> {
    seq![
        FsStepView::Write { path: tmp_name, contents },
        FsStepView::Rename { from: target, to: bk_name },
        FsStepView::Rename { from: tmp_name, to: target },
    ]
}

/// The steps by which the backed-up writer emits `file`: none where
/// formatting changed nothing, else the replacement protocol with the two
/// siblings of the file that carry the extensions `tmp` and `bk`.
pub open spec fn backed_up_steps(file: FormattedFileView) -> Seq<FsStepView> {
    let target = file.filename->Real_0;
    if file.changed() {
        replacement_steps(
            target,
            path_with_extension(target, tmp_extension()),
            path_with_extension(target, bk_extension()),
            file.formatted_text,
        )
    } else {
        Seq::empty()
    }
}

/// The replacement protocol as steps for the host.
pub fn replace_with_backup(
    target: &str,
    tmp_name: String,
    bk_name: String,
    contents: &str,
) -> (steps: Vec<FsStep>)
    ensures
        steps.deep_view() == replacement_steps(target@, tmp_name@, bk_name@, contents@),
{
    let mut steps: Vec<FsStep> = Vec::new();
    steps.push(FsStep::Write { path: tmp_name.clone(), contents: contents.to_owned() });
    steps.push(FsStep::Rename { from: target.to_owned(), to: bk_name });
    steps.push(FsStep::Rename { from: tmp_name, to: target.to_owned() });
    assert(steps.deep_view() =~= replacement_steps(target@, tmp_name@, bk_name@, contents@));
    steps
}

/// The in-place writer that keeps the previous contents as a backup.
#[derive(Clone, Copy, Debug, PartialEq, Eq, Structural)]
pub struct FilesWithBackupEmitter;

impl FilesWithBackupEmitter {
    /// The in-place writer with a backup.
    pub fn new() -> (emitter: Self)
        ensures
            emitter == FilesWithBackupEmitter,
    {
        FilesWithBackupEmitter
    }

    /// Replaces the file by the formatted text and keeps what it held under
    /// the sibling with the extension `bk`, if formatting changed the text.
    /// The new text goes to the sibling with the extension `tmp` first, so
    /// that the file is never written over in place.
    pub fn write_file(&mut self, file: FormattedFile<'_>) -> (emission: Emission)
        requires
            file@.filename is Real,
        ensures
            *final(self) == *old(self),
            emission@ == (EmissionView::Files {
                steps: backed_up_steps(file@),
                needs_followup: false,
            }),
    {
        let filename = ensure_real_path(file.filename);
        if *file.original_text != *file.formatted_text {
            proof {
                reveal_strlit("tmp");
                reveal_strlit("bk");
            }
            let tmp_name = with_extension(filename, "tmp");
            let bk_name = with_extension(filename, "bk");
            Emission::Files {
                steps: replace_with_backup(filename, tmp_name, bk_name, file.formatted_text),
                needs_followup: false,
            }
        } else {
            let steps: Vec<FsStep> = Vec::new();
            assert(steps.deep_view() =~= backed_up_steps(file@));
            Emission::Files { steps, needs_followup: false }
        }
    }
}

/// Whether the file, its temporary sibling and its backup sibling are three
/// different paths. They are not where the file itself carries one of the two
/// extensions, or has no name that could carry one.
pub open spec fn distinct_paths(
    target: Seq<char>,
    tmp_name: Seq<char>,
    bk_name: Seq<char>,
) -> bool {
    tmp_name != target && bk_name != target && tmp_name != bk_name
}

/// The replacement protocol, carried out in full on a disk that holds the
/// file: the file then holds the new contents, the backup holds what the
/// file held before, the temporary sibling is gone, and every other path is
/// as it was.
pub proof fn lemma_replacement_keeps_backup(
    disk: Disk,
    target: Seq<char>,
    tmp_name: Seq<char>,
    bk_name: Seq<char>,
    contents: Seq<char>,
)
    requires
        disk.dom().contains(target),
        distinct_paths(target, tmp_name, bk_name),
    ensures
        apply_steps(disk, replacement_steps(target, tmp_name, bk_name, contents)) == Some(
            disk.remove(tmp_name).insert(bk_name, disk[target]).insert(target, contents),
        ),
        match apply_steps(disk, replacement_steps(target, tmp_name, bk_name, contents)) {
            Some(after) => {
                &&& after.dom().contains(target) && after[target] == contents
                &&& after.dom().contains(bk_name) && after[bk_name] == disk[target]
                &&& !after.dom().contains(tmp_name)
                &&& forall|path: Seq<char>|
                    path != target && path != tmp_name && path != bk_name ==> (
                    after.dom().contains(path) == disk.dom().contains(path)) && after[path]
                        == disk[path]
            },
            None => false,
        },
{
    let steps = replacement_steps(target, tmp_name, bk_name, contents);
    lemma_replacement_prefix(disk, target, tmp_name, bk_name, contents, 3);
    assert(steps.take(3) =~= steps);
}

/// The disk after the first `done` steps of the replacement protocol.
pub open spec fn disk_after(
    disk: Disk,
    target: Seq<char>,
    tmp_name: Seq<char>,
    bk_name: Seq<char>,
    contents: Seq<char>,
    done: nat,
) -> Disk {
    if done == 0 {
        disk
    } else if done == 1 {
        disk.insert(tmp_name, contents)
    } else if done == 2 {
        disk.insert(tmp_name, contents).remove(target).insert(bk_name, disk[target])
    } else {
        disk.remove(tmp_name).insert(bk_name, disk[target]).insert(target, contents)
    }
}

/// Every step of the replacement protocol can succeed on a disk that holds
/// the file, and [`disk_after`] is what the first `done` of them leave.
pub proof fn lemma_replacement_prefix(
    disk: Disk,
    target: Seq<char>,
    tmp_name: Seq<char>,
    bk_name: Seq<char>,
    contents: Seq<char>,
    done: nat,
)
    requires
        disk.dom().contains(target),
        distinct_paths(target, tmp_name, bk_name),
        done <= 3,
    ensures
        apply_steps(disk, replacement_steps(target, tmp_name, bk_name, contents).take(done as int))
            == Some(disk_after(disk, target, tmp_name, bk_name, contents, done)),
{
    let steps = replacement_steps(target, tmp_name, bk_name, contents);
    assert(steps.take(0) =~= Seq::<FsStepView>::empty());
    if done >= 1 {
        lemma_apply_steps_push(disk, steps.take(0), steps[0]);
        assert(steps.take(1) =~= steps.take(0).push(steps[0]));
    }
    if done >= 2 {
        lemma_apply_steps_push(disk, steps.take(1), steps[1]);
        assert(steps.take(2) =~= steps.take(1).push(steps[1]));
    }
    if done >= 3 {
        lemma_apply_steps_push(disk, steps.take(2), steps[2]);
        assert(steps.take(3) =~= steps.take(2).push(steps[2]));
        let renamed = disk.insert(tmp_name, contents).remove(target).insert(bk_name, disk[target]);
        assert(renamed.remove(tmp_name).insert(target, contents) =~= disk_after(
            disk,
            target,
            tmp_name,
            bk_name,
            contents,
            3,
        ));
    }
}

/// The replacement protocol never loses the previous contents: after any
/// number of its steps, the file or its backup holds what the file held
/// before, so a failure of the step that follows leaves them recoverable.
pub proof fn lemma_replacement_never_loses_original(
    disk: Disk,
    target: Seq<char>,
    tmp_name: Seq<char>,
    bk_name: Seq<char>,
    contents: Seq<char>,
    done: nat,
)
    requires
        disk.dom().contains(target),
        distinct_paths(target, tmp_name, bk_name),
        done <= 3,
    ensures
        match apply_steps(
            disk,
            replacement_steps(target, tmp_name, bk_name, contents).take(done as int),
        ) {
            Some(after) => {
                ||| after.dom().contains(target) && after[target] == disk[target]
                ||| after.dom().contains(bk_name) && after[bk_name] == disk[target]
            },
            None => false,
        },
{
    lemma_replacement_prefix(disk, target, tmp_name, bk_name, contents, done);
}

/// The backed-up writer on a file that formatting changed and that holds
/// the original text on disk: where the file and its two siblings are three
/// different paths, the backup then holds the original text, the file holds
/// the formatted text, and the temporary sibling is gone.
pub proof fn lemma_backed_up_write(disk: Disk, file: FormattedFileView)
    requires
        file.filename is Real,
        file.changed(),
        disk.dom().contains(file.filename->Real_0),
        disk[file.filename->Real_0] == file.original_text,
    ensures
        ({
            let target = file.filename->Real_0;
            let tmp_name = path_with_extension(target, tmp_extension());
            let bk_name = path_with_extension(target, bk_extension());
            distinct_paths(target, tmp_name, bk_name) ==> match apply_steps(
                disk,
                backed_up_steps(file),
            ) {
                Some(after) => {
                    &&& after.dom().contains(bk_name) && after[bk_name] == file.original_text
                    &&& after.dom().contains(target) && after[target] == file.formatted_text
                    &&& !after.dom().contains(tmp_name)
                },
                None => false,
            }
        }),
{
    let target = file.filename->Real_0;
    let tmp_name = path_with_extension(target, tmp_extension());
    let bk_name = path_with_extension(target, bk_extension());
    if distinct_paths(target, tmp_name, bk_name) {
        lemma_replacement_keeps_backup(disk, target, tmp_name, bk_name, file.formatted_text);
    }
}

} // verus!
