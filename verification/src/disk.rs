//! The steps that an in-place writer asks of the file system, and a
//! mathematical model of what they do.
//!
//! The model is a map from the text of a path to the text stored under it. It
//! knows nothing of directories, links or permissions, and two different
//! texts are two different files in it.

use vstd::prelude::*;

verus! {

/// One change to the file system, to be carried out by the host.
#[derive(Debug, PartialEq, Eq)]
pub enum FsStep {
    /// Store `contents` under `path`, replacing what was there.
    Write { path: String, contents: String },
    /// Move what is under `from` to `to`, replacing what was there.
    Rename { from: String, to: String },
}

/// The mathematical value of an [`FsStep`].
pub enum FsStepView {
    Write { path: Seq<char>, contents: Seq<char> },
    Rename { from: Seq<char>, to: Seq<char> },
}

impl View for FsStep {
    type V = FsStepView;

    open spec fn view(&self) -> FsStepView {
        match self {
            FsStep::Write { path, contents } => FsStepView::Write {
                path: path@,
                contents: contents@,
            },
            FsStep::Rename { from, to } => FsStepView::Rename { from: from@, to: to@ },
        }
    }
}

impl DeepView for FsStep {
    type V = FsStepView;

    open spec fn deep_view(&self) -> FsStepView {
        self@
    }
}

/// The files on disk: the contents stored under each path that exists.
pub type Disk = Map<Seq<char>, Seq<char>>;

/// The disk after `step` has succeeded on `disk`, or `None` where the step
/// cannot succeed: a rename needs its source to exist.
pub open spec fn apply_step(disk: Disk, step: FsStepView) -> Option<Disk> {
    match step {
        FsStepView::Write { path, contents } => Some(disk.insert(path, contents)),
        FsStepView::Rename { from, to } => if disk.dom().contains(from) {
            Some(disk.remove(from).insert(to, disk[from]))
        } else {
            None
        },
    }
}

/// The disk after all of `steps` have succeeded in order on `disk`, or `None`
/// where one of them cannot succeed.
pub open spec fn apply_steps(disk: Disk, steps: Seq<FsStepView>) -> Option<Disk>
    decreases steps.len(),
{
    if steps.len() == 0 {
        Some(disk)
    } else {
        match apply_step(disk, steps.first()) {
            Some(next) => apply_steps(next, steps.drop_first()),
            None => None,
        }
    }
}

/// Steps are carried out in order: the disk after one more step is the disk
/// after the steps before it, with that step applied.
pub proof fn lemma_apply_steps_push(disk: Disk, steps: Seq<FsStepView>, step: FsStepView)
    ensures
        apply_steps(disk, steps.push(step)) == match apply_steps(disk, steps) {
            Some(reached) => apply_step(reached, step),
            None => None,
        },
    decreases steps.len(),
{
    let longer = steps.push(step);
    if steps.len() == 0 {
        assert(longer.first() == step);
        assert(longer.drop_first() =~= Seq::<FsStepView>::empty());
        match apply_step(disk, step) {
            Some(next) => {
                assert(apply_steps(next, longer.drop_first()) == Some(next));
            },
            None => {},
        }
    } else {
        assert(longer.first() == steps.first());
        assert(longer.drop_first() =~= steps.drop_first().push(step));
        match apply_step(disk, steps.first()) {
            Some(next) => {
                lemma_apply_steps_push(next, steps.drop_first(), step);
            },
            None => {},
        }
    }
}

} // verus!
