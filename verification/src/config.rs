//! The configuration surface that emission reads, and the logical file name.

use vstd::prelude::*;

verus! {

/// Where the formatted text goes. Exactly one value is active per run.
#[derive(Clone, Copy, Debug, PartialEq, Eq, Structural)]
pub enum EmitMode {
    /// Replace the file on disk.
    Files,
    /// Write the formatted text to the output sink.
    Stdout,
    /// Coverage output; emitted like `Stdout`.
    Coverage,
    /// Write the changed line ranges to the output sink.
    ModifiedLines,
    /// Write a checkstyle report fragment to the output sink.
    Checkstyle,
    /// Write a unified diff to the output sink.
    Diff,
}

/// The logical name of a unit of source text.
#[derive(Debug, PartialEq, Eq)]
pub enum FileName {
    /// A file at this path.
    Real(String),
    /// Standard input, which has no path.
    Stdin,
}

/// The mathematical value of a [`FileName`].
pub enum FileNameView {
    Real(Seq<char>),
    Stdin,
}

impl View for FileName {
    type V = FileNameView;

    open spec fn view(&self) -> FileNameView {
        match self {
            FileName::Real(path) => FileNameView::Real(path@),
            FileName::Stdin => FileNameView::Stdin,
        }
    }
}

impl DeepView for FileName {
    type V = FileNameView;

    open spec fn deep_view(&self) -> FileNameView {
        self@
    }
}

impl FileName {
    /// The path of a real file, `None` for standard input.
    pub fn real_path(&self) -> (path: Option<&str>)
        ensures
            match self@ {
                FileNameView::Real(p) => path matches Some(s) && s@ == p,
                FileNameView::Stdin => path is None,
            },
    {
        match self {
            FileName::Real(path) => Some(path.as_str()),
            FileName::Stdin => None,
        }
    }

}

impl Clone for FileName {
    fn clone(&self) -> (copy: FileName)
        ensures
            copy@ == self@,
    {
        match self {
            FileName::Real(path) => FileName::Real(path.clone()),
            FileName::Stdin => FileName::Stdin,
        }
    }
}

/// The settings that emission consults. Read-only while files are emitted.
#[derive(Clone, Copy, Debug, PartialEq, Eq, Structural)]
pub struct Config {
    emit_mode: EmitMode,
    make_backup: bool,
    verbose: bool,
}

impl Config {
    /// A configuration with the given settings.
    pub fn new(emit_mode: EmitMode, make_backup: bool, verbose: bool) -> (config: Config)
        ensures
            config.spec_emit_mode() == emit_mode,
            config.spec_make_backup() == make_backup,
            config.spec_verbose() == verbose,
    {
        Config { emit_mode, make_backup, verbose }
    }

    pub closed spec fn spec_emit_mode(&self) -> EmitMode {
        self.emit_mode
    }

    pub closed spec fn spec_make_backup(&self) -> bool {
        self.make_backup
    }

    pub closed spec fn spec_verbose(&self) -> bool {
        self.verbose
    }

    /// The output mode of this run.
    #[verifier::when_used_as_spec(spec_emit_mode)]
    pub fn emit_mode(&self) -> (mode: EmitMode)
        ensures
            mode == self.spec_emit_mode(),
    {
        self.emit_mode
    }

    /// Whether an in-place write keeps the previous contents as a backup.
    #[verifier::when_used_as_spec(spec_make_backup)]
    pub fn make_backup(&self) -> (backup: bool)
        ensures
            backup == self.spec_make_backup(),
    {
        self.make_backup
    }

    /// Whether output to the sink is verbose.
    #[verifier::when_used_as_spec(spec_verbose)]
    pub fn verbose(&self) -> (verbose: bool)
        ensures
            verbose == self.spec_verbose(),
    {
        self.verbose
    }
}

} // verus!
