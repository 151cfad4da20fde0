//! The source registry: texts that are already in memory, by name.
//!
//! A formatter that has parsed a file holds its text already. The registry
//! lets emission find that text again instead of reading the disk, and it is
//! the only place where the text of standard input can be found.

use crate::config::{FileName, FileNameView};
use vstd::prelude::*;

verus! {

/// The name of a source in the registry.
#[derive(Debug, PartialEq, Eq)]
pub enum SourceName {
    /// A file at this path.
    Real(String),
    /// A source without a file, under a name made up for it.
    Custom(String),
}

/// The mathematical value of a [`SourceName`].
pub enum SourceNameView {
    Real(Seq<char>),
    Custom(Seq<char>),
}

impl View for SourceName {
    type V = SourceNameView;

    open spec fn view(&self) -> SourceNameView {
        match self {
            SourceName::Real(path) => SourceNameView::Real(path@),
            SourceName::Custom(name) => SourceNameView::Custom(name@),
        }
    }
}

impl DeepView for SourceName {
    type V = SourceNameView;

    open spec fn deep_view(&self) -> SourceNameView {
        self@
    }
}

/// The name under which the registry knows `filename`: a real file by its
/// path, standard input as the custom source `stdin`.
pub open spec fn registry_name(filename: FileNameView) -> SourceNameView {
    match filename {
        FileNameView::Real(path) => SourceNameView::Real(path),
        FileNameView::Stdin => SourceNameView::Custom("stdin"@),
    }
}

impl SourceName {
    /// The name under which the registry knows `filename`.
    pub fn of(filename: &FileName) -> (name: SourceName)
        ensures
            name@ == registry_name(filename@),
    {
        match filename {
            FileName::Real(path) => SourceName::Real(path.clone()),
            FileName::Stdin => SourceName::Custom("stdin".to_owned()),
        }
    }

    /// Whether two names are the same name.
    pub fn same_as(&self, other: &SourceName) -> (same: bool)
        ensures
            same == (self@ == other@),
    {
        match (self, other) {
            (SourceName::Real(a), SourceName::Real(b)) => *a == *b,
            (SourceName::Custom(a), SourceName::Custom(b)) => *a == *b,
            _ => false,
        }
    }
}

/// One source of the registry. The text is missing for a source that is
/// known by name only.
#[derive(Debug, PartialEq, Eq)]
pub struct SourceFile {
    pub name: SourceName,
    pub src: Option<String>,
}

/// The mathematical value of a [`SourceFile`].
pub struct SourceFileView {
    pub name: SourceNameView,
    pub src: Option<Seq<char>>,
}

impl View for SourceFile {
    type V = SourceFileView;

    open spec fn view(&self) -> SourceFileView {
        SourceFileView {
            name: self.name@,
            src: match self.src {
                Some(text) => Some(text@),
                None => None,
            },
        }
    }
}

impl DeepView for SourceFile {
    type V = SourceFileView;

    open spec fn deep_view(&self) -> SourceFileView {
        self@
    }
}

/// The first of `files` that goes by `name`, if there is one.
pub open spec fn first_named(files: Seq<SourceFileView>, name: SourceNameView) -> Option<
    SourceFileView,
>
    decreases files.len(),
{
    if files.len() == 0 {
        None
    } else if files.first().name == name {
        Some(files.first())
    } else {
        first_named(files.drop_first(), name)
    }
}

/// What [`first_named`] finds, said without recursion: the file at the least
/// index that carries the name, and nothing where no file carries it.
pub proof fn lemma_first_named(files: Seq<SourceFileView>, name: SourceNameView)
    ensures
        match first_named(files, name) {
            Some(file) => exists|i: int|
                0 <= i < files.len() && files[i] == file && file.name == name && forall|j: int|
                    0 <= j < i ==> (#[trigger] files[j]).name != name,
            None => forall|i: int| 0 <= i < files.len() ==> (#[trigger] files[i]).name != name,
        },
    decreases files.len(),
{
    if files.len() == 0 {
    } else if files.first().name == name {
        assert(files[0] == files.first());
    } else {
        let rest = files.drop_first();
        lemma_first_named(rest, name);
        assert forall|i: int| 0 <= i < rest.len() implies rest[i] == files[i + 1] by {}
        match first_named(rest, name) {
            Some(file) => {
                let i = choose|i: int|
                    0 <= i < rest.len() && rest[i] == file && file.name == name && forall|j: int|
                        0 <= j < i ==> (#[trigger] rest[j]).name != name;
                assert(files[i + 1] == file);
                assert forall|j: int| 0 <= j < i + 1 implies (#[trigger] files[j]).name
                    != name by {
                    if j > 0 {
                        assert(rest[j - 1] == files[j]);
                    }
                }
            },
            None => {
                assert forall|i: int| 0 <= i < files.len() implies (#[trigger] files[i]).name
                    != name by {
                    if i > 0 {
                        assert(rest[i - 1] == files[i]);
                    }
                }
            },
        }
    }
}

/// The sources that are in memory, in the order in which they came.
#[derive(Debug, PartialEq, Eq)]
pub struct SourceRegistry {
    files: Vec<SourceFile>,
}

impl View for SourceRegistry {
    type V = Seq<SourceFileView>;

    closed spec fn view(&self) -> Seq<SourceFileView> {
        self.files.deep_view()
    }
}

impl SourceRegistry {
    /// A registry without sources.
    pub fn new() -> (registry: SourceRegistry)
        ensures
            registry@ == Seq::<SourceFileView>::empty(),
    {
        let registry = SourceRegistry { files: Vec::new() };
        assert(registry@ =~= Seq::<SourceFileView>::empty());
        registry
    }

    /// Adds a source after those that are there. A source whose name is
    /// taken already is never found by that name.
    pub fn new_source_file(&mut self, name: SourceName, src: Option<String>)
        ensures
            final(self)@ == old(self)@.push(
                SourceFileView {
                    name: name@,
                    src: match src {
                        Some(text) => Some(text@),
                        None => None,
                    },
                },
            ),
    {
        let file = SourceFile { name, src };
        self.files.push(file);
        assert(self@ =~= old(self)@.push(file@));
    }

    /// The first source that goes by `name`.
    pub fn get_source_file(&self, name: &SourceName) -> (found: Option<&SourceFile>)
        ensures
            match found {
                Some(file) => first_named(self@, name@) == Some(file@),
                None => first_named(self@, name@) is None,
            },
    {
        let mut i: usize = 0;
        assert(self@.skip(0) =~= self@);
        while i < self.files.len()
            invariant
                i <= self.files.len(),
                first_named(self@, name@) == first_named(self@.skip(i as int), name@),
            decreases self.files.len() - i,
        {
            let file = &self.files[i];
            proof {
                let rest = self@.skip(i as int);
                assert(rest.first() == file@);
                assert(rest.drop_first() =~= self@.skip(i + 1));
            }
            if file.name.same_as(name) {
                return Some(file);
            }
            i += 1;
        }
        None
    }
}

} // verus!
