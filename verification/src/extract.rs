//! Archive extractor: decides, from what unpacking left at the top level of
//! the destination, which directory holds the sources.

use vstd::prelude::*;
use crate::error::{ErrorView, ExtractionCause, PipelineError};
use crate::scan::{deep_view_push, DirEntry, DirEntryView};

verus! {

/// What unpacking left at the top level of the destination.
#[derive(Debug, Clone, PartialEq, Eq)]
pub enum ExtractedSource {
    /// Exactly one directory: the extracted source tree.
    Found(String),
    /// Several directories, in listing order: the source tree cannot be told.
    Ambiguous(Vec<String>),
    /// No directory at all.
    Empty,
}

/// A classification, with its paths as character sequences.
pub enum ExtractedSourceView {
    Found(Seq<char>),
    Ambiguous(Seq<Seq<char>>),
    Empty,
}

impl View for ExtractedSource {
    type V = ExtractedSourceView;

    open spec fn view(&self) -> ExtractedSourceView {
        match self {
            ExtractedSource::Found(path) => ExtractedSourceView::Found(path@),
            ExtractedSource::Ambiguous(paths) => ExtractedSourceView::Ambiguous(paths.deep_view()),
            ExtractedSource::Empty => ExtractedSourceView::Empty,
        }
    }
}

/// Keeps the path of an entry that is a directory.
pub open spec fn pick_directory() -> spec_fn(DirEntryView) -> Option<Seq<char>> {
    |e: DirEntryView|
        if e.is_dir {
            Some(e.path)
        } else {
            None
        }
}

/// The paths of the directories of a listing, in listing order.
pub open spec fn directories(entries: Seq<DirEntryView>) -> Seq<Seq<char>> {
    entries.filter_map(pick_directory())
}

/// One directory is the source tree; none or several are told apart from it.
pub open spec fn classified(dirs: Seq<Seq<char>>) -> ExtractedSourceView {
    if dirs.len() == 0 {
        ExtractedSourceView::Empty
    } else if dirs.len() == 1 {
        ExtractedSourceView::Found(dirs[0])
    } else {
        ExtractedSourceView::Ambiguous(dirs)
    }
}

/// The directories of a listing.
pub fn top_level_directories(entries: &Vec<DirEntry>) -> (r: Vec<String>)
    ensures
        r.deep_view() == directories(entries.deep_view()),
{
    let mut out: Vec<String> = Vec::new();
    let mut i: usize = 0;
    assert(entries.deep_view().take(0) =~= Seq::empty());
    assert(out.deep_view() =~= Seq::empty());
    while i < entries.len()
        invariant
            i <= entries.len(),
            out.deep_view() == directories(entries.deep_view().take(i as int)),
        decreases entries.len() - i,
    {
        let ghost before = out;
        proof {
            entries.deep_view().lemma_filter_map_take_succ(pick_directory(), i as int);
        }
        if entries[i].is_dir {
            let path = entries[i].path.clone();
            out.push(path);
            proof {
                deep_view_push(before, out, path);
            }
        }
        i += 1;
    }
    assert(entries.deep_view().take(entries.len() as int) =~= entries.deep_view());
    out
}

/// Classifies the top level of the destination after unpacking: the single
/// directory found there, or the fact that there is none, or all of them when
/// there are several. Entries that are not directories do not count.
pub fn classify_top_level(entries: &Vec<DirEntry>) -> (r: ExtractedSource)
    ensures
        r@ == classified(directories(entries.deep_view())),
{
    let mut dirs = top_level_directories(entries);
    if dirs.len() == 0 {
        ExtractedSource::Empty
    } else if dirs.len() == 1 {
        let ghost all = dirs;
        let only = dirs.remove(0);
        assert(only@ == all.deep_view()[0]);
        ExtractedSource::Found(only)
    } else {
        ExtractedSource::Ambiguous(dirs)
    }
}

/// What the pipeline makes of a classification: the source directory, or the
/// reason for which the extraction into `dest` is rejected.
pub open spec fn accepted(found: ExtractedSourceView, dest: Seq<char>) -> Result<Seq<char>, ErrorView> {
    match found {
        ExtractedSourceView::Found(path) => Ok(path),
        ExtractedSourceView::Ambiguous(_) => Err(
            ErrorView::ExtractionFailure { dest, cause: ExtractionCause::ManyDirectories },
        ),
        ExtractedSourceView::Empty => Err(
            ErrorView::ExtractionFailure { dest, cause: ExtractionCause::NoDirectory },
        ),
    }
}

/// The source directory of an extraction into `dest`, if the classification
/// found exactly one; an extraction failure that names `dest` otherwise.
pub fn accept_source(found: ExtractedSource, dest: &str) -> (r: Result<String, PipelineError>)
    ensures
        match r {
            Ok(path) => accepted(found@, dest@) == Ok::<Seq<char>, ErrorView>(path@),
            Err(e) => accepted(found@, dest@) == Err::<Seq<char>, ErrorView>(e@),
        },
{
    match found {
        ExtractedSource::Found(path) => Ok(path),
        ExtractedSource::Ambiguous(_) => Err(
            PipelineError::ExtractionFailure {
                dest: crate::text::owned(dest),
                cause: ExtractionCause::ManyDirectories,
            },
        ),
        ExtractedSource::Empty => Err(
            PipelineError::ExtractionFailure {
                dest: crate::text::owned(dest),
                cause: ExtractionCause::NoDirectory,
            },
        ),
    }
}

/// A listing is classified as found exactly when it holds one directory, and
/// then that directory is the result; none and several are both told apart
/// from it and from each other.
pub proof fn single_directory_is_found(entries: Seq<DirEntryView>)
    ensures
        classified(directories(entries)) is Found <==> directories(entries).len() == 1,
        classified(directories(entries)) is Empty <==> directories(entries).len() == 0,
        classified(directories(entries)) is Ambiguous <==> directories(entries).len() >= 2,
        classified(directories(entries)) matches ExtractedSourceView::Found(p) ==> directories(entries)
            == seq![p],
        classified(directories(entries)) matches ExtractedSourceView::Ambiguous(c) ==> c
            == directories(entries),
{
    let dirs = directories(entries);
    if dirs.len() == 1 {
        assert(dirs =~= seq![dirs[0]]);
    }
}

} // verus!
