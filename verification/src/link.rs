//! Link configuration emitter: the directives that tell the host build system
//! where the static libraries are and which of them to link.

use vstd::prelude::*;
use crate::paths::{join, joined};
use crate::text::append;

verus! {

/// A static library to link: its logical name, and the path of its archive
/// relative to the library directory of the install prefix.
#[derive(Debug, Clone, PartialEq, Eq)]
pub struct StaticLibrarySpec {
    pub name: String,
    pub archive: String,
}

/// A static library, with its texts as character sequences.
pub struct StaticLibraryView {
    pub name: Seq<char>,
    pub archive: Seq<char>,
}

impl View for StaticLibrarySpec {
    type V = StaticLibraryView;

    open spec fn view(&self) -> StaticLibraryView {
        StaticLibraryView { name: self.name@, archive: self.archive@ }
    }
}

impl DeepView for StaticLibrarySpec {
    type V = StaticLibraryView;

    open spec fn deep_view(&self) -> StaticLibraryView {
        self@
    }
}

/// The library directory of an install prefix.
pub open spec fn library_dir(prefix: Seq<char>) -> Seq<char> {
    joined(prefix, "lib"@)
}

/// The directive that declares the static-library search path.
pub open spec fn search_line(prefix: Seq<char>) -> Seq<char> {
    "cargo:rustc-link-search=native="@ + library_dir(prefix)
}

/// The directive that declares one static library by name.
pub open spec fn library_line(name: Seq<char>) -> Seq<char> {
    "cargo:rustc-link-lib=static="@ + name
}

/// All link directives: the search path first, then one line per library in
/// the order in which the libraries are declared.
pub open spec fn link_lines(prefix: Seq<char>, libs: Seq<StaticLibraryView>) -> Seq<Seq<char>> {
    seq![search_line(prefix)] + libs.map_values(|l: StaticLibraryView| library_line(l.name))
}

/// Where each declared library's archive is expected after installation.
pub open spec fn archive_paths(prefix: Seq<char>, libs: Seq<StaticLibraryView>) -> Seq<Seq<char>> {
    libs.map_values(|l: StaticLibraryView| joined(library_dir(prefix), l.archive))
}

/// The link directives for the libraries `libs` installed under `prefix`.
pub fn link_directives(prefix: &str, libs: &Vec<StaticLibrarySpec>) -> (r: Vec<String>)
    ensures
        r.deep_view() == link_lines(prefix@, libs.deep_view()),
{
    let dir = join(prefix, "lib");
    let mut out: Vec<String> = Vec::new();
    out.push(append("cargo:rustc-link-search=native=", dir.as_str()));
    let mut i: usize = 0;
    while i < libs.len()
        invariant
            i <= libs.len(),
            out.len() == i + 1,
            out@[0]@ == search_line(prefix@),
            forall|j: int| 0 <= j < i ==> (#[trigger] out@[j + 1])@ == library_line(libs@[j].name@),
        decreases libs.len() - i,
    {
        out.push(append("cargo:rustc-link-lib=static=", libs[i].name.as_str()));
        i += 1;
    }
    assert(out.deep_view() =~= link_lines(prefix@, libs.deep_view())) by {
        let want = link_lines(prefix@, libs.deep_view());
        assert(out.deep_view().len() == want.len());
        assert forall|k: int| 0 <= k < want.len() implies out.deep_view()[k] == want[k] by {
            if k > 0 {
                assert(out@[(k - 1) + 1]@ == library_line(libs@[k - 1].name@));
            }
        }
    }
    out
}

/// The paths at which the archives of `libs` are expected under `prefix`.
pub fn library_files(prefix: &str, libs: &Vec<StaticLibrarySpec>) -> (r: Vec<String>)
    ensures
        r.deep_view() == archive_paths(prefix@, libs.deep_view()),
{
    let dir = join(prefix, "lib");
    let mut out: Vec<String> = Vec::new();
    let mut i: usize = 0;
    while i < libs.len()
        invariant
            i <= libs.len(),
            out.len() == i,
            dir@ == library_dir(prefix@),
            forall|j: int| 0 <= j < i ==> (#[trigger] out@[j])@ == joined(dir@, libs@[j].archive@),
        decreases libs.len() - i,
    {
        out.push(join(dir.as_str(), libs[i].archive.as_str()));
        i += 1;
    }
    assert(out.deep_view() =~= archive_paths(prefix@, libs.deep_view()));
    out
}

/// Exactly one search-path directive is emitted, first, and then exactly one
/// directive for each declared library, in declaration order.
pub proof fn link_lines_shape(prefix: Seq<char>, libs: Seq<StaticLibraryView>)
    ensures
        link_lines(prefix, libs).len() == 1 + libs.len(),
        link_lines(prefix, libs)[0] == search_line(prefix),
        forall|i: int| 0 <= i < libs.len() ==> #[trigger] link_lines(prefix, libs)[i + 1] == library_line(
            libs[i].name,
        ),
{
}

} // verus!
