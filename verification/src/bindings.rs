//! Binding generator: what the generator is asked to do, decided before it
//! is invoked.

use vstd::prelude::*;
use vstd::string::StringExecFns;
use crate::paths::{join, joined};
use crate::text::{append, owned};

verus! {

/// One run of the binding generator: the prelude header first, then the
/// installed headers in order, documentation kept as comments if `comments`,
/// and the interface written to `output`.
#[derive(Debug, Clone, PartialEq, Eq)]
pub struct BindingPlan {
    pub prelude: String,
    pub headers: Vec<String>,
    pub comments: bool,
    pub output: String,
}

/// A plan, with its texts as character sequences.
pub struct BindingPlanView {
    pub prelude: Seq<char>,
    pub headers: Seq<Seq<char>>,
    pub comments: bool,
    pub output: Seq<char>,
}

impl View for BindingPlan {
    type V = BindingPlanView;

    open spec fn view(&self) -> BindingPlanView {
        BindingPlanView {
            prelude: self.prelude@,
            headers: self.headers.deep_view(),
            comments: self.comments,
            output: self.output@,
        }
    }
}

/// The include directory of an install prefix.
pub open spec fn include_dir(prefix: Seq<char>) -> Seq<char> {
    joined(prefix, "include"@)
}

/// Where each named header is expected after installation.
pub open spec fn header_paths(prefix: Seq<char>, headers: Seq<Seq<char>>) -> Seq<Seq<char>> {
    headers.map_values(|h: Seq<char>| joined(include_dir(prefix), h))
}

/// The name of the interface file of a logical library.
pub open spec fn interface_name(library: Seq<char>) -> Seq<char> {
    "bindings_"@ + library + ".rs"@
}

/// The plan for one logical library: its interface file lies in the work
/// directory, and documentation is always kept.
pub open spec fn planned(
    work_dir: Seq<char>,
    prefix: Seq<char>,
    library: Seq<char>,
    prelude: Seq<char>,
    headers: Seq<Seq<char>>,
) -> BindingPlanView {
    BindingPlanView {
        prelude,
        headers: header_paths(prefix, headers),
        comments: true,
        output: joined(work_dir, interface_name(library)),
    }
}

/// The paths at which the headers named in `headers` are expected under `prefix`.
pub fn header_files(prefix: &str, headers: &Vec<String>) -> (r: Vec<String>)
    ensures
        r.deep_view() == header_paths(prefix@, headers.deep_view()),
{
    let dir = join(prefix, "include");
    let mut out: Vec<String> = Vec::new();
    let mut i: usize = 0;
    while i < headers.len()
        invariant
            i <= headers.len(),
            out.len() == i,
            dir@ == include_dir(prefix@),
            forall|j: int| 0 <= j < i ==> (#[trigger] out@[j])@ == joined(dir@, headers@[j]@),
        decreases headers.len() - i,
    {
        out.push(join(dir.as_str(), headers[i].as_str()));
        i += 1;
    }
    assert(out.deep_view() =~= header_paths(prefix@, headers.deep_view()));
    out
}

/// The name of the interface file of the logical library `library`.
pub fn interface_file_name(library: &str) -> (r: String)
    ensures
        r@ == interface_name(library@),
{
    append("bindings_", library).concat(".rs")
}

/// The plan for generating the interface of `library` from `prelude` and the
/// headers installed under `prefix`.
pub fn plan_bindings(
    work_dir: &str,
    prefix: &str,
    library: &str,
    prelude: &str,
    headers: &Vec<String>,
) -> (r: BindingPlan)
    ensures
        r@ == planned(work_dir@, prefix@, library@, prelude@, headers.deep_view()),
{
    let name = interface_file_name(library);
    BindingPlan {
        prelude: owned(prelude),
        headers: header_files(prefix, headers),
        comments: true,
        output: join(work_dir, name.as_str()),
    }
}

} // verus!
