//! The one pipeline that ships configured: the x264 encoder library.

use vstd::prelude::*;
use crate::invoke::{available_cores, BuildStyle, BuildStyleView};
use crate::link::{StaticLibrarySpec, StaticLibraryView};
use crate::pipeline::{Config, ConfigView};
use crate::text::owned;

verus! {

/// The static libraries of x264: the library `x264`, archived as `libx264.a`.
pub open spec fn x264_libs() -> Seq<StaticLibraryView> {
    seq![StaticLibraryView { name: "x264"@, archive: "./libx264.a"@ }]
}

/// The headers of x264 to bind.
pub open spec fn x264_headers() -> Seq<Seq<char>> {
    seq!["x264.h"@]
}

/// The x264 pipeline in the work directory `work_dir`, built with `jobs` jobs.
pub open spec fn x264_preset(work_dir: Seq<char>, jobs: nat) -> ConfigView {
    ConfigView {
        archive: "archive/x264-stable.tar.gz"@,
        work_dir,
        library: "x264"@,
        prelude: "include/prelude.h"@,
        style: BuildStyleView::Configure,
        static_libs: x264_libs(),
        headers: x264_headers(),
        jobs,
    }
}

/// The table of static libraries to link for x264.
pub fn static_libs() -> (r: Vec<StaticLibrarySpec>)
    ensures
        r.deep_view() == x264_libs(),
{
    let mut libs: Vec<StaticLibrarySpec> = Vec::new();
    libs.push(StaticLibrarySpec { name: owned("x264"), archive: owned("./libx264.a") });
    assert(libs.deep_view() =~= x264_libs());
    libs
}

/// The list of installed headers to bind for x264.
pub fn headers() -> (r: Vec<String>)
    ensures
        r.deep_view() == x264_headers(),
{
    let mut names: Vec<String> = Vec::new();
    names.push(owned("x264.h"));
    assert(names.deep_view() =~= x264_headers());
    names
}

/// The x264 pipeline in `work_dir`, with the native build given `jobs` jobs.
pub fn x264_with_jobs(work_dir: &str, jobs: usize) -> (r: Config)
    ensures
        r@ == x264_preset(work_dir@, jobs as nat),
{
    Config {
        archive: owned("archive/x264-stable.tar.gz"),
        work_dir: owned(work_dir),
        library: owned("x264"),
        prelude: owned("include/prelude.h"),
        style: BuildStyle::Configure,
        static_libs: static_libs(),
        headers: headers(),
        jobs,
    }
}

/// The x264 pipeline in `work_dir`, with as many jobs as this machine has
/// cores available: at least one, whatever the machine.
pub fn x264(work_dir: &str) -> (r: Config)
    ensures
        r.jobs >= 1,
        r@ == x264_preset(work_dir@, r.jobs as nat),
{
    x264_with_jobs(work_dir, available_cores())
}

} // verus!
