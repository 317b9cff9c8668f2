//! Native build invoker: the subprocesses that configure, build and install
//! the vendored sources, and the judgement of how they exited.

use vstd::prelude::*;
use crate::error::{ErrorView, PipelineError};
use crate::text::{append, decimal, decimal_digits, owned};

verus! {

/// One subprocess to run: a program, its arguments in order, and the
/// directory to run it in (`None`: the directory of the caller).
#[derive(Debug, Clone, PartialEq, Eq)]
pub struct Invocation {
    pub program: String,
    pub args: Vec<String>,
    pub dir: Option<String>,
}

/// A subprocess, with its texts as character sequences.
pub struct InvocationView {
    pub program: Seq<char>,
    pub args: Seq<Seq<char>>,
    pub dir: Option<Seq<char>>,
}

impl View for Invocation {
    type V = InvocationView;

    open spec fn view(&self) -> InvocationView {
        InvocationView {
            program: self.program@,
            args: self.args.deep_view(),
            dir: match self.dir {
                Some(d) => Some(d@),
                None => None,
            },
        }
    }
}

/// How the native project is built.
#[derive(Debug, Clone, PartialEq, Eq)]
pub enum BuildStyle {
    /// A configuration step, then `make all install`.
    Configure,
    /// A single `make` run on a named makefile.
    Makefile { file: String },
}

/// A build style, with its texts as character sequences.
pub enum BuildStyleView {
    Configure,
    Makefile { file: Seq<char> },
}

impl View for BuildStyle {
    type V = BuildStyleView;

    open spec fn view(&self) -> BuildStyleView {
        match self {
            BuildStyle::Configure => BuildStyleView::Configure,
            BuildStyle::Makefile { file } => BuildStyleView::Makefile { file: file@ },
        }
    }
}

/// The configuration step: run in the source directory, told where to install,
/// with the command-line tool disabled and the static library enabled.
pub open spec fn configure_command(source: Seq<char>, prefix: Seq<char>) -> InvocationView {
    InvocationView {
        program: "./configure"@,
        args: seq!["--prefix="@ + prefix, "--disable-cli"@, "--enable-static"@],
        dir: Some(source),
    }
}

/// The build and install step: run in the source directory, with `jobs`
/// parallel jobs, on the targets `all` and then `install`.
pub open spec fn make_command(source: Seq<char>, jobs: nat) -> InvocationView {
    InvocationView {
        program: "make"@,
        args: seq!["-j"@, decimal_digits(jobs), "all"@, "install"@],
        dir: Some(source),
    }
}

/// The build step on a named makefile: `make` is pointed at the source
/// directory and at the makefile, with `jobs` parallel jobs.
pub open spec fn makefile_command(source: Seq<char>, file: Seq<char>, jobs: nat) -> InvocationView {
    InvocationView {
        program: "make"@,
        args: seq!["-j"@, decimal_digits(jobs), "-C"@, source, "-f"@, file],
        dir: None,
    }
}

/// The configuration step for the sources in `source`, installing under `prefix`.
pub fn configure_invocation(source: &str, prefix: &str) -> (r: Invocation)
    ensures
        r@ == configure_command(source@, prefix@),
{
    let mut args: Vec<String> = Vec::new();
    args.push(append("--prefix=", prefix));
    args.push(owned("--disable-cli"));
    args.push(owned("--enable-static"));
    assert(args.deep_view() =~= configure_command(source@, prefix@).args);
    Invocation { program: owned("./configure"), args, dir: Some(owned(source)) }
}

/// The build and install step for the sources in `source`, with `jobs` parallel jobs.
pub fn make_invocation(source: &str, jobs: usize) -> (r: Invocation)
    ensures
        r@ == make_command(source@, jobs as nat),
{
    let mut args: Vec<String> = Vec::new();
    args.push(owned("-j"));
    args.push(decimal(jobs));
    args.push(owned("all"));
    args.push(owned("install"));
    assert(args.deep_view() =~= make_command(source@, jobs as nat).args);
    Invocation { program: owned("make"), args, dir: Some(owned(source)) }
}

/// The build step on the makefile `file` for the sources in `source`.
pub fn makefile_invocation(source: &str, file: &str, jobs: usize) -> (r: Invocation)
    ensures
        r@ == makefile_command(source@, file@, jobs as nat),
{
    let mut args: Vec<String> = Vec::new();
    args.push(owned("-j"));
    args.push(decimal(jobs));
    args.push(owned("-C"));
    args.push(owned(source));
    args.push(owned("-f"));
    args.push(owned(file));
    assert(args.deep_view() =~= makefile_command(source@, file@, jobs as nat).args);
    Invocation { program: owned("make"), args, dir: None }
}

/// A subprocess succeeded when it exited with status zero; any other status,
/// and an exit without a status, is a failure.
pub open spec fn exited_cleanly(code: Option<i32>) -> bool {
    code == Some(0i32)
}

/// Whether a subprocess that ended with `code` succeeded.
pub fn exit_ok(code: Option<i32>) -> (r: bool)
    ensures
        r == exited_cleanly(code),
{
    match code {
        Some(c) => c == 0,
        None => false,
    }
}

/// The failure that the exit of the subprocess `program` with `code` calls
/// for: none after a clean exit, else a native build failure that names the
/// subprocess.
pub open spec fn exit_failure(program: Seq<char>, code: Option<i32>) -> Option<ErrorView> {
    if exited_cleanly(code) {
        None
    } else {
        Some(ErrorView::NativeBuildFailure { program, code })
    }
}

/// Judges how the subprocess `program` ended: `Ok` exactly after a clean
/// exit, else the native build failure that names it.
pub fn check_exit(program: &str, code: Option<i32>) -> (r: Result<(), PipelineError>)
    ensures
        match r {
            Ok(_) => exit_failure(program@, code) is None,
            Err(e) => exit_failure(program@, code) == Some(e@),
        },
{
    if exit_ok(code) {
        Ok(())
    } else {
        Err(PipelineError::NativeBuildFailure { program: owned(program), code })
    }
}

/// The number of logical cores available to this process: calls
/// `num_cpus::get`. Trusted, not proved: the crate documents that it returns
/// at least one. The number depends on the machine, so nothing more is said.
#[verifier::external_body]
pub(crate) fn available_cores() -> (n: usize)
    ensures
        n >= 1,
{
    num_cpus::get()
}

} // verus!
