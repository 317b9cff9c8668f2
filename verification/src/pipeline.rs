//! The pipeline as a state machine. The caller performs each action and hands
//! back what happened; the machine decides what comes next. One run goes
//! `Init → Extracted → Built → Linked → BoundGenerated → Done`, and any
//! failure ends it in `Failed`.

use vstd::prelude::*;
use crate::artifact::{check_artifacts, missing_artifact};
use crate::bindings::{header_files, header_paths, plan_bindings, planned, BindingPlan, BindingPlanView};
use crate::error::{ErrorView, ExtractionCause, PipelineError};
use crate::extract::{accept_source, accepted, classified, classify_top_level, directories};
use crate::invoke::{
    check_exit, configure_command, configure_invocation, exit_failure, make_command, make_invocation,
    makefile_command, makefile_invocation, BuildStyle, BuildStyleView, Invocation, InvocationView,
};
use crate::link::{
    archive_paths, library_files, link_directives, link_lines, StaticLibrarySpec, StaticLibraryView,
};
use crate::paths::{join, joined};
use crate::scan::{DirEntry, DirEntryView};

verus! {

/// Everything one run needs to know, fixed before it starts.
#[derive(Debug, Clone, PartialEq, Eq)]
pub struct Config {
    /// The compressed source bundle.
    pub archive: String,
    /// The work directory: sources are unpacked into it, and the install
    /// prefix and the interface file lie under it.
    pub work_dir: String,
    /// The logical name of the library, after which the interface file is named.
    pub library: String,
    /// The prelude header, which the generator reads before any other.
    pub prelude: String,
    /// How the native project is built.
    pub style: BuildStyle,
    /// The static libraries to link, in declaration order.
    pub static_libs: Vec<StaticLibrarySpec>,
    /// The installed headers to bind, by name.
    pub headers: Vec<String>,
    /// The number of parallel jobs that the native build is given.
    pub jobs: usize,
}

/// A configuration, with its texts as character sequences.
pub struct ConfigView {
    pub archive: Seq<char>,
    pub work_dir: Seq<char>,
    pub library: Seq<char>,
    pub prelude: Seq<char>,
    pub style: BuildStyleView,
    pub static_libs: Seq<StaticLibraryView>,
    pub headers: Seq<Seq<char>>,
    pub jobs: nat,
}

impl View for Config {
    type V = ConfigView;

    open spec fn view(&self) -> ConfigView {
        ConfigView {
            archive: self.archive@,
            work_dir: self.work_dir@,
            library: self.library@,
            prelude: self.prelude@,
            style: self.style@,
            static_libs: self.static_libs.deep_view(),
            headers: self.headers.deep_view(),
            jobs: self.jobs as nat,
        }
    }
}

impl ConfigView {
    /// The install prefix: the directory `build` of the work directory.
    pub open spec fn install_prefix(self) -> Seq<char> {
        joined(self.work_dir, "build"@)
    }

    /// The subprocess that the native build runs next, given whether the
    /// configuration step is behind it.
    pub open spec fn build_step(self, source: Seq<char>, configured: bool) -> InvocationView {
        match self.style {
            BuildStyleView::Configure => if configured {
                make_command(source, self.jobs)
            } else {
                configure_command(source, self.install_prefix())
            },
            BuildStyleView::Makefile { file } => makefile_command(source, file, self.jobs),
        }
    }

    /// Whether the subprocess that runs next is the last of the native build.
    pub open spec fn last_build_step(self, configured: bool) -> bool {
        match self.style {
            BuildStyleView::Configure => configured,
            BuildStyleView::Makefile { .. } => true,
        }
    }

    /// The plan for the binding generator.
    pub open spec fn binding_plan(self) -> BindingPlanView {
        planned(self.work_dir, self.install_prefix(), self.library, self.prelude, self.headers)
    }
}

/// Where a run stands.
#[derive(Debug, Clone, PartialEq, Eq)]
pub enum Stage {
    /// Nothing has been done yet.
    Init,
    /// The sources are unpacked in `source`; the native build is under way.
    Extracted { source: String, configured: bool },
    /// The native build succeeded; `checked` once its libraries were found installed.
    Built { checked: bool },
    /// The link directives are emitted; `checked` once the headers were found installed.
    Linked { checked: bool },
    /// The interface file is written.
    BoundGenerated,
    /// The run is complete.
    Done,
    /// The run failed, for the reason given. Nothing follows.
    Failed(PipelineError),
}

/// A stage, with its texts as character sequences.
pub enum StageView {
    Init,
    Extracted { source: Seq<char>, configured: bool },
    Built { checked: bool },
    Linked { checked: bool },
    BoundGenerated,
    Done,
    Failed(ErrorView),
}

impl View for Stage {
    type V = StageView;

    open spec fn view(&self) -> StageView {
        match self {
            Stage::Init => StageView::Init,
            Stage::Extracted { source, configured } => StageView::Extracted {
                source: source@,
                configured: *configured,
            },
            Stage::Built { checked } => StageView::Built { checked: *checked },
            Stage::Linked { checked } => StageView::Linked { checked: *checked },
            Stage::BoundGenerated => StageView::BoundGenerated,
            Stage::Done => StageView::Done,
            Stage::Failed(e) => StageView::Failed(e@),
        }
    }
}

/// What the caller is asked to do.
#[derive(Debug, Clone, PartialEq, Eq)]
pub enum Action {
    /// Read the archive, decompress it and unpack it fully into `dest`, then
    /// list the top level of `dest`.
    Extract { archive: String, dest: String },
    /// Run the subprocess and wait for it to exit.
    Run(Invocation),
    /// Tell, for each path in order, whether it exists.
    Probe { paths: Vec<String> },
    /// Print each line, in order, for the host build system.
    Emit { lines: Vec<String> },
    /// Run the binding generator as planned.
    Generate(BindingPlan),
    /// Acknowledge that all stages are through.
    Finish,
    /// Stop: the run is over.
    Halt,
}

/// An action, with its texts as character sequences.
pub enum ActionView {
    Extract { archive: Seq<char>, dest: Seq<char> },
    Run(InvocationView),
    Probe { paths: Seq<Seq<char>> },
    Emit { lines: Seq<Seq<char>> },
    Generate(BindingPlanView),
    Finish,
    Halt,
}

impl View for Action {
    type V = ActionView;

    open spec fn view(&self) -> ActionView {
        match self {
            Action::Extract { archive, dest } => ActionView::Extract { archive: archive@, dest: dest@ },
            Action::Run(invocation) => ActionView::Run(invocation@),
            Action::Probe { paths } => ActionView::Probe { paths: paths.deep_view() },
            Action::Emit { lines } => ActionView::Emit { lines: lines.deep_view() },
            Action::Generate(plan) => ActionView::Generate(plan@),
            Action::Finish => ActionView::Finish,
            Action::Halt => ActionView::Halt,
        }
    }
}

/// What happened when the caller performed an action.
#[derive(Debug, Clone, PartialEq, Eq)]
pub enum Event {
    /// The archive could not be read.
    ArchiveUnreadable,
    /// The archive was read, but unpacking it failed.
    UnpackFailed,
    /// The archive was unpacked; `listing` is the top level of the destination.
    Unpacked { listing: Vec<DirEntry> },
    /// The subprocess exited with status `code` (`None`: without a status).
    Exited { code: Option<i32> },
    /// The paths were probed: one answer per path, in order.
    Probed { present: Vec<bool> },
    /// The lines were printed.
    Emitted,
    /// The binding generator wrote the interface file.
    Generated,
    /// The binding generator could not read a header or write its output.
    GenerationFailed,
    /// The end of the run was acknowledged.
    Finished,
}

/// An event, with its texts as character sequences.
pub enum EventView {
    ArchiveUnreadable,
    UnpackFailed,
    Unpacked { listing: Seq<DirEntryView> },
    Exited { code: Option<i32> },
    Probed { present: Seq<bool> },
    Emitted,
    Generated,
    GenerationFailed,
    Finished,
}

impl View for Event {
    type V = EventView;

    open spec fn view(&self) -> EventView {
        match self {
            Event::ArchiveUnreadable => EventView::ArchiveUnreadable,
            Event::UnpackFailed => EventView::UnpackFailed,
            Event::Unpacked { listing } => EventView::Unpacked { listing: listing.deep_view() },
            Event::Exited { code } => EventView::Exited { code: *code },
            Event::Probed { present } => EventView::Probed { present: present@ },
            Event::Emitted => EventView::Emitted,
            Event::Generated => EventView::Generated,
            Event::GenerationFailed => EventView::GenerationFailed,
            Event::Finished => EventView::Finished,
        }
    }
}

/// The action that is due in stage `s`.
pub open spec fn pending(c: ConfigView, s: StageView) -> ActionView {
    match s {
        StageView::Init => ActionView::Extract { archive: c.archive, dest: c.work_dir },
        StageView::Extracted { source, configured } => ActionView::Run(c.build_step(source, configured)),
        StageView::Built { checked } => if checked {
            ActionView::Emit { lines: link_lines(c.install_prefix(), c.static_libs) }
        } else {
            ActionView::Probe { paths: archive_paths(c.install_prefix(), c.static_libs) }
        },
        StageView::Linked { checked } => if checked {
            ActionView::Generate(c.binding_plan())
        } else {
            ActionView::Probe { paths: header_paths(c.install_prefix(), c.headers) }
        },
        StageView::BoundGenerated => ActionView::Finish,
        StageView::Done => ActionView::Halt,
        StageView::Failed(_) => ActionView::Halt,
    }
}

/// The stage that follows `s` when `e` happened. An event that does not
/// answer the action due in `s` changes nothing.
pub open spec fn advanced(c: ConfigView, s: StageView, e: EventView) -> StageView {
    match s {
        StageView::Init => match e {
            EventView::ArchiveUnreadable => StageView::Failed(
                ErrorView::UnreadableInput { archive: c.archive },
            ),
            EventView::UnpackFailed => StageView::Failed(
                ErrorView::ExtractionFailure { dest: c.work_dir, cause: ExtractionCause::Unpack },
            ),
            EventView::Unpacked { listing } => match accepted(
                classified(directories(listing)),
                c.work_dir,
            ) {
                Ok(source) => StageView::Extracted { source, configured: false },
                Err(failure) => StageView::Failed(failure),
            },
            _ => s,
        },
        StageView::Extracted { source, configured } => match e {
            EventView::Exited { code } => match exit_failure(
                c.build_step(source, configured).program,
                code,
            ) {
                Some(failure) => StageView::Failed(failure),
                None => if c.last_build_step(configured) {
                    StageView::Built { checked: false }
                } else {
                    StageView::Extracted { source, configured: true }
                },
            },
            _ => s,
        },
        StageView::Built { checked } => match e {
            EventView::Probed { present } => if checked {
                s
            } else {
                match missing_artifact(archive_paths(c.install_prefix(), c.static_libs), present) {
                    Some(failure) => StageView::Failed(failure),
                    None => StageView::Built { checked: true },
                }
            },
            EventView::Emitted => if checked {
                StageView::Linked { checked: false }
            } else {
                s
            },
            _ => s,
        },
        StageView::Linked { checked } => match e {
            EventView::Probed { present } => if checked {
                s
            } else {
                match missing_artifact(header_paths(c.install_prefix(), c.headers), present) {
                    Some(failure) => StageView::Failed(failure),
                    None => StageView::Linked { checked: true },
                }
            },
            EventView::Generated => if checked {
                StageView::BoundGenerated
            } else {
                s
            },
            EventView::GenerationFailed => if checked {
                StageView::Failed(
                    ErrorView::BindingGenerationFailure { output: c.binding_plan().output },
                )
            } else {
                s
            },
            _ => s,
        },
        StageView::BoundGenerated => match e {
            EventView::Finished => StageView::Done,
            _ => s,
        },
        StageView::Done => s,
        StageView::Failed(_) => s,
    }
}

impl Config {
    /// The install prefix of this run.
    pub fn install_prefix(&self) -> (r: String)
        ensures
            r@ == self@.install_prefix(),
    {
        join(self.work_dir.as_str(), "build")
    }

    /// The subprocess that the native build runs next on the sources in `source`.
    pub fn build_step(&self, source: &str, configured: bool) -> (r: Invocation)
        ensures
            r@ == self@.build_step(source@, configured),
    {
        match &self.style {
            BuildStyle::Configure => {
                if configured {
                    make_invocation(source, self.jobs)
                } else {
                    let prefix = self.install_prefix();
                    configure_invocation(source, prefix.as_str())
                }
            },
            BuildStyle::Makefile { file } => makefile_invocation(source, file.as_str(), self.jobs),
        }
    }

    /// Whether the subprocess that runs next is the last of the native build.
    pub fn last_build_step(&self, configured: bool) -> (r: bool)
        ensures
            r == self@.last_build_step(configured),
    {
        match &self.style {
            BuildStyle::Configure => configured,
            BuildStyle::Makefile { .. } => true,
        }
    }
}

/// The action that is due in `stage`.
pub fn next_action(config: &Config, stage: &Stage) -> (a: Action)
    ensures
        a@ == pending(config@, stage@),
{
    match stage {
        Stage::Init => Action::Extract {
            archive: config.archive.clone(),
            dest: config.work_dir.clone(),
        },
        Stage::Extracted { source, configured } => Action::Run(
            config.build_step(source.as_str(), *configured),
        ),
        Stage::Built { checked } => {
            let prefix = config.install_prefix();
            if *checked {
                Action::Emit { lines: link_directives(prefix.as_str(), &config.static_libs) }
            } else {
                Action::Probe { paths: library_files(prefix.as_str(), &config.static_libs) }
            }
        },
        Stage::Linked { checked } => {
            let prefix = config.install_prefix();
            if *checked {
                Action::Generate(
                    plan_bindings(
                        config.work_dir.as_str(),
                        prefix.as_str(),
                        config.library.as_str(),
                        config.prelude.as_str(),
                        &config.headers,
                    ),
                )
            } else {
                Action::Probe { paths: header_files(prefix.as_str(), &config.headers) }
            }
        },
        Stage::BoundGenerated => Action::Finish,
        Stage::Done => Action::Halt,
        Stage::Failed(_) => Action::Halt,
    }
}

/// The stage that follows `stage` when `event` happened.
pub fn advance(config: &Config, stage: Stage, event: Event) -> (next: Stage)
    ensures
        next@ == advanced(config@, stage@, event@),
{
    match stage {
        Stage::Init => match event {
            Event::ArchiveUnreadable => Stage::Failed(
                PipelineError::UnreadableInput { archive: config.archive.clone() },
            ),
            Event::UnpackFailed => Stage::Failed(
                PipelineError::ExtractionFailure {
                    dest: config.work_dir.clone(),
                    cause: ExtractionCause::Unpack,
                },
            ),
            Event::Unpacked { listing } => {
                let found = classify_top_level(&listing);
                match accept_source(found, config.work_dir.as_str()) {
                    Ok(source) => Stage::Extracted { source, configured: false },
                    Err(failure) => Stage::Failed(failure),
                }
            },
            _ => Stage::Init,
        },
        Stage::Extracted { source, configured } => match event {
            Event::Exited { code } => {
                let step = config.build_step(source.as_str(), configured);
                match check_exit(step.program.as_str(), code) {
                    Err(failure) => Stage::Failed(failure),
                    Ok(_) => {
                        if config.last_build_step(configured) {
                            Stage::Built { checked: false }
                        } else {
                            Stage::Extracted { source, configured: true }
                        }
                    },
                }
            },
            _ => Stage::Extracted { source, configured },
        },
        Stage::Built { checked } => match event {
            Event::Probed { present } => {
                if checked {
                    Stage::Built { checked }
                } else {
                    let prefix = config.install_prefix();
                    let paths = library_files(prefix.as_str(), &config.static_libs);
                    match check_artifacts(&paths, &present) {
                        Ok(_) => Stage::Built { checked: true },
                        Err(failure) => Stage::Failed(failure),
                    }
                }
            },
            Event::Emitted => {
                if checked {
                    Stage::Linked { checked: false }
                } else {
                    Stage::Built { checked }
                }
            },
            _ => Stage::Built { checked },
        },
        Stage::Linked { checked } => match event {
            Event::Probed { present } => {
                if checked {
                    Stage::Linked { checked }
                } else {
                    let prefix = config.install_prefix();
                    let paths = header_files(prefix.as_str(), &config.headers);
                    match check_artifacts(&paths, &present) {
                        Ok(_) => Stage::Linked { checked: true },
                        Err(failure) => Stage::Failed(failure),
                    }
                }
            },
            Event::Generated => {
                if checked {
                    Stage::BoundGenerated
                } else {
                    Stage::Linked { checked }
                }
            },
            Event::GenerationFailed => {
                if checked {
                    let prefix = config.install_prefix();
                    let plan = plan_bindings(
                        config.work_dir.as_str(),
                        prefix.as_str(),
                        config.library.as_str(),
                        config.prelude.as_str(),
                        &config.headers,
                    );
                    Stage::Failed(PipelineError::BindingGenerationFailure { output: plan.output })
                } else {
                    Stage::Linked { checked }
                }
            },
            _ => Stage::Linked { checked },
        },
        Stage::BoundGenerated => match event {
            Event::Finished => Stage::Done,
            _ => Stage::BoundGenerated,
        },
        Stage::Done => Stage::Done,
        Stage::Failed(failure) => Stage::Failed(failure),
    }
}

} // verus!
