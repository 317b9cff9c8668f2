//! The ways in which a pipeline run can fail. Every failure is fatal and names
//! the path or the subprocess it is about.

use vstd::prelude::*;
use crate::text::append;

verus! {

/// Why an extraction was rejected.
#[derive(Debug, Clone, Copy, PartialEq, Eq, Structural)]
pub enum ExtractionCause {
    /// The archive could not be unpacked into the destination.
    Unpack,
    /// Unpacking left no directory at the top level of the destination.
    NoDirectory,
    /// Unpacking left more than one directory at the top level.
    ManyDirectories,
}

/// Why a run failed.
#[derive(Debug, Clone, PartialEq, Eq)]
pub enum PipelineError {
    /// The archive file is missing or cannot be read.
    UnreadableInput { archive: String },
    /// Unpacking failed, or did not leave exactly one top-level directory.
    ExtractionFailure { dest: String, cause: ExtractionCause },
    /// A configuration or build subprocess did not exit with status zero.
    NativeBuildFailure { program: String, code: Option<i32> },
    /// An installed header or library is absent after a build that reported success.
    MissingArtifact { path: String },
    /// The binding generator could not produce the interface file.
    BindingGenerationFailure { output: String },
}

/// A failure, with its texts as character sequences.
pub enum ErrorView {
    UnreadableInput { archive: Seq<char> },
    ExtractionFailure { dest: Seq<char>, cause: ExtractionCause },
    NativeBuildFailure { program: Seq<char>, code: Option<i32> },
    MissingArtifact { path: Seq<char> },
    BindingGenerationFailure { output: Seq<char> },
}

impl View for PipelineError {
    type V = ErrorView;

    open spec fn view(&self) -> ErrorView {
        match self {
            PipelineError::UnreadableInput { archive } => ErrorView::UnreadableInput {
                archive: archive@,
            },
            PipelineError::ExtractionFailure { dest, cause } => ErrorView::ExtractionFailure {
                dest: dest@,
                cause: *cause,
            },
            PipelineError::NativeBuildFailure { program, code } => ErrorView::NativeBuildFailure {
                program: program@,
                code: *code,
            },
            PipelineError::MissingArtifact { path } => ErrorView::MissingArtifact { path: path@ },
            PipelineError::BindingGenerationFailure { output } => {
                ErrorView::BindingGenerationFailure { output: output@ }
            },
        }
    }
}

/// The path or subprocess that a failure is about.
pub open spec fn subject(e: ErrorView) -> Seq<char> {
    match e {
        ErrorView::UnreadableInput { archive } => archive,
        ErrorView::ExtractionFailure { dest, .. } => dest,
        ErrorView::NativeBuildFailure { program, .. } => program,
        ErrorView::MissingArtifact { path } => path,
        ErrorView::BindingGenerationFailure { output } => output,
    }
}

/// What a failure's message says before it names its subject.
pub open spec fn label(e: ErrorView) -> Seq<char> {
    match e {
        ErrorView::UnreadableInput { .. } => "unable to read archive: "@,
        ErrorView::ExtractionFailure { cause, .. } => match cause {
            ExtractionCause::Unpack => "failed to unpack tar file into: "@,
            ExtractionCause::NoDirectory => "no top-level directory after unpacking into: "@,
            ExtractionCause::ManyDirectories => "more than one top-level directory after unpacking into: "@,
        },
        ErrorView::NativeBuildFailure { .. } => "native build step failed: "@,
        ErrorView::MissingArtifact { .. } => "missing artifact: "@,
        ErrorView::BindingGenerationFailure { .. } => "unable to generate bindings: "@,
    }
}

/// The text shown to the user for a failure.
pub open spec fn message_text(e: ErrorView) -> Seq<char> {
    label(e) + subject(e)
}

impl PipelineError {
    /// The text shown to the user: what went wrong, then the path or subprocess.
    pub fn message(&self) -> (r: String)
        ensures
            r@ == message_text(self@),
    {
        match self {
            PipelineError::UnreadableInput { archive } => append(
                "unable to read archive: ",
                archive.as_str(),
            ),
            PipelineError::ExtractionFailure { dest, cause } => match cause {
                ExtractionCause::Unpack => append("failed to unpack tar file into: ", dest.as_str()),
                ExtractionCause::NoDirectory => append(
                    "no top-level directory after unpacking into: ",
                    dest.as_str(),
                ),
                ExtractionCause::ManyDirectories => append(
                    "more than one top-level directory after unpacking into: ",
                    dest.as_str(),
                ),
            },
            PipelineError::NativeBuildFailure { program, .. } => append(
                "native build step failed: ",
                program.as_str(),
            ),
            PipelineError::MissingArtifact { path } => append("missing artifact: ", path.as_str()),
            PipelineError::BindingGenerationFailure { output } => append(
                "unable to generate bindings: ",
                output.as_str(),
            ),
        }
    }
}

/// No failure message is bare: each ends with the path or subprocess it is about.
pub proof fn message_names_subject(e: ErrorView)
    ensures
        subject(e).is_suffix_of(message_text(e)),
{
    let m = message_text(e);
    assert(subject(e) =~= m.subrange(m.len() - subject(e).len(), m.len() as int));
}

} // verus!
