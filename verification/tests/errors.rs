use native_build::error::{ExtractionCause, PipelineError};

#[test]
fn unreadable_input_names_the_archive() {
    let e = PipelineError::UnreadableInput { archive: "archive/x264-stable.tar.gz".to_string() };
    assert_eq!(e.message(), "unable to read archive: archive/x264-stable.tar.gz");
}

#[test]
fn extraction_failure_names_the_destination() {
    let unpack =
        PipelineError::ExtractionFailure { dest: "/out".to_string(), cause: ExtractionCause::Unpack };
    assert_eq!(unpack.message(), "failed to unpack tar file into: /out");
    let none = PipelineError::ExtractionFailure {
        dest: "/out".to_string(),
        cause: ExtractionCause::NoDirectory,
    };
    assert_eq!(none.message(), "no top-level directory after unpacking into: /out");
    let many = PipelineError::ExtractionFailure {
        dest: "/out".to_string(),
        cause: ExtractionCause::ManyDirectories,
    };
    assert_eq!(many.message(), "more than one top-level directory after unpacking into: /out");
}

#[test]
fn native_build_failure_names_the_subprocess() {
    let e = PipelineError::NativeBuildFailure { program: "./configure".to_string(), code: Some(1) };
    assert_eq!(e.message(), "native build step failed: ./configure");
    let killed = PipelineError::NativeBuildFailure { program: "make".to_string(), code: None };
    assert_eq!(killed.message(), "native build step failed: make");
}

#[test]
fn missing_artifact_names_the_expected_path() {
    let e = PipelineError::MissingArtifact { path: "/out/build/include/x264.h".to_string() };
    assert_eq!(e.message(), "missing artifact: /out/build/include/x264.h");
}

#[test]
fn binding_generation_failure_names_the_interface_file() {
    let e = PipelineError::BindingGenerationFailure { output: "/out/bindings_x264.rs".to_string() };
    assert_eq!(e.message(), "unable to generate bindings: /out/bindings_x264.rs");
}

#[test]
fn no_message_is_bare() {
    let all = vec![
        (PipelineError::UnreadableInput { archive: "a.tar.gz".to_string() }, "a.tar.gz"),
        (
            PipelineError::ExtractionFailure {
                dest: "/d".to_string(),
                cause: ExtractionCause::Unpack,
            },
            "/d",
        ),
        (PipelineError::NativeBuildFailure { program: "make".to_string(), code: Some(2) }, "make"),
        (PipelineError::MissingArtifact { path: "/p/x.h".to_string() }, "/p/x.h"),
        (PipelineError::BindingGenerationFailure { output: "/o.rs".to_string() }, "/o.rs"),
    ];
    for (e, subject) in all {
        let message = e.message();
        assert!(message.ends_with(subject));
        assert!(message.len() > subject.len());
    }
}
