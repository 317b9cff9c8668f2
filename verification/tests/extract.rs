use native_build::error::{ExtractionCause, PipelineError};
use native_build::extract::{
    accept_source, classify_top_level, top_level_directories, ExtractedSource,
};
use native_build::scan::DirEntry;

fn dir(name: &str) -> DirEntry {
    DirEntry { name: name.to_string(), path: format!("/out/{}", name), is_dir: true }
}

fn file(name: &str) -> DirEntry {
    DirEntry { name: name.to_string(), path: format!("/out/{}", name), is_dir: false }
}

#[test]
fn single_root_archive_yields_one_directory() {
    let listing = vec![dir("x264-stable")];
    assert_eq!(
        classify_top_level(&listing),
        ExtractedSource::Found("/out/x264-stable".to_string())
    );
}

#[test]
fn archive_without_top_level_directory_is_detected() {
    assert_eq!(classify_top_level(&Vec::new()), ExtractedSource::Empty);
    assert_eq!(classify_top_level(&vec![file("README"), file("x264.h")]), ExtractedSource::Empty);
}

#[test]
fn archive_with_several_top_level_directories_is_detected() {
    let listing = vec![dir("x264-stable"), file("notes"), dir("extras"), dir("doc")];
    assert_eq!(
        classify_top_level(&listing),
        ExtractedSource::Ambiguous(vec![
            "/out/x264-stable".to_string(),
            "/out/extras".to_string(),
            "/out/doc".to_string(),
        ])
    );
    assert_eq!(
        classify_top_level(&vec![dir("a"), dir("b")]),
        ExtractedSource::Ambiguous(vec!["/out/a".to_string(), "/out/b".to_string()])
    );
}

#[test]
fn plain_files_beside_the_root_do_not_count() {
    let listing = vec![file("pax_global_header"), dir("x264-stable"), file("zz")];
    assert_eq!(
        classify_top_level(&listing),
        ExtractedSource::Found("/out/x264-stable".to_string())
    );
    assert_eq!(top_level_directories(&listing), vec!["/out/x264-stable".to_string()]);
}

#[test]
fn only_a_found_directory_is_accepted() {
    assert_eq!(
        accept_source(ExtractedSource::Found("/out/x264-stable".to_string()), "/out"),
        Ok("/out/x264-stable".to_string())
    );
    assert_eq!(
        accept_source(ExtractedSource::Empty, "/out"),
        Err(PipelineError::ExtractionFailure {
            dest: "/out".to_string(),
            cause: ExtractionCause::NoDirectory,
        })
    );
    assert_eq!(
        accept_source(
            ExtractedSource::Ambiguous(vec!["/out/a".to_string(), "/out/b".to_string()]),
            "/out"
        ),
        Err(PipelineError::ExtractionFailure {
            dest: "/out".to_string(),
            cause: ExtractionCause::ManyDirectories,
        })
    );
}
