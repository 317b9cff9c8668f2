use native_build::artifact::check_artifacts;
use native_build::bindings::{header_files, interface_file_name, plan_bindings, BindingPlan};
use native_build::error::PipelineError;
use native_build::link::{library_files, link_directives, StaticLibrarySpec};

fn lib(name: &str, archive: &str) -> StaticLibrarySpec {
    StaticLibrarySpec { name: name.to_string(), archive: archive.to_string() }
}

fn strings(items: &[&str]) -> Vec<String> {
    items.iter().map(|s| s.to_string()).collect()
}

#[test]
fn one_search_path_then_one_line_per_library() {
    let libs = vec![lib("x264", "./libx264.a")];
    assert_eq!(
        link_directives("/out/build", &libs),
        strings(&[
            "cargo:rustc-link-search=native=/out/build/lib",
            "cargo:rustc-link-lib=static=x264",
        ])
    );
}

#[test]
fn libraries_are_declared_in_table_order() {
    let libs = vec![lib("x265", "./libx265.a"), lib("x264", "./libx264.a"), lib("z", "z.a")];
    let lines = link_directives("/w/build", &libs);
    assert_eq!(lines.len(), 4);
    assert_eq!(
        lines,
        strings(&[
            "cargo:rustc-link-search=native=/w/build/lib",
            "cargo:rustc-link-lib=static=x265",
            "cargo:rustc-link-lib=static=x264",
            "cargo:rustc-link-lib=static=z",
        ])
    );
}

#[test]
fn no_library_still_declares_the_search_path() {
    assert_eq!(
        link_directives("/out/build", &Vec::new()),
        strings(&["cargo:rustc-link-search=native=/out/build/lib"])
    );
}

#[test]
fn archives_are_expected_in_the_library_directory() {
    let libs = vec![lib("x264", "./libx264.a"), lib("x265", "libx265.a")];
    assert_eq!(
        library_files("/out/build", &libs),
        strings(&["/out/build/lib/./libx264.a", "/out/build/lib/libx265.a"])
    );
    assert_eq!(library_files("/out/build", &Vec::new()), Vec::<String>::new());
}

#[test]
fn headers_are_expected_in_the_include_directory() {
    assert_eq!(
        header_files("/out/build", &strings(&["x264.h", "x264_config.h"])),
        strings(&["/out/build/include/x264.h", "/out/build/include/x264_config.h"])
    );
    assert_eq!(header_files("/out/build", &Vec::new()), Vec::<String>::new());
}

#[test]
fn interface_file_is_named_after_the_library() {
    assert_eq!(interface_file_name("x264"), "bindings_x264.rs");
    assert_eq!(interface_file_name("x265"), "bindings_x265.rs");
    assert_eq!(interface_file_name(""), "bindings_.rs");
}

#[test]
fn plan_reads_prelude_then_installed_headers_and_keeps_comments() {
    assert_eq!(
        plan_bindings("/out", "/out/build", "x264", "include/prelude.h", &strings(&["x264.h"])),
        BindingPlan {
            prelude: "include/prelude.h".to_string(),
            headers: strings(&["/out/build/include/x264.h"]),
            comments: true,
            output: "/out/bindings_x264.rs".to_string(),
        }
    );
}

#[test]
fn probe_with_everything_present_passes() {
    let paths = strings(&["/a", "/b", "/c"]);
    assert_eq!(check_artifacts(&paths, &vec![true, true, true]), Ok(()));
    assert_eq!(check_artifacts(&Vec::new(), &Vec::new()), Ok(()));
    assert_eq!(check_artifacts(&paths, &vec![true, true, true, false]), Ok(()));
}

#[test]
fn probe_names_the_first_absent_path() {
    let paths = strings(&["/a", "/b", "/c"]);
    assert_eq!(
        check_artifacts(&paths, &vec![true, false, false]),
        Err(PipelineError::MissingArtifact { path: "/b".to_string() })
    );
    assert_eq!(
        check_artifacts(&paths, &vec![false, true, true]),
        Err(PipelineError::MissingArtifact { path: "/a".to_string() })
    );
    assert_eq!(
        check_artifacts(&paths, &vec![true, true, false]),
        Err(PipelineError::MissingArtifact { path: "/c".to_string() })
    );
}

#[test]
fn probe_without_an_answer_counts_as_absent() {
    let paths = strings(&["/a", "/b", "/c"]);
    assert_eq!(
        check_artifacts(&paths, &vec![true, true]),
        Err(PipelineError::MissingArtifact { path: "/c".to_string() })
    );
    assert_eq!(
        check_artifacts(&paths, &Vec::new()),
        Err(PipelineError::MissingArtifact { path: "/a".to_string() })
    );
}
