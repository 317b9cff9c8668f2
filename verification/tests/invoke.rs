use native_build::invoke::{
    configure_invocation, exit_ok, make_invocation, makefile_invocation, Invocation,
};

fn strings(items: &[&str]) -> Vec<String> {
    items.iter().map(|s| s.to_string()).collect()
}

#[test]
fn configure_step_disables_the_cli_and_enables_the_static_library() {
    assert_eq!(
        configure_invocation("/out/x264-stable", "/out/build"),
        Invocation {
            program: "./configure".to_string(),
            args: strings(&["--prefix=/out/build", "--disable-cli", "--enable-static"]),
            dir: Some("/out/x264-stable".to_string()),
        }
    );
}

#[test]
fn configure_step_passes_the_prefix_as_it_stands() {
    let step = configure_invocation("src", "");
    assert_eq!(step.args[0], "--prefix=");
    assert_eq!(step.dir, Some("src".to_string()));
    let spaced = configure_invocation("src", "/tmp/with space/build");
    assert_eq!(spaced.args[0], "--prefix=/tmp/with space/build");
    assert_eq!(spaced.args.len(), 3);
}

#[test]
fn make_step_builds_all_then_installs_with_the_given_jobs() {
    assert_eq!(
        make_invocation("/out/x264-stable", 8),
        Invocation {
            program: "make".to_string(),
            args: strings(&["-j", "8", "all", "install"]),
            dir: Some("/out/x264-stable".to_string()),
        }
    );
    assert_eq!(make_invocation("s", 1).args, strings(&["-j", "1", "all", "install"]));
    assert_eq!(make_invocation("s", 128).args, strings(&["-j", "128", "all", "install"]));
}

#[test]
fn makefile_step_names_directory_and_makefile() {
    assert_eq!(
        makefile_invocation("/out/vendor-src", "Makefile.unix", 4),
        Invocation {
            program: "make".to_string(),
            args: strings(&["-j", "4", "-C", "/out/vendor-src", "-f", "Makefile.unix"]),
            dir: None,
        }
    );
}

#[test]
fn only_status_zero_is_success() {
    assert!(exit_ok(Some(0)));
    assert!(!exit_ok(Some(1)));
    assert!(!exit_ok(Some(2)));
    assert!(!exit_ok(Some(-1)));
    assert!(!exit_ok(Some(i32::MAX)));
    assert!(!exit_ok(Some(i32::MIN)));
    assert!(!exit_ok(None));
}
