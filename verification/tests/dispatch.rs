use command_proxy::dispatch::{
    has_version_flag, is_instrumented, run_command_for_dir, CommandError, RunPath, RunPlan,
    StreamMode,
};
use command_proxy::text::same_text;

fn args(list: &[&str]) -> Vec<String> {
    list.iter().map(|a| a.to_string()).collect()
}

#[test]
fn other_caller_takes_the_plain_path() {
    let plan = run_command_for_dir(Some("cargo"), &args(&["rustc", "--version"]), true).unwrap();
    assert_eq!(plan.path, RunPath::PlainPassthrough);
    assert_eq!(plan.stdin, StreamMode::Inherited);
    assert_eq!(plan.stdout, StreamMode::Inherited);
    assert_eq!(plan.stderr, StreamMode::Inherited);
}

#[test]
fn other_caller_takes_the_plain_path_whatever_the_arguments() {
    for list in [
        vec![],
        vec!["rustc"],
        vec!["rustc", "-V"],
        vec!["rustc", "--version", "-V"],
        vec!["rustc.exe", "main.rs"],
    ] {
        for enabled in [true, false] {
            for name in ["cargo", "rustdoc", "", "rustc ", "rustc.ex", "xrustc"] {
                let plan = run_command_for_dir(Some(name), &args(&list), enabled).unwrap();
                assert_eq!(plan.path, RunPath::PlainPassthrough);
            }
        }
    }
}

#[test]
fn disabled_telemetry_takes_the_plain_path() {
    let plan = run_command_for_dir(Some("rustc"), &args(&["rustc", "--version"]), false).unwrap();
    assert_eq!(plan, RunPlan::for_path(RunPath::PlainPassthrough));
    let plan = run_command_for_dir(Some("rustc.exe"), &args(&["rustc", "main.rs"]), false).unwrap();
    assert_eq!(plan.path, RunPath::PlainPassthrough);
}

#[test]
fn long_version_flag_selects_the_version_path() {
    let plan = run_command_for_dir(Some("rustc"), &args(&["rustc", "--version"]), true).unwrap();
    assert_eq!(plan.path, RunPath::VersionQuery);
    assert_eq!(plan.stdin, StreamMode::Inherited);
    assert_eq!(plan.stdout, StreamMode::Piped);
    assert_eq!(plan.stderr, StreamMode::Inherited);
}

#[test]
fn short_version_flag_selects_the_version_path() {
    let plan =
        run_command_for_dir(Some("rustc.exe"), &args(&["rustc", "-O", "-V"]), true).unwrap();
    assert_eq!(plan.path, RunPath::VersionQuery);
}

#[test]
fn version_flag_counts_in_any_position() {
    let plan = run_command_for_dir(Some("rustc"), &args(&["--version"]), true).unwrap();
    assert_eq!(plan.path, RunPath::VersionQuery);
    let plan =
        run_command_for_dir(Some("rustc"), &args(&["rustc", "a.rs", "b.rs", "-V"]), true).unwrap();
    assert_eq!(plan.path, RunPath::VersionQuery);
}

#[test]
fn instrumented_caller_without_the_flag_takes_the_normal_path() {
    let plan = run_command_for_dir(Some("rustc"), &args(&["rustc", "main.rs"]), true).unwrap();
    assert_eq!(plan.path, RunPath::NormalRun);
    assert_eq!(plan.stdin, StreamMode::Inherited);
    assert_eq!(plan.stdout, StreamMode::Inherited);
    assert_eq!(plan.stderr, StreamMode::Piped);
}

#[test]
fn version_flag_is_matched_exactly() {
    for near in ["--versions", "-v", "--version=1", "version", "-VV", " -V", "--Version", ""] {
        let plan = run_command_for_dir(Some("rustc"), &args(&["rustc", near]), true).unwrap();
        assert_eq!(plan.path, RunPath::NormalRun, "{:?}", near);
    }
}

#[test]
fn no_arguments_at_all_is_a_normal_run() {
    let plan = run_command_for_dir(Some("rustc"), &args(&[]), true).unwrap();
    assert_eq!(plan.path, RunPath::NormalRun);
}

#[test]
fn unknown_own_name_is_an_error() {
    let failed = run_command_for_dir(None, &args(&["rustc", "--version"]), true);
    assert_eq!(failed, Err(CommandError::NoExecutableName));
    let failed = run_command_for_dir(None, &args(&[]), false);
    assert_eq!(failed, Err(CommandError::NoExecutableName));
}

#[test]
fn at_most_one_stream_is_piped() {
    for path in [RunPath::PlainPassthrough, RunPath::VersionQuery, RunPath::NormalRun] {
        let plan = RunPlan::for_path(path);
        assert_eq!(plan.path, path);
        assert_eq!(plan.stdin, StreamMode::Inherited);
        assert!(!(plan.stdout == StreamMode::Piped && plan.stderr == StreamMode::Piped));
    }
}

#[test]
fn instrumented_names() {
    assert!(is_instrumented("rustc"));
    assert!(is_instrumented("rustc.exe"));
    assert!(!is_instrumented("cargo"));
    assert!(!is_instrumented("rustc.ex"));
    assert!(!is_instrumented("rustc.exe "));
    assert!(!is_instrumented(""));
}

#[test]
fn instrumented_names_in_any_case() {
    for name in ["RUSTC.EXE", "Rustc", "rustc.EXE", "RUSTC", "rUsTc", "Rustc.Exe", "rustc.exE"] {
        assert!(is_instrumented(name), "{:?}", name);
    }
}

#[test]
fn names_that_only_look_alike() {
    for name in [
        "rustc.exe.exe",
        "RUSTC.EXE.EXE",
        ".exe",
        "exe",
        "rustcexe",
        "rustc.",
        "rustc.com",
        "rustcc",
        "rust",
        "Cargo",
        "CARGO.EXE",
        "rustc\u{e7}",
        "ru\u{17f}tc",
        "\u{212a}ustc",
        "rustc.ex\u{c9}",
        "r\u{fc}stc.exe",
    ] {
        assert!(!is_instrumented(name), "{:?}", name);
    }
}

#[test]
fn upper_case_caller_is_instrumented() {
    let plan =
        run_command_for_dir(Some("RUSTC.EXE"), &args(&["RUSTC.EXE", "a.rs"]), true).unwrap();
    assert_eq!(plan, RunPlan::for_path(RunPath::NormalRun));
    let plan = run_command_for_dir(Some("Rustc"), &args(&["Rustc", "-V"]), true).unwrap();
    assert_eq!(plan, RunPlan::for_path(RunPath::VersionQuery));
    let plan = run_command_for_dir(Some("rustc.EXE"), &args(&["rustc", "a.rs"]), false).unwrap();
    assert_eq!(plan, RunPlan::for_path(RunPath::PlainPassthrough));
}

#[test]
fn version_flags_in_a_list() {
    assert!(has_version_flag(&args(&["-V"])));
    assert!(has_version_flag(&args(&["a", "b", "--version"])));
    assert!(!has_version_flag(&args(&[])));
    assert!(!has_version_flag(&args(&["a", "--verbose", "-v"])));
}

#[test]
fn same_text_compares_characters() {
    assert!(same_text("", ""));
    assert!(same_text("rustc", "rustc"));
    assert!(!same_text("rustc", "rustd"));
    assert!(!same_text("rustc", "rust"));
    assert!(!same_text("rust", "rustc"));
    assert!(same_text("grüße", "grüße"));
    assert!(!same_text("grüße", "grusse"));
}
