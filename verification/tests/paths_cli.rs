use tapegen::backend::Backend;
use tapegen::cli::{build_plan, classify_arg, usage_text, CliToken};
use tapegen::lang::Lang;
use tapegen::paths::{artifact_path, compile_command, executable_path, set_extension};

#[test]
fn set_extension_replaces_an_existing_extension() {
    assert_eq!(set_extension("hello.b", "c"), "hello.c");
    assert_eq!(set_extension("hello.b", "go"), "hello.go");
}

#[test]
fn set_extension_appends_when_there_is_none() {
    assert_eq!(set_extension("hello", "c"), "hello.c");
    assert_eq!(set_extension("dir.x/hello", "go"), "dir.x/hello.go");
}

#[test]
fn set_extension_keeps_a_leading_dot_name_whole() {
    assert_eq!(set_extension(".hidden", "c"), ".hidden.c");
    assert_eq!(set_extension("dir/.hidden", "c"), "dir/.hidden.c");
}

#[test]
fn executable_path_extends_the_artifact_extension() {
    assert_eq!(executable_path("hello.c", Backend::C), "hello.c.exe");
    assert_eq!(executable_path("hello.go", Backend::Go), "hello.go.exe");
}

#[test]
fn artifact_paths_of_two_targets_are_siblings() {
    let c = artifact_path("prog.b", Backend::C);
    let go = artifact_path("prog.b", Backend::Go);
    assert_eq!(c, "prog.c");
    assert_eq!(go, "prog.go");
    assert_ne!(c, go);
}

#[test]
fn compile_command_for_c() {
    let argv = compile_command(Backend::C, "hello.c");
    assert_eq!(argv, vec!["cc", "hello.c", "-O3", "-o", "hello.c.exe"]);
}

#[test]
fn compile_command_for_go() {
    let argv = compile_command(Backend::Go, "hello.go");
    assert_eq!(argv, vec!["go", "build", "-o", "hello.go.exe", "hello.go"]);
}

#[test]
fn option_tokens_classify_to_their_targets() {
    assert_eq!(classify_arg("-r"), CliToken::RunFlag);
    assert_eq!(classify_arg("-run"), CliToken::RunFlag);
    assert_eq!(classify_arg("-i"), CliToken::Target(Lang::Interpret));
    assert_eq!(classify_arg("-interpret"), CliToken::Target(Lang::Interpret));
    assert_eq!(classify_arg("-c"), CliToken::Target(Lang::C));
    assert_eq!(classify_arg("-j"), CliToken::Target(Lang::Java));
    assert_eq!(classify_arg("-java"), CliToken::Target(Lang::Java));
    assert_eq!(classify_arg("-py"), CliToken::Target(Lang::Python));
    assert_eq!(classify_arg("-python"), CliToken::Target(Lang::Python));
    assert_eq!(classify_arg("-js"), CliToken::Target(Lang::JavaScript));
    assert_eq!(classify_arg("-rust"), CliToken::Target(Lang::Rust));
    assert_eq!(classify_arg("-go"), CliToken::Target(Lang::Go));
}

#[test]
fn unrecognized_tokens_are_source_files() {
    assert_eq!(classify_arg("prog.b"), CliToken::SourceFile);
    assert_eq!(classify_arg("-x"), CliToken::SourceFile);
    assert_eq!(classify_arg(""), CliToken::SourceFile);
    assert_eq!(classify_arg("-Run"), CliToken::SourceFile);
}

#[test]
fn build_plan_collects_targets_sources_and_run_flag() {
    let args: Vec<String> = ["prog.b", "-c", "-go", "-r", "other.b"]
        .iter()
        .map(|s| s.to_string())
        .collect();
    let plan = build_plan(&args);
    assert_eq!(plan.targets, vec![Lang::C, Lang::Go]);
    assert_eq!(plan.sources, vec!["prog.b", "other.b"]);
    assert!(plan.run_after);
    assert!(plan.is_runnable());
}

#[test]
fn repeated_option_requests_the_target_again() {
    let args: Vec<String> = ["-c", "-c", "prog.b"].iter().map(|s| s.to_string()).collect();
    let plan = build_plan(&args);
    assert_eq!(plan.targets, vec![Lang::C, Lang::C]);
    assert!(!plan.run_after);
}

#[test]
fn plan_without_sources_or_targets_is_not_runnable() {
    let only_target: Vec<String> = vec!["-c".to_string()];
    assert!(!build_plan(&only_target).is_runnable());
    let only_source: Vec<String> = vec!["prog.b".to_string()];
    assert!(!build_plan(&only_source).is_runnable());
    let nothing: Vec<String> = Vec::new();
    assert!(!build_plan(&nothing).is_runnable());
}

#[test]
fn usage_text_lists_every_option() {
    let text = usage_text();
    for needle in ["Usage: bf", "-r[un]", "-c", "-j[ava]", "-py[thon]", "-js", "-rust", "-go"] {
        assert!(text.contains(needle));
    }
}

#[test]
fn target_names_for_reporting() {
    assert_eq!(Lang::C.name(), "C");
    assert_eq!(Lang::Go.name(), "Go");
    assert_eq!(Lang::JavaScript.name(), "JavaScript");
}
