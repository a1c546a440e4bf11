use versionator::CompilerMode;
use versionator::ProbeOutcome;
use versionator::SourceVersion;
use versionator::Version;

fn finished(success: bool, stdout: &str) -> ProbeOutcome {
    ProbeOutcome::Finished { success, stdout: stdout.to_string() }
}

fn descriptor(source_version: SourceVersion) -> Version {
    Version::new(
        "pkg".to_string(),
        "1.0".to_string(),
        source_version,
        CompilerMode::Debug,
        "linux".to_string(),
        "x86_64".to_string(),
        finished(true, "rustc 1.70.0\n"),
        None,
    )
}

fn git_state(branch: &str, hash: &str, dirty: bool) -> SourceVersion {
    SourceVersion::Git { branch: branch.to_string(), hash: hash.to_string(), dirty }
}

#[test]
fn clean_checkout_simple_and_full() {
    let v = descriptor(git_state("main", "abc1234", false));
    assert_eq!(v.simple(), "pkg 1.0-abc1234");
    assert!(v.simple().ends_with("-abc1234"));
    assert_eq!(v.full(), "pkg 1.0 (main-abc1234, debug, linux [x86_64]) - [rustc 1.70.0]");
    assert_eq!(v.hash(), "abc1234");
}

#[test]
fn dirty_checkout_appends_plus() {
    let v = descriptor(git_state("main", "abc1234", true));
    assert!(v.simple().ends_with("-abc1234+"));
    assert_eq!(v.simple(), "pkg 1.0-abc1234+");
    assert_eq!(v.full(), "pkg 1.0 (main-abc1234+, debug, linux [x86_64]) - [rustc 1.70.0]");
}

#[test]
fn untracked_directory_renders_without_suffix() {
    let v = descriptor(SourceVersion::Untracked);
    assert_eq!(v.simple(), "pkg 1.0");
    assert_eq!(v.hash(), "N/A");
    assert_eq!(v.full(), "pkg 1.0 (, debug, linux [x86_64]) - [rustc 1.70.0]");
}

#[test]
fn profile_label_is_debug_or_release() {
    assert_eq!(CompilerMode::guess(true).simple(), "debug");
    assert_eq!(CompilerMode::guess(false).simple(), "release");
    let labels = ["debug", "release"];
    assert!(labels.contains(&CompilerMode::guess(true).simple()));
    assert!(labels.contains(&CompilerMode::guess(false).simple()));
}

#[test]
fn release_mode_shows_in_full() {
    let v = Version::new(
        "pkg".to_string(),
        "1.0".to_string(),
        SourceVersion::Untracked,
        CompilerMode::Release,
        "linux".to_string(),
        "x86_64".to_string(),
        ProbeOutcome::ToolNotFound,
        None,
    );
    assert_eq!(v.full(), "pkg 1.0 (, release, linux [x86_64]) - [N/A]");
}

#[test]
fn unrecognized_target_is_a_no_op() {
    let v = descriptor(SourceVersion::Untracked).with_target("not-a-real-triple");
    assert_eq!(v.os, "linux");
    assert_eq!(v.arch, "x86_64");
}

#[test]
fn recognized_target_overrides_host_values() {
    let v = Version::new(
        "pkg".to_string(),
        "1.0".to_string(),
        SourceVersion::Untracked,
        CompilerMode::Debug,
        "someos".to_string(),
        "somearch".to_string(),
        ProbeOutcome::ToolNotFound,
        Some("x86_64-unknown-linux-gnu"),
    );
    assert_eq!(v.os, "linux");
    assert_eq!(v.arch, "x86_64");
}

#[test]
fn recognized_target_overrides_regardless_of_host() {
    let from_linux = descriptor(SourceVersion::Untracked).with_target("aarch64-apple-darwin");
    assert_eq!(from_linux.os, "macos");
    assert_eq!(from_linux.arch, "aarch64");
    let mut other_host = descriptor(SourceVersion::Untracked);
    other_host.os = "windows".to_string();
    other_host.arch = "x86".to_string();
    let from_other = other_host.with_target("aarch64-apple-darwin");
    assert_eq!(from_other.os, "macos");
    assert_eq!(from_other.arch, "aarch64");
}

#[test]
fn same_inputs_render_identically() {
    let a = descriptor(git_state("main", "abc1234", false));
    let b = descriptor(git_state("main", "abc1234", false));
    assert_eq!(a.simple(), b.simple());
    assert_eq!(a.full(), b.full());
    assert_eq!(a.hash(), b.hash());
}

#[test]
fn absent_tool_degrades_to_untracked() {
    let source = SourceVersion::extract(
        ProbeOutcome::ToolNotFound,
        ProbeOutcome::ToolNotFound,
        ProbeOutcome::ToolNotFound,
    );
    assert!(matches!(source, SourceVersion::Untracked));
    let v = descriptor(source);
    assert_eq!(v.simple(), "pkg 1.0");
    assert_eq!(v.hash(), "N/A");
}
