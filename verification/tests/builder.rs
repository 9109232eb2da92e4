use docserve::builder::{outcome, rebuild_command, BuildError, RebuildOutcome};

fn strings(items: &[&str]) -> Vec<String> {
    items.iter().map(|s| s.to_string()).collect()
}

#[test]
fn the_command_is_cargo_doc() {
    let command = rebuild_command(&Vec::new(), &None);
    assert_eq!(command.program, "cargo");
    assert_eq!(command.args, strings(&["doc"]));
}

#[test]
fn the_manifest_path_comes_before_the_extra_arguments() {
    let command = rebuild_command(
        &strings(&["--no-deps", "--open"]),
        &Some("/work/Cargo.toml".to_string()),
    );
    assert_eq!(command.program, "cargo");
    assert_eq!(
        command.args,
        strings(&["doc", "--manifest-path", "/work/Cargo.toml", "--no-deps", "--open"])
    );
}

#[test]
fn extra_arguments_keep_their_order() {
    let command = rebuild_command(&strings(&["-p", "b", "-p", "a"]), &None);
    assert_eq!(command.args, strings(&["doc", "-p", "b", "-p", "a"]));
}

#[test]
fn exit_code_zero_is_success() {
    assert_eq!(outcome(Ok(Some(0))), Ok(()));
}

#[test]
fn another_exit_code_is_a_failure() {
    assert_eq!(outcome(Ok(Some(101))), Err(BuildError::NonZeroExit(Some(101))));
    assert_eq!(outcome(Ok(Some(1))), Err(BuildError::NonZeroExit(Some(1))));
    assert_eq!(outcome(Ok(Some(-1))), Err(BuildError::NonZeroExit(Some(-1))));
}

#[test]
fn an_end_without_exit_code_is_a_failure() {
    assert_eq!(outcome(Ok(None)), Err(BuildError::NonZeroExit(None)));
}

#[test]
fn a_build_that_did_not_start_is_a_failure() {
    assert_eq!(
        outcome(Err("No such file or directory (os error 2)".to_string())),
        Err(BuildError::SpawnFailed("No such file or directory (os error 2)".to_string()))
    );
}

#[test]
fn the_message_names_the_exit_code() {
    assert_eq!(
        BuildError::NonZeroExit(Some(101)).message(),
        "cargo doc failed with error code Some(101)"
    );
    assert_eq!(
        BuildError::NonZeroExit(Some(-2)).message(),
        "cargo doc failed with error code Some(-2)"
    );
    assert_eq!(
        BuildError::NonZeroExit(Some(i32::MIN)).message(),
        "cargo doc failed with error code Some(-2147483648)"
    );
}

#[test]
fn the_message_agrees_with_the_debug_rendering_of_the_code() {
    for code in [Some(1), Some(2), Some(127), Some(255), Some(-15), None] {
        assert_eq!(
            BuildError::NonZeroExit(code).message(),
            format!("cargo doc failed with error code {:?}", code)
        );
    }
}

#[test]
fn the_message_of_a_missing_exit_code() {
    assert_eq!(BuildError::NonZeroExit(None).message(), "cargo doc failed with error code None");
}

#[test]
fn the_message_of_a_failed_start_is_its_cause() {
    assert_eq!(
        BuildError::SpawnFailed("permission denied".to_string()).message(),
        "permission denied"
    );
}

#[test]
fn a_failed_rebuild_is_told_apart_from_a_good_one() {
    let good: RebuildOutcome = outcome(Ok(Some(0)));
    let bad: RebuildOutcome = outcome(Ok(Some(2)));
    assert!(good.is_ok());
    assert_eq!(bad.unwrap_err().message(), "cargo doc failed with error code Some(2)");
}
