use pyide::runner::{check, RunError, Status};

#[test]
fn exit_with_zero_is_success() {
    assert_eq!(check(Status::Exited(0)), Ok(()));
}

#[test]
fn program_that_did_not_start_is_a_launch_error() {
    assert_eq!(check(Status::NotStarted), Err(RunError::Launch));
}

#[test]
fn nonzero_exit_is_an_exit_error_with_its_code() {
    assert_eq!(check(Status::Exited(1)), Err(RunError::Exit(Some(1))));
    assert_eq!(check(Status::Exited(127)), Err(RunError::Exit(Some(127))));
    assert_eq!(check(Status::Exited(-1)), Err(RunError::Exit(Some(-1))));
    assert_eq!(check(Status::Exited(i32::MIN)), Err(RunError::Exit(Some(i32::MIN))));
    assert_eq!(check(Status::Exited(i32::MAX)), Err(RunError::Exit(Some(i32::MAX))));
}

#[test]
fn end_without_exit_code_is_an_exit_error_without_code() {
    assert_eq!(check(Status::Killed), Err(RunError::Exit(None)));
}
