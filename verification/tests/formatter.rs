use virtual_disk::formatter::{
    format_command, format_result, FormatError, ToolFailure, ToolOutcome,
};

#[test]
fn program_is_named_after_the_filesystem_type() {
    let command = format_command("/tmp/virtual_disk.img", "ext4");
    assert_eq!(command.program, "mkfs.ext4");
    assert_eq!(command.arguments, vec![String::from("/tmp/virtual_disk.img")]);
}

#[test]
fn image_path_is_the_sole_argument() {
    let command = format_command("disk with spaces.img", "vfat");
    assert_eq!(command.program, "mkfs.vfat");
    assert_eq!(command.arguments.len(), 1);
    assert_eq!(command.arguments[0], "disk with spaces.img");
}

#[test]
fn empty_type_and_path_are_passed_on_as_they_are() {
    let command = format_command("", "");
    assert_eq!(command.program, "mkfs.");
    assert_eq!(command.arguments, vec![String::new()]);
}

#[test]
fn exit_status_zero_is_success() {
    assert_eq!(format_result(ToolOutcome::Exited(Some(0))), Ok(()));
}

#[test]
fn any_other_exit_status_is_a_failure() {
    for status in [1, 2, 8, 127, 255, -1, i32::MAX, i32::MIN] {
        assert_eq!(
            format_result(ToolOutcome::Exited(Some(status))),
            Err(FormatError::ToolFailed(ToolFailure::ExitCode(status)))
        );
    }
}

#[test]
fn exit_without_status_is_a_failure() {
    assert_eq!(
        format_result(ToolOutcome::Exited(None)),
        Err(FormatError::ToolFailed(ToolFailure::Terminated))
    );
}

#[test]
fn program_that_does_not_start_is_a_failure() {
    assert_eq!(
        format_result(ToolOutcome::NotLaunched(2)),
        Err(FormatError::ToolFailed(ToolFailure::LaunchError(2)))
    );
    assert_eq!(
        format_result(ToolOutcome::NotLaunched(0)),
        Err(FormatError::ToolFailed(ToolFailure::LaunchError(0)))
    );
}
