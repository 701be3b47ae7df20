use minibox::runner::ExitOutcome;
use minibox::runner::RunDisposition;
use minibox::runner::dispose_exit;
use minibox::runner::resolve_exec_path;

#[test]
fn nonzero_exit_code_is_mirrored() {
    assert_eq!(dispose_exit(ExitOutcome::Code(7)), RunDisposition::MirrorExit(7));
}

#[test]
fn zero_exit_code_is_success() {
    assert_eq!(dispose_exit(ExitOutcome::Code(0)), RunDisposition::Success);
}

#[test]
fn death_by_signal_is_success() {
    assert_eq!(dispose_exit(ExitOutcome::Signalled), RunDisposition::Success);
}

#[test]
fn negative_codes_are_mirrored_too() {
    assert_eq!(dispose_exit(ExitOutcome::Code(-1)), RunDisposition::MirrorExit(-1));
}

#[test]
fn absolute_command_path_is_kept() {
    assert_eq!(resolve_exec_path("/bin/echo"), "/bin/echo");
}

#[test]
fn relative_command_path_is_rooted() {
    assert_eq!(resolve_exec_path("bin/echo"), "/bin/echo");
}

#[test]
fn empty_command_path_becomes_the_root() {
    assert_eq!(resolve_exec_path(""), "/");
}
