use runny::error::{RunningError, RunnyError};

#[test]
fn launcher_errors_describe_themselves() {
    assert_eq!(RunnyError::RunnyIoError(2).describe(), "I/O error: 2");
    assert_eq!(RunnyError::NoCommandSpecified.describe(), "No command was specified");
    assert_eq!(RunnyError::NixError(-7).describe(), "Nix library error: -7");
}

#[test]
fn session_errors_describe_themselves() {
    assert_eq!(RunningError::RunningIoError(9).describe(), "Running I/O error: 9");
    assert_eq!(RunningError::RunningNixError(1).describe(), "Running Nix error: 1");
}
