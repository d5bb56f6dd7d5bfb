use cargo_uwp::cargo::{exit_outcome, new_command, CargoError};

fn units(s: &str) -> Vec<u16> {
    s.encode_utf16().collect()
}

#[test]
fn new_command_prefixes_colored_new() {
    assert_eq!(
        new_command(vec![units("uwp-rs")]),
        vec![units("new"), units("--color"), units("always"), units("uwp-rs")]
    );
    assert_eq!(new_command(Vec::new()).len(), 3);
}

#[test]
fn exit_outcome_follows_success() {
    assert!(exit_outcome(true).is_ok());
    match exit_outcome(false) {
        Err(e) => assert_eq!(e.message(), "Failed to execute cargo new"),
        Ok(()) => panic!("a failed process must be reported"),
    }
}

#[test]
fn cargo_error_messages() {
    assert_eq!(CargoError::Spawn("not found".to_string()).message(), "Executing cargo new");
    assert_eq!(CargoError::NoStdout.message(), "Failed to connect to child process stdout");
    assert_eq!(CargoError::NoStderr.message(), "Failed to conntect to child process stderr");
    assert_eq!(CargoError::Io("broken pipe".to_string()).message(), "broken pipe");
}

#[test]
fn spawn_failure_keeps_its_cause() {
    let f = CargoError::Spawn("program not found".to_string()).failure();
    assert_eq!(f.message, "Executing cargo new");
    assert_eq!(f.cause, Some("program not found".to_string()));
    let f = CargoError::Unsuccessful.failure();
    assert_eq!(f.message, "Failed to execute cargo new");
    assert_eq!(f.cause, None);
}
