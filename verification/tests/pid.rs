use tor_sub_process::error::SupervisorError;
use tor_sub_process::pid::Pid;

#[test]
fn pid_read_reads_none_if_file_does_not_exist() {
    let pid = Pid::new("test.pid".to_string());

    let result = pid.read().expect("Failed to read pid.");

    assert_eq!(None, result);
}

#[test]
fn pid_read_reads_value_if_file_exist() {
    let value: u32 = 3000000000;
    let pid = Pid::with_contents("test.pid".to_string(), Some(value.to_string()));

    let result = pid.read().expect("Failed to read pid.");

    assert_eq!(Some(value), result);
}

#[test]
fn pid_read_rejects_tampered_contents() {
    let pid = Pid::with_contents("test.pid".to_string(), Some("not-a-pid".to_string()));

    assert_eq!(Err(SupervisorError::OnDiskCorruption), pid.read());
}

#[test]
fn pid_read_rejects_values_too_large_for_u32() {
    let pid = Pid::with_contents("test.pid".to_string(), Some("4294967296".to_string()));

    assert_eq!(Err(SupervisorError::OnDiskCorruption), pid.read());
}

#[test]
fn pid_read_accepts_largest_u32() {
    let pid = Pid::with_contents("test.pid".to_string(), Some("4294967295".to_string()));

    assert_eq!(Ok(Some(u32::MAX)), pid.read());
}

#[test]
fn pid_update_creates_file_if_file_does_not_exist() {
    let value: u32 = 1094795585;
    let mut pid = Pid::new("test.pid".to_string());

    pid.update(value);

    let actual: u32 = pid
        .contents()
        .clone()
        .expect("Failed to read test file.")
        .parse::<u32>()
        .expect("Failed to parse PID.");
    assert_eq!(value, actual);
}

#[test]
fn pid_update_updates_file_if_file_exist() {
    let value: u32 = 77777;
    let mut pid = Pid::with_contents("test.pid".to_string(), Some("12345".to_string()));

    pid.update(value);

    let actual: u32 = pid
        .contents()
        .clone()
        .expect("Failed to read test file.")
        .parse::<u32>()
        .expect("Failed to parse PID.");
    assert_eq!(value, actual);
}

#[test]
fn pid_update_then_read_round_trips() {
    let mut pid = Pid::new("test.pid".to_string());

    pid.update(98765);

    assert_eq!(Ok(Some(98765)), pid.read());
}

#[test]
fn pid_reset_creates_file_if_file_does_not_exist() {
    let mut pid = Pid::new("test.pid".to_string());

    pid.reset();

    let actual: u32 = pid
        .contents()
        .clone()
        .expect("Failed to read test file.")
        .parse::<u32>()
        .expect("Failed to parse PID.");
    assert_eq!(0, actual);
}

#[test]
fn pid_reset_updates_file_if_file_exist() {
    let mut pid = Pid::with_contents("test.pid".to_string(), Some("12345".to_string()));

    pid.reset();

    assert_eq!(Some("0".to_string()), pid.contents().clone());
    assert_eq!(Ok(Some(0)), pid.read());
}

#[test]
fn pid_delete_removes_existing_file() {
    let mut pid = Pid::with_contents("test.pid".to_string(), Some("12345".to_string()));

    pid.delete();

    assert_eq!(None, pid.contents().clone());
    assert_eq!(Ok(None), pid.read());
}

#[test]
fn pid_delete_does_nothing_if_file_does_not_exist() {
    let mut pid = Pid::new("test.pid".to_string());

    pid.delete();

    assert_eq!(None, pid.contents().clone());
}
