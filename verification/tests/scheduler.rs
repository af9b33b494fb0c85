use tor_sub_process::Command;
use tor_sub_process::error::SupervisorError;
use tor_sub_process::scheduler::Scheduler;

fn scheduler() -> Scheduler {
    let command = Command::new("tor", "/tmp/wd/torrc", false);
    Scheduler::new(command, "/tmp/wd/tor.pid".to_string())
}

#[test]
fn start_aborts_when_the_pid_file_publishes_a_process() {
    let mut scheduler = scheduler();

    let result = scheduler.start(Some(12345));

    assert_eq!(
        Err(SupervisorError::ZombieDetected { pid: 12345 }),
        result
    );
    assert_eq!(false, scheduler.is_supervising());
}

#[test]
fn zombie_diagnostic_names_the_pid_and_the_pid_file() {
    let error = SupervisorError::ZombieDetected { pid: 12345 };

    let message = error.message();

    assert_eq!(
        "Failed to start scheduler. Potential zombie process found. This is caused by an \
         unexpected shutdown. Please check PID `12345` is no longer running then delete \
         'tor.pid'.",
        message
    );
    assert!(message.contains("12345"));
    assert!(message.contains("tor.pid"));
}

#[test]
fn start_aborts_even_on_the_zero_sentinel() {
    let mut scheduler = scheduler();

    let result = scheduler.start(Some(0));

    assert_eq!(Err(SupervisorError::ZombieDetected { pid: 0 }), result);
}

#[test]
fn start_succeeds_without_a_published_pid() {
    let mut scheduler = scheduler();

    let result = scheduler.start(None);

    assert_eq!(Ok(()), result);
    assert_eq!(true, scheduler.is_supervising());
    assert_eq!(false, scheduler.reload_flag());
    assert_eq!(false, scheduler.terminate_flag());
}

#[test]
fn reload_raises_the_reload_flag() {
    let mut scheduler = scheduler();
    scheduler.start(None).expect("Failed to start scheduler.");

    scheduler.reload();

    assert_eq!(true, scheduler.reload_flag());
    assert_eq!(false, scheduler.terminate_flag());
}

#[test]
fn stop_raises_the_terminate_flag_and_gives_up_supervision() {
    let mut scheduler = scheduler();
    scheduler.start(None).expect("Failed to start scheduler.");

    scheduler.stop();

    assert_eq!(true, scheduler.terminate_flag());
    assert_eq!(false, scheduler.is_supervising());
}
