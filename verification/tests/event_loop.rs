use tor_sub_process::command::Command;
use tor_sub_process::event_loop::TickAction;
use tor_sub_process::event_loop::plan_tick;
use tor_sub_process::event_loop::reload_requested;
use tor_sub_process::event_loop::shutdown;
use tor_sub_process::event_loop::start_job;
use tor_sub_process::event_loop::termination_requested;
use tor_sub_process::pid::Pid;

#[test]
fn reload_requested_returns_true_if_requested() {
    let mut flag = true;
    let requested = reload_requested(&mut flag);

    assert_eq!(true, requested);
    assert_eq!(false, flag, "Flag should always reset to false.");
}

#[test]
fn reload_requested_returns_false_if_not_requested() {
    let mut flag = false;
    let requested = reload_requested(&mut flag);

    assert_eq!(false, requested);
    assert_eq!(false, flag, "Flag should always reset to false.");
}

#[test]
fn termination_requested_returns_true_if_requested() {
    let flag = true;
    let requested = termination_requested(&flag);

    assert_eq!(true, requested);
    assert_eq!(true, flag, "Flag should not change.");
}

#[test]
fn termination_requested_returns_false_if_not_requested() {
    let flag = false;
    let requested = termination_requested(&flag);

    assert_eq!(false, requested);
    assert_eq!(false, flag, "Flag should not change.");
}

#[test]
fn tick_honours_termination_without_touching_reload() {
    let terminate = true;
    let mut reload = true;

    let action = plan_tick(&terminate, false, &mut reload);

    assert_eq!(TickAction::Shutdown, action);
    assert_eq!(true, reload, "Shutdown must not consume the reload flag.");
}

#[test]
fn tick_consumes_reload_exactly_once() {
    let terminate = false;
    let mut reload = true;

    let first = plan_tick(&terminate, false, &mut reload);
    let second = plan_tick(&terminate, false, &mut reload);

    assert_eq!(
        TickAction::Proceed {
            respawn: false,
            reload: true
        },
        first
    );
    assert_eq!(
        TickAction::Proceed {
            respawn: false,
            reload: false
        },
        second
    );
    assert_eq!(false, reload);
}

#[test]
fn tick_respawns_a_dead_job() {
    let terminate = false;
    let mut reload = false;

    let action = plan_tick(&terminate, true, &mut reload);

    assert_eq!(
        TickAction::Proceed {
            respawn: true,
            reload: false
        },
        action
    );
}

#[test]
fn start_job_records_the_spawned_child() {
    let command = Command::new("tor-stub --no-wait", "/tmp/wd/torrc", false);

    let (job, id) = start_job(&command, 4242);

    assert_eq!(4242, id);
    assert_eq!(Some(4242), job.id());
    assert_eq!("setsid", job.command().program.as_str());
    let args: Vec<&str> = job.command().args.iter().map(|a| a.as_str()).collect();
    assert_eq!(vec!["tor-stub", "--no-wait", "-f", "/tmp/wd/torrc"], args);
}

#[test]
fn shutdown_stops_the_job_and_publishes_zero() {
    let command = Command::new("tor-stub", "/tmp/wd/torrc", false);
    let (mut job, id) = start_job(&command, 31337);
    let mut pid = Pid::new("/tmp/wd/tor.pid".to_string());
    pid.update(id);

    let stopped = shutdown(&mut job, &mut pid);

    assert_eq!(31337, stopped);
    assert_eq!(None, job.id());
    assert_eq!(Some("0".to_string()), pid.contents().clone());
    assert_eq!(Ok(Some(0)), pid.read());
}
