use tor_sub_process::Command;
use tor_sub_process::cli::create_command;

#[test]
fn create_runs_the_program_in_a_new_session() {
    let command = Command::new("tor", "/tmp/wd/torrc", false);

    let recipe = command.create();

    assert_eq!("setsid", recipe.program.as_str());
    let args: Vec<&str> = recipe.args.iter().map(|a| a.as_str()).collect();
    assert_eq!(vec!["tor", "-f", "/tmp/wd/torrc"], args);
}

#[test]
fn create_splits_the_program_line_into_words() {
    let command = Command::new("./target/debug/tor-stub --no-wait", "/tmp/wd/torrc", false);

    let recipe = command.create();

    assert_eq!("setsid", recipe.program.as_str());
    let args: Vec<&str> = recipe.args.iter().map(|a| a.as_str()).collect();
    assert_eq!(
        vec!["./target/debug/tor-stub", "--no-wait", "-f", "/tmp/wd/torrc"],
        args
    );
}

#[test]
fn create_command_names_the_production_binary() {
    assert_eq!(("tor", false), create_command(false));
}

#[test]
fn create_command_names_the_stub_binary() {
    assert_eq!(("./target/debug/tor-stub", false), create_command(true));
}
