use tor_sub_process::tor_rc::TorRc;
use tor_sub_process::tor_rc::TorRcConfiguration;
use tor_sub_process::tor_rc::TorRcHiddenServiceConfiguration;
use tor_sub_process::tor_rc::render;

#[test]
fn tor_rc_update_creates_file_if_file_does_not_exist() {
    let service_directory = "svc-dir";
    let service_port: u16 = 443;
    let host_address = "10.0.0.1";
    let host_port: u16 = 9000;

    let value = TorRcConfiguration {
        hidden_services: vec![TorRcHiddenServiceConfiguration {
            service_directory: service_directory.to_string(),
            service_port,
            host_address: host_address.to_string(),
            host_port,
        }],
    };
    let mut tor_rc = TorRc::new("/var/tmp/test.torrc".to_string());

    tor_rc.save(&value);

    let actual = tor_rc.contents().clone().expect("Failed to read test file.");
    assert_eq!(
        format!(
            "HiddenServiceDir {}\nHiddenServicePort {} {}:{}",
            service_directory, service_port, host_address, host_port
        ),
        actual
    );
}

#[test]
fn render_is_empty_for_no_services() {
    let value = TorRcConfiguration {
        hidden_services: vec![],
    };

    assert_eq!("", render(&value));
}

#[test]
fn render_separates_services_with_single_newlines_in_order() {
    let value = TorRcConfiguration {
        hidden_services: vec![
            TorRcHiddenServiceConfiguration {
                service_directory: "/tmp/wd/alpha".to_string(),
                service_port: 80,
                host_address: "127.0.0.1".to_string(),
                host_port: 8081,
            },
            TorRcHiddenServiceConfiguration {
                service_directory: "/tmp/wd/beta".to_string(),
                service_port: 80,
                host_address: "127.0.0.1".to_string(),
                host_port: 8082,
            },
        ],
    };

    assert_eq!(
        "HiddenServiceDir /tmp/wd/alpha\nHiddenServicePort 80 127.0.0.1:8081\n\
         HiddenServiceDir /tmp/wd/beta\nHiddenServicePort 80 127.0.0.1:8082",
        render(&value)
    );
}

#[test]
fn tor_rc_delete_removes_the_file() {
    let value = TorRcConfiguration {
        hidden_services: vec![TorRcHiddenServiceConfiguration {
            service_directory: "svc".to_string(),
            service_port: 80,
            host_address: "127.0.0.1".to_string(),
            host_port: 8080,
        }],
    };
    let mut tor_rc = TorRc::new("/var/tmp/test.torrc".to_string());
    tor_rc.save(&value);

    tor_rc.delete();

    assert!(tor_rc.contents().is_none());
}

#[test]
fn tor_rc_delete_does_nothing_if_file_does_not_exist() {
    let mut tor_rc = TorRc::new("/var/tmp/test.torrc".to_string());

    tor_rc.delete();

    assert!(tor_rc.contents().is_none());
}
