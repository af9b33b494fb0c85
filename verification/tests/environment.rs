use tor_sub_process::environment::Environment;

#[test]
fn as_str() {
    assert_eq!("local", Environment::Local.as_str());
    assert_eq!("production", Environment::Production.as_str());
}

#[test]
fn try_from() {
    assert_eq!(
        Ok(Environment::Local),
        Environment::try_from("local".to_owned())
    );
    assert_eq!(
        Ok(Environment::Production),
        Environment::try_from("production".to_owned())
    );
    assert_eq!(
        Err("other is not a supported environment. Use either `local` or `production`.".to_owned()),
        Environment::try_from("other".to_owned())
    );
}

#[test]
fn try_from_ignores_ascii_case() {
    assert_eq!(
        Ok(Environment::Local),
        Environment::try_from("LoCaL".to_owned())
    );
    assert_eq!(
        Ok(Environment::Production),
        Environment::try_from("PRODUCTION".to_owned())
    );
}
