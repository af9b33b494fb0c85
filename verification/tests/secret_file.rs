use tor_sub_process::secret_file::SecretFile;

#[test]
fn from_absolute_path_fails() {
    let absolute_path = "/absolute/path/hostname";

    let result = SecretFile::from(absolute_path.to_string(), vec![]);

    assert!(result.is_err())
}

#[test]
fn from_relative_path_succeeds() {
    let relative_path = "relative/path/hostname";

    let result = SecretFile::from(relative_path.to_string(), vec![1, 2, 3]);

    assert!(result.is_ok());

    let file = result.unwrap();

    assert_eq!(relative_path, file.relative_path().as_str());
    assert_eq!(&vec![1, 2, 3], file.contents());
}

#[test]
fn from_empty_path_fails() {
    let result = SecretFile::from(String::new(), vec![1]);

    assert!(result.is_err())
}

#[test]
fn display_omits_contents() {
    let relative_path = "relative/path/hostname";

    let file = SecretFile::from(relative_path.to_string(), vec![1, 2, 3]).unwrap();

    assert_eq!(format!("{} (3 bytes)", relative_path), file.display_string())
}
