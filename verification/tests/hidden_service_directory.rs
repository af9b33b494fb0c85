use tor_sub_process::hidden_service_directory::DirectoryEntry;
use tor_sub_process::hidden_service_directory::FsAction;
use tor_sub_process::hidden_service_directory::HiddenServiceDirectory;
use tor_sub_process::secret_file::SecretFile;

fn file_entry(name: &str, contents: Vec<u8>) -> DirectoryEntry {
    DirectoryEntry {
        name: name.to_string(),
        is_file: true,
        contents,
    }
}

fn subdirectory_entry(name: &str) -> DirectoryEntry {
    DirectoryEntry {
        name: name.to_string(),
        is_file: false,
        contents: vec![],
    }
}

#[test]
fn get_secret_files() {
    let directory = HiddenServiceDirectory::new("/tmp/wd".to_string());
    let entries = vec![
        file_entry("hostname", vec![1, 2]),
        file_entry("hs_ed25519_public_key", vec![3, 4, 5]),
        file_entry("hs_ed25519_secret_key", vec![6]),
        subdirectory_entry("authorized_clients"),
    ];

    let files = directory.get_secret_files(&entries);

    assert_eq!(3, files.len());

    assert_eq!("hostname", files[0].relative_path().as_str());
    assert_eq!(&vec![1, 2], files[0].contents());
    assert_eq!("hs_ed25519_public_key", files[1].relative_path().as_str());
    assert_eq!(&vec![3, 4, 5], files[1].contents());
    assert_eq!("hs_ed25519_secret_key", files[2].relative_path().as_str());
    assert_eq!(&vec![6], files[2].contents());
}

#[test]
fn get_secret_files_of_empty_listing() {
    let directory = HiddenServiceDirectory::new("/tmp/wd".to_string());
    let entries: Vec<DirectoryEntry> = vec![];

    let files = directory.get_secret_files(&entries);

    assert_eq!(0, files.len());
}

#[test]
fn save_secret_files() {
    let directory = HiddenServiceDirectory::new("/tmp/wd".to_string());
    let files = vec![
        SecretFile::from("hostname".to_string(), vec![10, 20]).unwrap(),
        SecretFile::from("hs_ed25519_public_key".to_string(), vec![30]).unwrap(),
    ];

    let plan = directory.save_secret_files("svc", &files);

    assert_eq!(3, plan.len());
    match &plan[0] {
        FsAction::CreateDirectory { path, mode } => {
            assert_eq!("/tmp/wd/svc/authorized_clients", path.as_str());
            assert_eq!(0o700, *mode);
        }
        _ => panic!("expected the authorized_clients directory first"),
    }
    match &plan[1] {
        FsAction::WriteFile {
            path,
            contents,
            mode,
        } => {
            assert_eq!("/tmp/wd/svc/hostname", path.as_str());
            assert_eq!(&vec![10, 20], contents);
            assert_eq!(0o600, *mode);
        }
        _ => panic!("expected a file write"),
    }
    match &plan[2] {
        FsAction::WriteFile {
            path,
            contents,
            mode,
        } => {
            assert_eq!("/tmp/wd/svc/hs_ed25519_public_key", path.as_str());
            assert_eq!(&vec![30], contents);
            assert_eq!(0o600, *mode);
        }
        _ => panic!("expected a file write"),
    }
}

#[test]
fn service_path_is_under_the_base() {
    let directory = HiddenServiceDirectory::new("/tmp/wd".to_string());

    assert_eq!("/tmp/wd/svc", directory.service_path("svc").as_str());
}
