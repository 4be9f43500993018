use desktop_shell::scope::{
    access_mode, acknowledge, allow_directory, allow_file, allow_path, AccessMode, ScopeError,
};

#[test]
fn a_granted_directory_is_acknowledged_with_its_path() {
    let text = allow_path("/home/ada/notes", true, true).unwrap();
    assert_eq!(text, "Hello, /home/ada/notes! You've been greeted from Rust!");
    assert!(text.contains("/home/ada/notes"));
}

#[test]
fn a_granted_file_is_acknowledged_with_its_path() {
    let text = allow_path("/home/ada/notes/todo.md", false, true).unwrap();
    assert_eq!(text, "Hello, /home/ada/notes/todo.md! You've been greeted from Rust!");
    assert!(text.contains("/home/ada/notes/todo.md"));
}

#[test]
fn the_acknowledgment_does_not_depend_on_the_mode() {
    assert_eq!(allow_path("C:\\Users\\ada", true, true), allow_path("C:\\Users\\ada", false, true));
}

#[test]
fn the_acknowledgment_keeps_the_path_character_by_character() {
    let path = "/tmp/ä ö ü/{}! You've been greeted/日本";
    let text = acknowledge(path);
    assert_eq!(text, format!("Hello, {}! You've been greeted from Rust!", path));
    assert_eq!(&text[7..7 + path.len()], path);
}

#[test]
fn an_empty_path_is_acknowledged_too() {
    assert_eq!(acknowledge(""), "Hello, ! You've been greeted from Rust!");
    assert_eq!(allow_path("", true, true), Ok(String::from("Hello, ! You've been greeted from Rust!")));
}

#[test]
fn a_rejected_directory_is_an_error_that_names_the_request() {
    let error = allow_path("/root/secret", true, false).unwrap_err();
    assert_eq!(
        error,
        ScopeError { path: String::from("/root/secret"), mode: AccessMode::DirectoryRecursive }
    );
}

#[test]
fn a_rejected_file_is_an_error_that_names_the_request() {
    let error = allow_path("/root/secret.txt", false, false).unwrap_err();
    assert_eq!(error, ScopeError { path: String::from("/root/secret.txt"), mode: AccessMode::File });
}

#[test]
fn a_rejection_ends_with_the_same_diagnostic_for_both_modes() {
    let directory = allow_directory("/x", false).unwrap_err();
    let file = allow_file("/x", false).unwrap_err();
    assert_eq!(directory.diagnostic(), "Failed to allow directory");
    assert_eq!(file.diagnostic(), "Failed to allow directory");
}

#[test]
fn the_flag_picks_the_mode() {
    assert_eq!(access_mode(true), AccessMode::DirectoryRecursive);
    assert_eq!(access_mode(false), AccessMode::File);
}

#[test]
fn allow_directory_is_the_recursive_request() {
    assert_eq!(allow_directory("/srv/data", true), allow_path("/srv/data", true, true));
    assert_eq!(allow_directory("/srv/data", false), allow_path("/srv/data", true, false));
    assert_eq!(allow_directory("/srv/data", false).unwrap_err().mode, AccessMode::DirectoryRecursive);
}

#[test]
fn allow_file_is_the_single_file_request() {
    assert_eq!(allow_file("/srv/data.csv", true), allow_path("/srv/data.csv", false, true));
    assert_eq!(allow_file("/srv/data.csv", false), allow_path("/srv/data.csv", false, false));
    assert_eq!(allow_file("/srv/data.csv", false).unwrap_err().mode, AccessMode::File);
}

#[test]
fn success_is_owed_exactly_when_granted() {
    for recursive in [true, false] {
        assert!(allow_path("/a/b", recursive, true).is_ok());
        assert!(allow_path("/a/b", recursive, false).is_err());
    }
}
