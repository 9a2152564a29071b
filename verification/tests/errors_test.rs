use afs::{basename, create_file_sync, create_tempdir, dirname, get_filepath, mkdir_sync,
    parse_octal_mode, read_file_sync, rmdir_sync, unlink_sync, which_in_path, write_file_sync,
    AfsError};

#[test]
fn empty_paths_are_rejected() {
    assert!(matches!(basename(""), Err(AfsError::EmptyPath)));
    assert!(matches!(dirname(""), Err(AfsError::EmptyPath)));
}

#[test]
fn rootlike_paths_have_no_components() {
    assert!(matches!(basename("/"), Err(AfsError::PathComponent(_))));
    assert!(matches!(basename(".."), Err(AfsError::PathComponent(_))));
    assert!(matches!(dirname("/"), Err(AfsError::PathComponent(_))));
    assert!(matches!(dirname("///"), Err(AfsError::PathComponent(_))));
}

#[test]
fn missing_entries_fail_to_canonicalize() {
    assert!(matches!(
        get_filepath("nonexistent_file_12345.txt"),
        Err(AfsError::Canonicalize { .. })
    ));
}

#[test]
fn reading_a_missing_file_reports_read_file() {
    assert!(matches!(
        read_file_sync("nonexistent_file_12345.txt"),
        Err(AfsError::ReadFile { .. })
    ));
}

#[test]
fn removing_a_directory_as_a_file_reports_remove_file() {
    let base = create_tempdir().unwrap();
    let dir = format!("{}/a_directory", base);
    mkdir_sync(&dir).unwrap();

    assert!(matches!(unlink_sync(&dir), Err(AfsError::RemoveFile { .. })));

    rmdir_sync(&base).unwrap();
}

#[test]
fn creating_over_a_directory_reports_not_a_file() {
    let base = create_tempdir().unwrap();
    let dir = format!("{}/occupied", base);
    mkdir_sync(&dir).unwrap();

    assert!(matches!(create_file_sync(&dir), Err(AfsError::NotAFile(_))));

    rmdir_sync(&base).unwrap();
}

#[test]
fn creating_under_a_file_reports_parent_not_dir() {
    let base = create_tempdir().unwrap();
    let file = format!("{}/plain.txt", base);
    write_file_sync(&file, "x").unwrap();

    let nested = format!("{}/plain.txt/below.txt", base);
    assert!(matches!(create_file_sync(&nested), Err(AfsError::ParentNotDir(_))));

    rmdir_sync(&base).unwrap();
}

#[test]
fn bad_modes_report_invalid_mode() {
    assert!(matches!(parse_octal_mode("9"), Err(AfsError::InvalidMode(_))));
    assert!(matches!(parse_octal_mode(""), Err(AfsError::InvalidMode(_))));
}

#[test]
fn missing_commands_report_command_not_found() {
    assert!(matches!(
        which_in_path("", "nonexistent_command_12345"),
        Err(AfsError::CommandNotFound(_))
    ));
}
