use afs::{create_tempdir, exists_sync, is_dir_sync, is_file_sync, is_symlink_sync, mkdir_sync,
    rmdir_sync, soft_link, unlink_sync, write_file_sync};

#[test]
fn test_exists_sync() {
    let base = create_tempdir().unwrap();
    let path = format!("{}/test_exists.txt", base);
    write_file_sync(&path, "test").unwrap();

    assert!(exists_sync(&path));
    assert!(!exists_sync("nonexistent.txt"));

    unlink_sync(&path).unwrap();
    rmdir_sync(&base).unwrap();
}

#[test]
fn test_is_file_sync() {
    let base = create_tempdir().unwrap();
    let file_path = format!("{}/test_is_file.txt", base);
    let dir_path = format!("{}/test_is_file_dir", base);

    write_file_sync(&file_path, "test").unwrap();
    mkdir_sync(&dir_path).unwrap();

    assert!(is_file_sync(&file_path));
    assert!(!is_file_sync(&dir_path));
    assert!(!is_file_sync("nonexistent.txt"));

    rmdir_sync(&base).unwrap();
}

#[test]
fn test_is_dir_sync() {
    let base = create_tempdir().unwrap();
    let file_path = format!("{}/test_is_dir.txt", base);
    let dir_path = format!("{}/test_is_dir_dir", base);

    write_file_sync(&file_path, "test").unwrap();
    mkdir_sync(&dir_path).unwrap();

    assert!(!is_dir_sync(&file_path));
    assert!(is_dir_sync(&dir_path));
    assert!(!is_dir_sync("nonexistent"));

    rmdir_sync(&base).unwrap();
}

#[test]
fn test_is_symlink_sync() {
    let base = create_tempdir().unwrap();
    let target = format!("{}/test_symlink_target.txt", base);
    let link = format!("{}/test_symlink.txt", base);
    write_file_sync(&target, "content").unwrap();
    soft_link("test_symlink_target.txt", &link).unwrap();

    assert!(is_symlink_sync(&link));
    assert!(!is_symlink_sync(&target));

    rmdir_sync(&base).unwrap();
}
