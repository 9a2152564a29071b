use afs::{create_tempdir, exists_sync, mkdir_sync, rmdir_sync, unlink_sync, write_file_sync};

#[test]
fn test_unlink_sync() {
    let base = create_tempdir().unwrap();
    let path = format!("{}/test_unlink.txt", base);
    write_file_sync(&path, "to be deleted").unwrap();
    assert!(exists_sync(&path));

    unlink_sync(&path).unwrap();
    assert!(!exists_sync(&path));

    rmdir_sync(&base).unwrap();
}

#[test]
fn test_rmdir_sync() {
    let base = create_tempdir().unwrap();
    let path = format!("{}/test_rmdir_sync/nested", base);
    mkdir_sync(&path).unwrap();
    write_file_sync(&format!("{}/file.txt", path), "content").unwrap();

    rmdir_sync(&format!("{}/test_rmdir_sync", base)).unwrap();
    assert!(!exists_sync(&format!("{}/test_rmdir_sync", base)));

    rmdir_sync(&base).unwrap();
}

#[test]
fn test_unlink_nonexistent() {
    let result = unlink_sync("nonexistent_file_12345.txt");
    assert!(result.is_err());
}

#[test]
fn test_rmdir_nonexistent() {
    let result = rmdir_sync("nonexistent_dir_12345");
    assert!(result.is_err());
}
