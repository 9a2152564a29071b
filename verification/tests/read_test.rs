use afs::{create_tempdir, get_dir_size, hash_sync, mkdir_sync, read_file_sync, rmdir_sync,
    stat_sync, unlink_sync, write_file_sync};

#[test]
fn test_read_file_sync() {
    let base = create_tempdir().unwrap();
    let path = format!("{}/test_read_sync.txt", base);
    write_file_sync(&path, "Hello, sync!").unwrap();

    let result = read_file_sync(&path).unwrap();
    assert_eq!(result, "Hello, sync!");

    unlink_sync(&path).unwrap();
    rmdir_sync(&base).unwrap();
}

#[test]
fn test_get_dir_size() {
    let base = create_tempdir().unwrap();
    let dir = format!("{}/test_dir_size", base);
    let dir = dir.as_str();
    mkdir_sync(dir).unwrap();
    write_file_sync(&format!("{}/a.txt", dir), "123").unwrap();
    write_file_sync(&format!("{}/b.txt", dir), "4567").unwrap();

    let size = get_dir_size(dir).unwrap();
    assert_eq!(size, 7);

    rmdir_sync(dir).unwrap();
    rmdir_sync(&base).unwrap();
}

#[test]
fn test_stat_sync() {
    let base = create_tempdir().unwrap();
    let path = format!("{}/test_stat.txt", base);
    write_file_sync(&path, "test").unwrap();

    let metadata = stat_sync(&path).unwrap();
    assert!(metadata.is_file);

    unlink_sync(&path).unwrap();
    rmdir_sync(&base).unwrap();
}

#[test]
fn test_hash_sync() {
    let base = create_tempdir().unwrap();
    let path = format!("{}/test_hash.txt", base);
    write_file_sync(&path, "hello").unwrap();

    let hash_val = hash_sync(&path).unwrap();
    assert!(!hash_val.is_empty());
    assert_eq!(hash_val.len(), 64);

    unlink_sync(&path).unwrap();
    rmdir_sync(&base).unwrap();
}
