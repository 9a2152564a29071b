use afs::{append_file_sync, create_file_sync, create_tempdir, create_tempfile, exists_sync,
    is_dir_sync, is_file_sync, is_symlink_sync, mkdir_sync, read_file_sync, rmdir_sync, soft_link,
    unlink_sync, write_file_sync};

#[test]
fn test_write_file_sync() {
    let base = create_tempdir().unwrap();
    let path = format!("{}/test_write_sync.txt", base);

    write_file_sync(&path, "Hello, world!").unwrap();

    let content = read_file_sync(&path).unwrap();
    assert_eq!(content, "Hello, world!");

    unlink_sync(&path).unwrap();
    rmdir_sync(&base).unwrap();
}

#[test]
fn test_append_file_sync() {
    let base = create_tempdir().unwrap();
    let path = format!("{}/test_append_sync.txt", base);
    write_file_sync(&path, "Hello").unwrap();
    append_file_sync(&path, ", World!").unwrap();

    let content = read_file_sync(&path).unwrap();
    assert_eq!(content, "Hello, World!");

    rmdir_sync(&base).unwrap();
}

#[test]
fn test_create_file_sync() {
    let base = create_tempdir().unwrap();
    let path = format!("{}/test_create/nested/file.txt", base);

    create_file_sync(&path).unwrap();
    assert!(exists_sync(&path));

    rmdir_sync(&format!("{}/test_create", base)).unwrap();
    rmdir_sync(&base).unwrap();
}

#[test]
fn test_mkdir_sync() {
    let base = create_tempdir().unwrap();
    let path = format!("{}/test_mkdir_sync/nested/dir", base);

    mkdir_sync(&path).unwrap();
    assert!(is_dir_sync(&path));

    rmdir_sync(&format!("{}/test_mkdir_sync", base)).unwrap();
    rmdir_sync(&base).unwrap();
}

#[test]
fn test_create_tempdir() {
    let dir = create_tempdir().unwrap();
    assert!(is_dir_sync(&dir));

    rmdir_sync(&dir).unwrap();
}

#[test]
fn test_create_tempfile() {
    let file = create_tempfile(".txt").unwrap();
    assert!(is_file_sync(&file));
    assert!(file.ends_with(".txt"));

    let parent = afs::dirname(&file).unwrap();
    rmdir_sync(&parent).unwrap();
}

#[test]
fn test_soft_link() {
    let base = create_tempdir().unwrap();
    let target = format!("{}/test_link_target.txt", base);
    let link = format!("{}/test_link.txt", base);
    write_file_sync(&target, "content").unwrap();

    soft_link("test_link_target.txt", &link).unwrap();
    assert!(is_symlink_sync(&link));

    rmdir_sync(&base).unwrap();
}
