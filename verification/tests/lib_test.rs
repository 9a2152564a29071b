use afs::{create_tempdir, read_file_sync, resolve, rmdir_sync, unlink_sync, write_file_sync};

#[test]
fn test_write_to_file() {
    let base = create_tempdir().unwrap();
    let path = format!("{}/test.txt", base);
    let content = "Hello, world!";

    write_file_sync(&path, content).unwrap();

    let read_content = read_file_sync(&path).unwrap();
    assert_eq!(read_content, content);

    unlink_sync(&path).unwrap();
    rmdir_sync(&base).unwrap();
}

#[test]
fn lib_test_test_resolve() {
    let base = "/home/user";
    let input = "../test.txt";
    let result = resolve(base, input);
    assert_eq!(result.unwrap(), "/home/test.txt");
    let input = "./test.txt";
    let result = resolve(base, input);
    assert_eq!(result.unwrap(), "/home/user/test.txt");
    let input = "test.txt";
    let result = resolve(base, input);
    assert_eq!(result.unwrap(), "/home/user/test.txt");
    let input = "./../test.txt";
    let result = resolve(base, input);
    assert_eq!(result.unwrap(), "/home/test.txt");
}
