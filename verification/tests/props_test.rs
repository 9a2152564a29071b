use afs::{create_file_sync, create_tempdir, disk_used, encode_base62, get_dir_size, get_filepath,
    hash_bytes, hash_sync, mkdir_sync, normalize_path, parse_octal_mode, readonly_flag_for_mode,
    resolve, rmdir_sync, soft_link, strip_platform_prefix, unlink_sync, which_in_path,
    write_file_sync};

#[test]
fn normalize_is_idempotent_on_samples() {
    for p in [
        r"C:\Users\test\file.txt",
        "already/normal/path",
        r"mixed\and/separators\x",
        "",
        r"\\?\C:\long",
    ] {
        let once = normalize_path(p);
        let twice = normalize_path(&once);
        assert_eq!(once, twice);
    }
}

#[test]
fn resolve_parent_pops_one_segment() {
    assert_eq!(resolve("/home/user", "..").unwrap(), "/home");
    assert_eq!(resolve("/home", "..").unwrap(), "/");
    assert_eq!(resolve("/", "..").unwrap(), "/");
    assert_eq!(resolve("a", "..").unwrap(), "");
    assert_eq!(resolve("", "..").unwrap(), "");
}

#[test]
fn resolve_curdir_keeps_base() {
    assert_eq!(resolve("/home/user", ".").unwrap(), "/home/user");
    assert_eq!(resolve("relative/base", ".").unwrap(), "relative/base");
    assert_eq!(resolve("", ".").unwrap(), "");
}

#[test]
fn resolve_relative_appends() {
    assert_eq!(resolve("/home/user", "../test.txt").unwrap(), "/home/test.txt");
    assert_eq!(resolve("/home/user", "./test.txt").unwrap(), "/home/user/test.txt");
    assert_eq!(resolve("/home/user", "a/b/../c").unwrap(), "/home/user/a/c");
}

#[test]
fn resolve_absolute_ignores_base() {
    assert_eq!(resolve("/home/user", "/absolute/path.txt").unwrap(), "/absolute/path.txt");
    assert_eq!(resolve("anything/else", "/absolute/path.txt").unwrap(), "/absolute/path.txt");
}

#[test]
fn dir_size_sums_nested_files() {
    let base = create_tempdir().unwrap();
    let dir = format!("{}/test_size_nested", base);
    let dir = dir.as_str();
    mkdir_sync(&format!("{}/sub", dir)).unwrap();
    write_file_sync(&format!("{}/a.txt", dir), "123").unwrap();
    write_file_sync(&format!("{}/b.txt", dir), "4567").unwrap();
    write_file_sync(&format!("{}/sub/c.txt", dir), "89").unwrap();

    let size = get_dir_size(dir).unwrap();
    assert_eq!(size, 9);

    rmdir_sync(dir).unwrap();
    rmdir_sync(&base).unwrap();
}

#[test]
fn dir_size_skips_symlinked_directories() {
    let base = create_tempdir().unwrap();
    let outside = format!("{}/test_size_outside", base);
    let dir = format!("{}/test_size_links", base);
    mkdir_sync(&outside).unwrap();
    write_file_sync(&format!("{}/big.txt", outside), "0123456789").unwrap();
    mkdir_sync(&dir).unwrap();
    write_file_sync(&format!("{}/small.txt", dir), "xy").unwrap();
    soft_link("../test_size_outside", &format!("{}/linkdir", dir)).unwrap();
    soft_link("../test_size_outside/big.txt", &format!("{}/linkfile", dir)).unwrap();

    let size = get_dir_size(&dir).unwrap();
    assert_eq!(size, 2);

    rmdir_sync(&base).unwrap();
}

#[test]
fn dir_size_fails_on_missing_directory() {
    assert!(get_dir_size("test_size_not_there_12345").is_err());
}

#[test]
fn hash_depends_on_content_alone() {
    let base = create_tempdir().unwrap();
    let a = format!("{}/test_hash_a.txt", base);
    let b = format!("{}/test_hash_b.txt", base);
    let c = format!("{}/test_hash_c.txt", base);
    write_file_sync(&a, "same content").unwrap();
    write_file_sync(&b, "same content").unwrap();
    write_file_sync(&c, "same content!").unwrap();

    let ha = hash_sync(&a).unwrap();
    let hb = hash_sync(&b).unwrap();
    let hc = hash_sync(&c).unwrap();
    assert_eq!(ha, hb);
    assert_ne!(ha, hc);

    rmdir_sync(&base).unwrap();
}

#[test]
fn hash_matches_published_vectors() {
    let base = create_tempdir().unwrap();
    let empty = format!("{}/test_hash_empty.txt", base);
    let hello = format!("{}/test_hash_hello.txt", base);
    write_file_sync(&empty, "").unwrap();
    write_file_sync(&hello, "hello").unwrap();

    assert_eq!(
        hash_sync(&empty).unwrap(),
        "e3b0c44298fc1c149afbf4c8996fb92427ae41e4649b934ca495991b7852b855"
    );
    assert_eq!(
        hash_sync(&hello).unwrap(),
        "2cf24dba5fb0a30e26e83b2ac5b9e29e1b161e5c1fa7425e73043362938b9824"
    );

    rmdir_sync(&base).unwrap();
}

#[test]
fn hash_is_lowercase_hex_of_fixed_length() {
    let base = create_tempdir().unwrap();
    let path = format!("{}/test_hash_shape.txt", base);
    write_file_sync(&path, "hello").unwrap();

    let h = hash_sync(&path).unwrap();
    assert_eq!(h.len(), 64);
    assert!(h.chars().all(|c| c.is_ascii_hexdigit() && !c.is_ascii_uppercase()));

    unlink_sync(&path).unwrap();
    rmdir_sync(&base).unwrap();
}

#[test]
fn hash_bytes_matches_file_hash() {
    let bytes: Vec<u8> = b"hello".to_vec();
    assert_eq!(
        hash_bytes(&bytes),
        "2cf24dba5fb0a30e26e83b2ac5b9e29e1b161e5c1fa7425e73043362938b9824"
    );
    let empty: Vec<u8> = Vec::new();
    assert_eq!(
        hash_bytes(&empty),
        "e3b0c44298fc1c149afbf4c8996fb92427ae41e4649b934ca495991b7852b855"
    );
}

#[test]
fn parse_octal_mode_reads_octal() {
    assert_eq!(parse_octal_mode("755").unwrap(), 0o755);
    assert_eq!(parse_octal_mode("444").unwrap(), 0o444);
    assert_eq!(parse_octal_mode("0").unwrap(), 0);
    assert_eq!(parse_octal_mode("37777777777").unwrap(), u32::MAX);
    assert!(parse_octal_mode("").is_err());
    assert!(parse_octal_mode("8").is_err());
    assert!(parse_octal_mode("7a5").is_err());
    assert!(parse_octal_mode("40000000000").is_err());
}

#[test]
fn readonly_reduction_tests_the_read_bits() {
    assert!(readonly_flag_for_mode(0o444));
    assert!(readonly_flag_for_mode(0o644));
    assert!(readonly_flag_for_mode(0o400));
    assert!(!readonly_flag_for_mode(0o200));
    assert!(!readonly_flag_for_mode(0o311));
    assert!(!readonly_flag_for_mode(0));
}

#[test]
fn encode_base62_counts_in_its_alphabet() {
    assert_eq!(encode_base62(0, ".txt"), ".txt");
    assert_eq!(encode_base62(1, ""), "b");
    assert_eq!(encode_base62(61, ""), "9");
    assert_eq!(encode_base62(62, ".log"), "ab.log");
    assert!(encode_base62(1700000000, ".txt").ends_with(".txt"));
}

#[test]
fn which_in_path_finds_files_in_listed_dirs() {
    let base = create_tempdir().unwrap();
    let dir = format!("{}/test_which_bin", base);
    mkdir_sync(&dir).unwrap();
    write_file_sync(&format!("{}/mytool", dir), "#!/bin/sh\n").unwrap();

    let found = which_in_path(&dir, "mytool").unwrap();
    assert_eq!(found, format!("{}/mytool", dir));

    let path_var = format!("nowhere:{}", dir);
    let found = which_in_path(&path_var, "mytool").unwrap();
    assert_eq!(found, format!("{}/mytool", dir));

    assert!(which_in_path(&dir, "nonexistent_command_12345").is_err());
    assert!(which_in_path("", "nonexistent_command_12345").is_err());

    rmdir_sync(&base).unwrap();
}

#[test]
fn strip_platform_prefix_removes_marker() {
    assert_eq!(strip_platform_prefix(r"\\?\C:\x"), r"C:\x");
    assert_eq!(strip_platform_prefix("/plain/path"), "/plain/path");
    assert_eq!(strip_platform_prefix(r"\\x"), r"\\x");
}

#[test]
fn get_filepath_returns_an_absolute_path() {
    let real = get_filepath(".").unwrap();
    assert!(real.starts_with('/'));

    let base = create_tempdir().unwrap();
    let file = format!("{}/real.txt", base);
    write_file_sync(&file, "x").unwrap();
    let real = get_filepath(&file).unwrap();
    assert!(real.starts_with('/'));
    assert!(real.ends_with("real.txt"));

    rmdir_sync(&base).unwrap();
}

#[test]
fn disk_used_subtracts_free_space() {
    assert_eq!(disk_used(1000, 250), 750);
    assert_eq!(disk_used(5, 5), 0);
    assert_eq!(disk_used(3, 7), 0);
}

#[test]
fn create_file_sync_rejects_non_files() {
    let base = create_tempdir().unwrap();
    let dir = format!("{}/test_create_file_dir", base);
    mkdir_sync(&dir).unwrap();
    assert!(create_file_sync(&dir).is_err());
    rmdir_sync(&base).unwrap();
}
