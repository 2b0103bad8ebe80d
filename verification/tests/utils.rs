use easy_archive::{clean, human_size, mode_to_string};

#[test]
fn mode_strings() {
    assert_eq!(mode_to_string(0o755, true), Some("drwxr-xr-x".to_string()));
    assert_eq!(mode_to_string(0o644, false), Some("-rw-r--r--".to_string()));
    assert_eq!(mode_to_string(0o000, false), Some("----------".to_string()));
    assert_eq!(mode_to_string(0o777, false), Some("-rwxrwxrwx".to_string()));
    assert_eq!(mode_to_string(0o123, false), Some("---x-w--wx".to_string()));
}

#[test]
fn mode_out_of_range_is_rejected() {
    assert_eq!(mode_to_string(0o1000, false), None);
    assert_eq!(mode_to_string(0o1777, true), None);
    assert_eq!(mode_to_string(u32::MAX, false), None);
}

#[test]
fn human_sizes() {
    assert_eq!(human_size(0), "0");
    assert_eq!(human_size(1), "1");
    assert_eq!(human_size(532), "532");
    assert_eq!(human_size(1024), "1K");
    assert_eq!(human_size(1536), "1.5K");
    assert_eq!(human_size(1024 * 1024), "1M");
    assert_eq!(human_size(3 * 1024 * 1024 * 1024), "3G");
    assert_eq!(human_size(1048575), "1024K");
}

#[test]
fn clean_paths() {
    assert_eq!(clean("hello/world/.."), "hello");
    assert_eq!(clean(""), ".");
    assert_eq!(clean("."), ".");
    assert_eq!(clean(".."), "..");
    assert_eq!(clean("./a"), "a");
    assert_eq!(clean("a//b"), "a/b");
    assert_eq!(clean("a/./b"), "a/b");
    assert_eq!(clean("a/b/"), "a/b");
    assert_eq!(clean("../x"), "../x");
    assert_eq!(clean("a/../.."), "..");
    assert_eq!(clean("/a/../.."), "/");
    assert_eq!(clean("/test/../path/"), "/path");
    assert_eq!(clean("a\\b"), "a/b");
}

#[test]
fn clean_is_idempotent_on_samples() {
    for s in ["hello/world/..", "a//b/./c", "../x/y", "/a/b/../c", "a\\b\\c"] {
        let once = clean(s);
        let twice = clean(&once);
        assert_eq!(once, twice);
    }
}
