use easy_archive::File;

#[test]
fn entry_construction_and_accessors() {
    let mut f = File::new(
        "a.txt".to_string(),
        b"abc".to_vec(),
        Some(0o644),
        false,
        Some(12),
    );
    assert_eq!(f.get_path(), "a.txt");
    assert_eq!(f.buffer_size(), 3);
    f.set_path("b.txt".to_string());
    f.set_buffer(b"defg".to_vec());
    assert_eq!(f.get_path(), "b.txt");
    assert_eq!(f.buffer_size(), 4);
    let g = f.clone();
    assert_eq!(g.get_path(), "b.txt");
    assert_eq!(g.get_buffer(), b"defg".to_vec());
}

#[test]
fn entry_default_is_empty() {
    let f = File::default();
    assert_eq!(f.path, "");
    assert!(f.buffer.is_empty());
    assert_eq!(f.mode, None);
    assert!(!f.is_dir);
    assert_eq!(f.last_modified, None);
}
