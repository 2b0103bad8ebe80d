use easy_archive::{File, Fmt};

fn leaf_only() -> Vec<File> {
    vec![File {
        path: "a/b.txt".to_string(),
        buffer: b"leaf".to_vec(),
        mode: None,
        is_dir: false,
        last_modified: None,
    }]
}

#[test]
fn zip_synthesizes_parent_directory() {
    let bytes = Fmt::Zip.encode(leaf_only()).unwrap();
    let back = Fmt::Zip.decode(bytes).unwrap();
    assert_eq!(back.len(), 2);
    let dir = back.iter().find(|f| f.path == "a").unwrap();
    assert!(dir.is_dir);
    assert!(dir.buffer.is_empty());
    let leaf = back.iter().find(|f| f.path == "a/b.txt").unwrap();
    assert!(!leaf.is_dir);
    assert_eq!(leaf.buffer, b"leaf".to_vec());
}

#[test]
fn zip_encode_is_deterministic() {
    let first = Fmt::Zip.encode(leaf_only()).unwrap();
    let second = Fmt::Zip.encode(leaf_only()).unwrap();
    assert_eq!(first, second);
}

#[test]
fn zip_explicit_directory_written_once() {
    let files = vec![
        File {
            path: "a".to_string(),
            buffer: vec![],
            mode: None,
            is_dir: true,
            last_modified: None,
        },
        File {
            path: "a/b.txt".to_string(),
            buffer: b"x".to_vec(),
            mode: None,
            is_dir: false,
            last_modified: None,
        },
    ];
    let bytes = Fmt::Zip.encode(files).unwrap();
    let back = Fmt::Zip.decode(bytes).unwrap();
    // the explicit "a" is written in the first pass and not synthesized again
    assert_eq!(back.iter().filter(|f| f.path == "a").count(), 1);
    assert_eq!(back.len(), 2);
}

#[test]
fn zip_nested_parent_is_immediate_only() {
    let files = vec![File {
        path: "a/b/c.txt".to_string(),
        buffer: b"y".to_vec(),
        mode: None,
        is_dir: false,
        last_modified: None,
    }];
    let bytes = Fmt::Zip.encode(files).unwrap();
    let back = Fmt::Zip.decode(bytes).unwrap();
    // only the immediate lexical parent is synthesized
    assert!(back.iter().any(|f| f.is_dir && f.path == "a/b"));
    assert!(!back.iter().any(|f| f.path == "a" && f.is_dir));
}
