use easy_archive::{File, Fmt};

fn sample_files() -> Vec<File> {
    vec![
        File {
            path: "hello.txt".to_string(),
            buffer: b"Hello, world!".to_vec(),
            mode: None,
            is_dir: false,
            last_modified: None,
        },
        File {
            path: "docs/readme.md".to_string(),
            buffer: b"# readme".to_vec(),
            mode: Some(0o600),
            is_dir: false,
            last_modified: Some(1700000000),
        },
    ]
}

#[test]
fn tar_round_trip() {
    let bytes = Fmt::Tar.encode(sample_files()).unwrap();
    let back = Fmt::Tar.decode(bytes).unwrap();
    assert_eq!(back.len(), 2);
    assert_eq!(back[0].path, "hello.txt");
    assert_eq!(back[0].buffer, b"Hello, world!".to_vec());
    // the encode defaults reappear on decode
    assert_eq!(back[0].mode, Some(0o644));
    assert_eq!(back[0].last_modified, Some(0));
    assert!(!back[0].is_dir);
    assert_eq!(back[1].path, "docs/readme.md");
    assert_eq!(back[1].buffer, b"# readme".to_vec());
    assert_eq!(back[1].mode, Some(0o600));
    assert_eq!(back[1].last_modified, Some(1700000000));
}

#[test]
fn tar_gz_round_trip() {
    let bytes = Fmt::TarGz.encode(sample_files()).unwrap();
    let back = Fmt::TarGz.decode(bytes).unwrap();
    assert_eq!(back.len(), 2);
    assert_eq!(back[0].path, "hello.txt");
    assert_eq!(back[0].buffer, b"Hello, world!".to_vec());
    assert_eq!(back[1].mode, Some(0o600));
}

#[test]
fn tar_xz_round_trip() {
    let bytes = Fmt::TarXz.encode(sample_files()).unwrap();
    let back = Fmt::TarXz.decode(bytes).unwrap();
    assert_eq!(back.len(), 2);
    assert_eq!(back[1].path, "docs/readme.md");
    assert_eq!(back[1].buffer, b"# readme".to_vec());
    assert_eq!(back[1].last_modified, Some(1700000000));
}

#[test]
fn tar_zstd_round_trip() {
    let bytes = Fmt::TarZstd.encode(sample_files()).unwrap();
    let back = Fmt::TarZstd.decode(bytes).unwrap();
    assert_eq!(back.len(), 2);
    assert_eq!(back[0].path, "hello.txt");
    assert_eq!(back[0].buffer, b"Hello, world!".to_vec());
    assert_eq!(back[0].mode, Some(0o644));
}

#[test]
fn zip_round_trip() {
    let bytes = Fmt::Zip.encode(sample_files()).unwrap();
    let back = Fmt::Zip.decode(bytes).unwrap();
    // a parent directory for docs/readme.md is synthesized
    assert_eq!(back.len(), 3);
    assert!(back.iter().any(|f| f.is_dir && f.path == "docs"));
    let hello = back.iter().find(|f| f.path == "hello.txt").unwrap();
    assert_eq!(hello.buffer, b"Hello, world!".to_vec());
    // the file-mode default applied on encode reappears on decode
    assert_eq!(hello.mode, Some(0o755));
    let readme = back.iter().find(|f| f.path == "docs/readme.md").unwrap();
    assert_eq!(readme.buffer, b"# readme".to_vec());
    assert_eq!(readme.mode, Some(0o600));
    // the stored DOS time has two-second resolution; 1700000000 is even
    assert_eq!(readme.last_modified, Some(1700000000));
}

#[test]
fn seven_zip_round_trip() {
    let bytes = Fmt::SevenZip.encode(sample_files()).unwrap();
    let back = Fmt::SevenZip.decode(bytes).unwrap();
    assert_eq!(back.len(), 2);
    assert_eq!(back[0].path, "hello.txt");
    assert_eq!(back[0].buffer, b"Hello, world!".to_vec());
    assert_eq!(back[0].mode, None);
    assert_eq!(back[0].last_modified, None);
    assert_eq!(back[1].path, "docs/readme.md");
    assert_eq!(back[1].buffer, b"# readme".to_vec());
    // the timestamp survives the container's NT-time encoding
    assert_eq!(back[1].last_modified, Some(1700000000));
}

#[test]
fn seven_zip_decode_normalizes_names() {
    let files = vec![File {
        path: "./x.txt".to_string(),
        buffer: b"x".to_vec(),
        mode: None,
        is_dir: false,
        last_modified: None,
    }];
    let bytes = Fmt::SevenZip.encode(files).unwrap();
    let back = Fmt::SevenZip.decode(bytes).unwrap();
    assert_eq!(back.len(), 1);
    assert_eq!(back[0].path, "x.txt");
    assert_eq!(back[0].buffer, b"x".to_vec());
}

#[test]
fn empty_round_trip() {
    let bytes = Fmt::Tar.encode(vec![]).unwrap();
    let back = Fmt::Tar.decode(bytes).unwrap();
    assert!(back.is_empty());
}
