use easy_archive::{check_duplicate_files, ArchiveError, File, Fmt};

fn dup_files() -> Vec<File> {
    vec![
        File {
            path: "a.txt".to_string(),
            buffer: b"one".to_vec(),
            mode: None,
            is_dir: false,
            last_modified: None,
        },
        File {
            path: "a.txt".to_string(),
            buffer: b"two".to_vec(),
            mode: None,
            is_dir: false,
            last_modified: None,
        },
    ]
}

#[test]
fn duplicate_paths_rejected() {
    match check_duplicate_files(&dup_files()) {
        Err(ArchiveError::DuplicateFiles { paths }) => {
            assert_eq!(paths, vec!["a.txt".to_string()]);
        },
        other => panic!("expected DuplicateFiles, got {:?}", other),
    }
}

#[test]
fn duplicate_paths_fail_every_encoder() {
    for fmt in [Fmt::Tar, Fmt::TarGz, Fmt::TarXz, Fmt::TarZstd, Fmt::Zip, Fmt::SevenZip] {
        match fmt.encode(dup_files()) {
            Err(ArchiveError::DuplicateFiles { paths }) => {
                assert_eq!(paths, vec!["a.txt".to_string()]);
            },
            other => panic!("{:?}: expected DuplicateFiles, got {:?}", fmt, other),
        }
    }
}

#[test]
fn no_duplicates_passes() {
    let files = vec![
        File {
            path: "a.txt".to_string(),
            buffer: vec![],
            mode: None,
            is_dir: false,
            last_modified: None,
        },
        File {
            path: "b.txt".to_string(),
            buffer: vec![],
            mode: None,
            is_dir: false,
            last_modified: None,
        },
    ];
    assert!(check_duplicate_files(&files).is_ok());
}

#[test]
fn triple_duplicate_reported_with_multiplicity() {
    let mut files = dup_files();
    files.push(File {
        path: "a.txt".to_string(),
        buffer: vec![],
        mode: None,
        is_dir: false,
        last_modified: None,
    });
    match check_duplicate_files(&files) {
        Err(ArchiveError::DuplicateFiles { paths }) => {
            assert_eq!(paths, vec!["a.txt".to_string(), "a.txt".to_string()]);
        },
        other => panic!("expected DuplicateFiles, got {:?}", other),
    }
}

#[test]
fn tar_bz_encode_is_unsupported() {
    match Fmt::TarBz.encode(vec![]) {
        Err(ArchiveError::UnsupportedFormat(msg)) => {
            assert_eq!(msg, "tar.bz2 encoding is not supported");
        },
        other => panic!("expected UnsupportedFormat, got {:?}", other),
    }
}

#[test]
fn malformed_tar_is_decode_failed() {
    let garbage = vec![0xFFu8; 1024];
    match Fmt::Tar.decode(garbage) {
        Err(ArchiveError::DecodeFailed { format, .. }) => assert_eq!(format, "tar"),
        other => panic!("expected DecodeFailed, got {:?}", other),
    }
}

#[test]
fn malformed_gzip_is_decompression_error() {
    let garbage = vec![0xFFu8; 64];
    match Fmt::TarGz.decode(garbage) {
        Err(ArchiveError::DecompressionError(_)) => {},
        other => panic!("expected DecompressionError, got {:?}", other),
    }
}

#[test]
fn malformed_zip_is_decode_failed() {
    let garbage = vec![0x00u8; 64];
    match Fmt::Zip.decode(garbage) {
        Err(ArchiveError::DecodeFailed { format, .. }) => assert_eq!(format, "zip"),
        other => panic!("expected DecodeFailed, got {:?}", other),
    }
}

#[test]
fn error_messages_render() {
    let e = ArchiveError::UnsupportedFormat("x".to_string());
    assert_eq!(e.message(), "unsupported format: x");
    let d = ArchiveError::DuplicateFiles {
        paths: vec!["a".to_string(), "b".to_string()],
    };
    assert_eq!(d.message(), "duplicate file paths detected: a, b");
    let f = ArchiveError::DecodeFailed {
        format: "tar".to_string(),
        reason: "bad".to_string(),
    };
    assert_eq!(f.message(), "failed to decode tar archive: bad");
}
